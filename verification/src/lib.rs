//! Decision logic of an interactive WebSocket test client.
//!
//! The client connects to a server, forwards console lines as text frames and
//! reports every frame the server sends. This crate holds what the client
//! decides and what it prints; the program around it performs the handshake,
//! reads the console and moves frames over the socket.

pub mod client;
pub mod frame;
pub mod handler;
pub mod input;
pub mod opener;
pub mod orchestrator;
pub mod receiver;
pub mod render;
pub mod sender;
