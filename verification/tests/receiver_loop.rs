use ws_client::frame::{CloseInfo, Frame};
use ws_client::handler::Flow;
use ws_client::receiver::{can_receive, receiver_step, run_receiver, Inbound, Received};

fn close(code: u16, reason: &str) -> Inbound {
    Inbound::Frame(Frame::Close(Some(CloseInfo { code, reason: reason.to_string() })))
}

fn text(t: &str) -> Inbound {
    Inbound::Frame(Frame::Text(t.to_string()))
}

#[test]
fn receiver_reports_a_frame_and_continues() {
    let step = receiver_step(0, &text("hi"));
    assert_eq!(step, Received { line: Some(">>> 0 got str: \"hi\"".to_string()), flow: Flow::Continue });
}

#[test]
fn receiver_reports_a_ping_and_continues() {
    let step = receiver_step(0, &Inbound::Frame(Frame::Ping(vec![1, 2, 3])));
    assert_eq!(step.line, Some(">>> 0 got ping with [1, 2, 3]".to_string()));
    assert_eq!(step.flow, Flow::Continue);
}

#[test]
fn receiver_reports_a_close_and_stops() {
    let step = receiver_step(0, &close(1000, "bye"));
    assert_eq!(step.line, Some(">>> 0 got close with code 1000 and reason `bye`".to_string()));
    assert_eq!(step.flow, Flow::Stop);
}

#[test]
fn receiver_reports_a_bare_close_and_stops() {
    let step = receiver_step(5, &Inbound::Frame(Frame::Close(None)));
    assert_eq!(step.line, Some(">>> 5 somehow got close message without CloseFrame".to_string()));
    assert_eq!(step.flow, Flow::Stop);
}

#[test]
fn receiver_drops_an_errored_item_and_continues() {
    let step = receiver_step(0, &Inbound::Errored);
    assert_eq!(step, Received { line: None, flow: Flow::Continue });
}

#[test]
fn receiver_stops_at_the_end_of_the_stream() {
    let step = receiver_step(0, &Inbound::End);
    assert_eq!(step, Received { line: None, flow: Flow::Stop });
}

#[test]
fn receiver_supports_everything_but_raw_frames() {
    assert!(text("x").is_supported());
    assert!(Inbound::Errored.is_supported());
    assert!(Inbound::End.is_supported());
    assert!(!Inbound::Frame(Frame::Raw).is_supported());
}

#[test]
fn scripted_receiver_prints_up_to_the_close() {
    let script = vec![
        text("one"),
        Inbound::Frame(Frame::Binary(vec![9])),
        close(1000, "bye"),
        text("never seen"),
    ];
    assert_eq!(
        run_receiver(2, &script),
        vec![
            ">>> 2 got str: \"one\"".to_string(),
            ">>> 2 got 1 bytes: [9]".to_string(),
            ">>> 2 got close with code 1000 and reason `bye`".to_string(),
        ]
    );
}

#[test]
fn scripted_receiver_skips_errored_items() {
    let script = vec![Inbound::Errored, text("a"), Inbound::Errored, Inbound::Errored, text("b")];
    assert_eq!(
        run_receiver(0, &script),
        vec![">>> 0 got str: \"a\"".to_string(), ">>> 0 got str: \"b\"".to_string()]
    );
}

#[test]
fn scripted_receiver_stops_at_the_end_of_the_stream() {
    let script = vec![text("a"), Inbound::End, text("b")];
    assert_eq!(run_receiver(0, &script), vec![">>> 0 got str: \"a\"".to_string()]);
}

#[test]
fn scripted_receiver_with_an_empty_script() {
    assert_eq!(run_receiver(0, &vec![]), Vec::<String>::new());
}

#[test]
fn scripted_receiver_prints_one_line_for_a_close() {
    assert_eq!(run_receiver(0, &vec![close(1001, "")]).len(), 1);
    assert_eq!(run_receiver(0, &vec![Inbound::Frame(Frame::Close(None))]).len(), 1);
}

#[test]
fn script_with_a_raw_frame_in_reach_cannot_be_received() {
    assert!(!can_receive(&vec![Inbound::Frame(Frame::Raw)]));
    assert!(!can_receive(&vec![text("a"), Inbound::Errored, Inbound::Frame(Frame::Raw)]));
}

#[test]
fn script_with_a_raw_frame_out_of_reach_can_be_received() {
    let after_close = vec![text("a"), close(1000, "bye"), Inbound::Frame(Frame::Raw)];
    assert!(can_receive(&after_close));
    assert_eq!(run_receiver(0, &after_close).len(), 2);
    let after_end = vec![Inbound::End, Inbound::Frame(Frame::Raw)];
    assert!(can_receive(&after_end));
    assert_eq!(run_receiver(0, &after_end), Vec::<String>::new());
}

#[test]
fn script_without_raw_frames_can_be_received() {
    assert!(can_receive(&vec![]));
    assert!(can_receive(&vec![text("a"), Inbound::Errored, text("b")]));
    assert!(can_receive(&vec![Inbound::Frame(Frame::Ping(vec![1]))]));
}
