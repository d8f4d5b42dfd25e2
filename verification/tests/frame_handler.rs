use ws_client::frame::{CloseInfo, Frame};
use ws_client::handler::{process_message, render_text_report, Flow, Handled};

fn close(code: u16, reason: &str) -> Frame {
    Frame::Close(Some(CloseInfo { code, reason: reason.to_string() }))
}

#[test]
fn text_frame_is_reported_quoted() {
    let handled = process_message(&Frame::Text("hello".to_string()), 0);
    assert_eq!(handled.line, ">>> 0 got str: \"hello\"");
    assert_eq!(handled.flow, Flow::Continue);
}

#[test]
fn text_frame_is_escaped_as_debug_formatting_does() {
    let texts = ["", "plain", "with \"quotes\"", "back\\slash", "line\nbreak", "tab\there",
        "it's", "é日本", "\u{0}\u{7f}", "\u{301}", "\u{200B}"];
    for t in texts {
        let handled = process_message(&Frame::Text(t.to_string()), 4);
        assert_eq!(handled.line, format!(">>> {} got str: {:?}", 4, t));
        assert_eq!(handled.flow, Flow::Continue);
    }
}

#[test]
fn text_report_is_built_around_the_quoted_content() {
    assert_eq!(render_text_report(12, "\"hi\""), ">>> 12 got str: \"hi\"");
    assert_eq!(render_text_report(0, ""), ">>> 0 got str: ");
}

#[test]
fn binary_frame_is_reported_with_its_length() {
    let handled = process_message(&Frame::Binary(vec![1, 2, 3]), 0);
    assert_eq!(handled.line, ">>> 0 got 3 bytes: [1, 2, 3]");
    assert_eq!(handled.flow, Flow::Continue);
}

#[test]
fn empty_binary_frame() {
    let handled = process_message(&Frame::Binary(vec![]), 7);
    assert_eq!(handled.line, ">>> 7 got 0 bytes: []");
    assert_eq!(handled.flow, Flow::Continue);
}

#[test]
fn long_binary_frame() {
    let data: Vec<u8> = (0..300u32).map(|i| (i % 256) as u8).collect();
    let handled = process_message(&Frame::Binary(data.clone()), 1);
    assert_eq!(handled.line, format!(">>> {} got {} bytes: {:?}", 1, data.len(), data));
    assert_eq!(handled.flow, Flow::Continue);
}

#[test]
fn ping_is_reported_and_receiving_continues() {
    let handled = process_message(&Frame::Ping(vec![1, 2, 3]), 0);
    assert_eq!(handled, Handled { line: ">>> 0 got ping with [1, 2, 3]".to_string(), flow: Flow::Continue });
}

#[test]
fn pong_is_reported_and_receiving_continues() {
    let handled = process_message(&Frame::Pong(vec![255, 0]), 2);
    assert_eq!(handled.line, ">>> 2 got pong with [255, 0]");
    assert_eq!(handled.flow, Flow::Continue);
}

#[test]
fn close_with_code_and_reason_stops() {
    let handled = process_message(&close(1000, "bye"), 0);
    assert_eq!(handled.line, ">>> 0 got close with code 1000 and reason `bye`");
    assert_eq!(handled.flow, Flow::Stop);
}

#[test]
fn close_reason_is_not_escaped() {
    let handled = process_message(&close(4001, "said \"no\""), 3);
    assert_eq!(handled.line, ">>> 3 got close with code 4001 and reason `said \"no\"`");
    assert_eq!(handled.flow, Flow::Stop);
}

#[test]
fn close_with_empty_reason_and_extreme_codes() {
    assert_eq!(process_message(&close(0, ""), 0).line, ">>> 0 got close with code 0 and reason ``");
    assert_eq!(
        process_message(&close(u16::MAX, ""), 0).line,
        ">>> 0 got close with code 65535 and reason ``"
    );
}

#[test]
fn close_without_code_and_reason_stops() {
    let handled = process_message(&Frame::Close(None), 0);
    assert_eq!(handled.line, ">>> 0 somehow got close message without CloseFrame");
    assert_eq!(handled.flow, Flow::Stop);
}

#[test]
fn every_kind_but_close_continues() {
    let frames = [
        Frame::Text(String::new()),
        Frame::Binary(vec![]),
        Frame::Ping(vec![]),
        Frame::Pong(vec![]),
    ];
    for frame in &frames {
        assert!(frame.is_supported());
        assert!(!frame.is_close());
        assert!(process_message(frame, 9).flow.is_continue());
    }
    for frame in &[Frame::Close(None), close(1001, "away")] {
        assert!(frame.is_supported());
        assert!(frame.is_close());
        assert!(process_message(frame, 9).flow.is_stop());
    }
}

#[test]
fn every_report_is_labelled_with_the_identity() {
    let who = usize::MAX;
    let handled = process_message(&Frame::Ping(vec![]), who);
    assert_eq!(handled.line, format!(">>> {} got ping with []", who));
}

#[test]
fn raw_frame_is_not_supported() {
    assert!(!Frame::Raw.is_supported());
    assert!(!Frame::Raw.is_close());
}
