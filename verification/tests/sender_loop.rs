use ws_client::frame::Frame;
use ws_client::sender::{run_sender, sender_step, SenderAction, SenderEvent};

fn line(text: &str) -> SenderEvent {
    SenderEvent::Line(text.to_string())
}

fn text(t: &str) -> Frame {
    Frame::Text(t.to_string())
}

#[test]
fn sender_stops_on_exit() {
    assert_eq!(sender_step(&line("exit")), SenderAction::Stop);
}

#[test]
fn sender_stops_on_exit_in_capitals() {
    assert_eq!(sender_step(&line("EXIT")), SenderAction::Stop);
}

#[test]
fn sender_stops_on_exit_with_spaces_around() {
    assert_eq!(sender_step(&line(" Exit ")), SenderAction::Stop);
    assert_eq!(sender_step(&line("exit\n")), SenderAction::Stop);
    assert_eq!(sender_step(&line("\texit\r\n")), SenderAction::Stop);
}

#[test]
fn sender_does_not_stop_on_exitt() {
    assert_eq!(sender_step(&line("exitt")), SenderAction::Send(text("exitt")));
}

#[test]
fn sender_sends_the_trimmed_line_as_text() {
    assert_eq!(sender_step(&line("hello\n")), SenderAction::Send(text("hello")));
    assert_eq!(sender_step(&line("  two words  \n")), SenderAction::Send(text("two words")));
}

#[test]
fn sender_sends_an_empty_line_as_empty_text() {
    assert_eq!(sender_step(&line("\n")), SenderAction::Send(text("")));
    assert_eq!(sender_step(&line("")), SenderAction::Send(text("")));
}

#[test]
fn sender_does_not_take_exit_inside_a_line_for_the_command() {
    assert_eq!(sender_step(&line("exit now")), SenderAction::Send(text("exit now")));
    assert_eq!(sender_step(&line("ex it")), SenderAction::Send(text("ex it")));
    assert_eq!(sender_step(&line("please exit")), SenderAction::Send(text("please exit")));
}

#[test]
fn sender_stops_when_a_send_fails() {
    assert_eq!(sender_step(&SenderEvent::SendFailed), SenderAction::Stop);
}

#[test]
fn scripted_sender_sends_up_to_exit() {
    let script = vec![line("hello\n"), line(" second \n"), line("Exit\n"), line("after\n")];
    assert_eq!(run_sender(&script), vec![text("hello"), text("second")]);
}

#[test]
fn scripted_sender_without_exit_sends_everything() {
    let script = vec![line("a\n"), line("exitt\n"), line("\n")];
    assert_eq!(run_sender(&script), vec![text("a"), text("exitt"), text("")]);
}

#[test]
fn scripted_sender_stops_at_a_failed_send() {
    let script = vec![line("a\n"), SenderEvent::SendFailed, line("b\n")];
    assert_eq!(run_sender(&script), vec![text("a")]);
}

#[test]
fn scripted_sender_with_an_empty_script() {
    assert_eq!(run_sender(&vec![]), Vec::<Frame>::new());
    assert_eq!(run_sender(&vec![line("exit")]), Vec::<Frame>::new());
}
