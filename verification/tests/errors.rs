use hiven::{CloseReason, Error, Frame};
use tokio::sync::mpsc::error::SendError;

#[test]
fn expectation_failed_keeps_what_was_due_and_the_debug_text_of_what_came() {
    let error = Error::expectation_failed("Hello", 'x');
    assert_eq!(error, Error::ExpectationFailed("Hello", String::from("'x'")));
    let error = Error::expectation_failed("Hello", "x");
    assert_eq!(error, Error::ExpectationFailed("Hello", String::from("\"x\"")));
    let error = Error::expectation_failed("event", Frame::Hello { heartbeat_interval: 7 });
    assert_eq!(
        error,
        Error::ExpectationFailed("event", String::from("Hello { heartbeat_interval: 7 }"))
    );
    let error = Error::expectation_failed("text or close", Some(5u8));
    assert_eq!(error, Error::ExpectationFailed("text or close", format!("{:?}", Some(5u8))));
}

#[test]
fn expected_keeps_both_texts_as_given() {
    let error = Error::expected("Hello", String::from("Event"));
    assert_eq!(error, Error::ExpectationFailed("Hello", String::from("Event")));
    let error = Error::expected("text or close", String::new());
    assert_eq!(error, Error::ExpectationFailed("text or close", String::new()));
}

#[test]
fn socket_close_keeps_the_reason() {
    let reason = CloseReason { code: 4000, reason: String::from("bye") };
    assert_eq!(
        Error::socket_close(Some(reason.clone())),
        Error::SocketClose(Some(reason))
    );
    assert_eq!(Error::socket_close(None), Error::SocketClose(None));
}

#[test]
fn send_error_carries_the_debug_text_of_the_channel_error() {
    let expected = Error::InternalChannelError(String::from("SendError { .. }"));
    assert_eq!(Error::send_error(SendError(7u8)), expected);
    assert_eq!(Error::send_error(SendError(Some(Frame::Heartbeat))), expected);
    assert_eq!(Error::send_error(SendError(String::from("item"))), expected);
}

#[test]
fn channel_error_converts_into_the_session_error() {
    let error: Error = SendError(Frame::Heartbeat).into();
    assert_eq!(error, Error::InternalChannelError(String::from("SendError { .. }")));
    let error = Error::from(SendError(()));
    assert_eq!(error, Error::InternalChannelError(format!("{:?}", SendError(()))));
}
