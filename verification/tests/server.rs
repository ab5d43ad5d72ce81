use github_dev_app::server::{CallbackChannel, CallbackResponse};

#[test]
fn sends_code_to_channel() {
    let mut channel = CallbackChannel::new();

    let response = channel.handle_request(Some("otters-are-the-cutest".to_string()));

    assert_eq!(CallbackResponse::Accepted, response);
    assert_eq!(Some("otters-are-the-cutest".to_string()), channel.take_code());
}

#[test]
fn request_without_code_is_rejected_and_delivers_nothing() {
    let mut channel = CallbackChannel::new();

    let response = channel.handle_request(None);

    assert_eq!(CallbackResponse::MissingCode, response);
    assert_eq!(None, channel.take_code());
}

#[test]
fn request_with_empty_code_is_rejected_and_delivers_nothing() {
    let mut channel = CallbackChannel::new();

    let response = channel.handle_request(Some(String::new()));

    assert_eq!(CallbackResponse::MissingCode, response);
    assert_eq!(None, channel.take_code());
}

#[test]
fn listener_keeps_waiting_after_a_rejected_request() {
    let mut channel = CallbackChannel::new();

    assert_eq!(CallbackResponse::MissingCode, channel.handle_request(None));
    assert_eq!(
        CallbackResponse::Accepted,
        channel.handle_request(Some("abc123".to_string()))
    );
    assert_eq!(Some("abc123".to_string()), channel.take_code());
}

#[test]
fn second_code_does_not_overwrite_the_first() {
    let mut channel = CallbackChannel::new();

    assert_eq!(
        CallbackResponse::Accepted,
        channel.handle_request(Some("abc123".to_string()))
    );
    assert_eq!(
        CallbackResponse::AlreadyDelivered,
        channel.handle_request(Some("later".to_string()))
    );
    assert_eq!(Some("abc123".to_string()), channel.take_code());
}

#[test]
fn code_is_taken_at_most_once() {
    let mut channel = CallbackChannel::new();

    channel.handle_request(Some("abc123".to_string()));

    assert_eq!(Some("abc123".to_string()), channel.take_code());
    assert_eq!(None, channel.take_code());
}

#[test]
fn code_arriving_after_consumption_is_rejected() {
    let mut channel = CallbackChannel::new();

    channel.handle_request(Some("abc123".to_string()));
    channel.take_code();

    assert_eq!(
        CallbackResponse::AlreadyDelivered,
        channel.handle_request(Some("later".to_string()))
    );
    assert_eq!(None, channel.take_code());
}

#[test]
fn response_statuses() {
    assert_eq!(200, CallbackChannel::response_status(CallbackResponse::Accepted));
    assert_eq!(400, CallbackChannel::response_status(CallbackResponse::MissingCode));
    assert_eq!(409, CallbackChannel::response_status(CallbackResponse::AlreadyDelivered));
}
