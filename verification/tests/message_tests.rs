use jutella_xmpp::message::{encrypted_notice, error_response, RequestMessage, ResponseMessage};

#[test]
fn error_reply_is_marker_plus_detail_with_zero_usage() {
    let r = error_response(&"a@x".to_string(), &"connection reset".to_string());
    assert_eq!(
        r,
        ResponseMessage {
            jid: "a@x".to_string(),
            response: "[ERROR] connection reset".to_string(),
            tokens_in: 0,
            tokens_in_cached: None,
            tokens_out: 0,
            tokens_reasoning: None,
        }
    );
}

#[test]
fn encrypted_notice_is_the_fixed_text() {
    assert_eq!(encrypted_notice(), "[ERROR] Encrypted messages are not supported");
}

#[test]
fn messages_compare_by_value() {
    let a = RequestMessage { jid: "a@x".to_string(), request: "hi".to_string() };
    let b = a.clone();
    assert_eq!(a, b);
}
