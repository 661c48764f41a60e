//! The trusted accessors over the transport library's parsing types,
//! exercised through `decode_message` on real stanzas.

use jutella_xmpp::inbound::decode_message;
use xmpp_parsers::jid::Jid;
use xmpp_parsers::message::{Id, Lang, Message, MessageType};
use xmpp_parsers::minidom::Element;

fn chat_message(from: &str, body: &str) -> Message {
    let mut m = Message::new(None);
    m.from = Some(Jid::new(from).unwrap());
    m.type_ = MessageType::Chat;
    m.bodies.insert(Lang(String::new()), body.to_string());
    m
}

#[test]
fn decodes_sender_body_and_kind() {
    let m = chat_message("a@x/phone", "hello");
    let decoded = decode_message(&m);
    // The full address is reduced to the normalized bare address.
    assert_eq!(decoded.sender, Some("a@x".to_string()));
    assert!(decoded.is_chat);
    assert_eq!(decoded.body, Some("hello".to_string()));
    assert_eq!(decoded.id, None);
    assert!(!decoded.encrypted);
}

#[test]
fn decodes_receipt_id() {
    let mut m = chat_message("a@x", "hello");
    m.id = Some(Id("m1".to_string()));
    let decoded = decode_message(&m);
    assert_eq!(decoded.id, Some("m1".to_string()));
}

#[test]
fn detects_encrypted_payload() {
    let mut m = chat_message("a@x", "fallback");
    m.payloads.push(Element::builder("encrypted", "urn:xmpp:omemo:2").build());
    let decoded = decode_message(&m);
    assert!(decoded.encrypted);
}

#[test]
fn non_chat_and_missing_fields_decode_faithfully() {
    let mut m = Message::new(None);
    m.type_ = MessageType::Groupchat;
    let decoded = decode_message(&m);
    assert_eq!(decoded.sender, None);
    assert!(!decoded.is_chat);
    assert_eq!(decoded.body, None);

    // A body under a language tag is not the untagged text body.
    let mut m = chat_message("a@x", "hello");
    m.bodies.clear();
    m.bodies.insert(Lang("en".to_string()), "hello".to_string());
    let decoded = decode_message(&m);
    assert_eq!(decoded.body, None);
}
