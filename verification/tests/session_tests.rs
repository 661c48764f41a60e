use jutella_xmpp::inbound::InboundMessage;
use jutella_xmpp::message::{RequestMessage, ResponseMessage};
use jutella_xmpp::queue::ChannelQueue;
use jutella_xmpp::xmpp::{
    Action, ChatState, Classification, InboundOutcome, Xmpp, RESPONSES_CHANNEL_SIZE,
};

fn allowed() -> Vec<String> {
    vec!["a@x".to_string(), "b@y".to_string()]
}

fn chat(sender: &str, body: &str) -> InboundMessage {
    InboundMessage {
        sender: Some(sender.to_string()),
        is_chat: true,
        body: Some(body.to_string()),
        id: None,
        encrypted: false,
    }
}

fn response(jid: &str, text: &str) -> ResponseMessage {
    ResponseMessage {
        jid: jid.to_string(),
        response: text.to_string(),
        tokens_in: 5,
        tokens_in_cached: None,
        tokens_out: 3,
        tokens_reasoning: None,
    }
}

#[test]
fn responses_channel_is_bounded() {
    assert!(RESPONSES_CHANNEL_SIZE >= 1);
}

#[test]
fn starts_offline_with_nothing_pending() {
    let session = Xmpp::new(allowed());
    assert!(!session.is_online());
    assert_eq!(session.on_presence_tick(), Vec::<Action>::new());
}

#[test]
fn connect_preapproves_broadcasts_and_clears_stale_indicators() {
    let mut session = Xmpp::new(allowed());
    let acts = session.on_connected();
    assert!(session.is_online());
    assert_eq!(
        acts,
        vec![
            Action::PreApprovePresence { jid: "a@x".to_string() },
            Action::PreApprovePresence { jid: "b@y".to_string() },
            Action::SendPresenceAvailable,
            Action::SendChatState { jid: "a@x".to_string(), state: ChatState::Active },
            Action::SendChatState { jid: "b@y".to_string(), state: ChatState::Active },
        ]
    );
}

#[test]
fn connect_broadcast_is_idempotent() {
    let mut session = Xmpp::new(allowed());
    let first = session.on_connected();
    let second = session.on_connected();
    assert_eq!(first, second);
    assert!(session.is_online());
}

#[test]
fn connect_skips_invalid_addresses() {
    let mut session = Xmpp::new(vec!["not a jid".to_string(), "a@x".to_string()]);
    let acts = session.on_connected();
    assert_eq!(
        acts,
        vec![
            Action::PreApprovePresence { jid: "a@x".to_string() },
            Action::SendPresenceAvailable,
            Action::SendChatState { jid: "a@x".to_string(), state: ChatState::Active },
        ]
    );
}

#[test]
fn disconnect_logs_transition_once_and_backs_off() {
    let mut session = Xmpp::new(allowed());
    session.on_connected();
    let (log, acts) = session.on_disconnected();
    assert!(log);
    assert_eq!(acts, vec![Action::SleepAndReconnect]);
    assert!(!session.is_online());

    // A failed reconnection attempt while already offline is not logged again.
    let (log, acts) = session.on_disconnected();
    assert!(!log);
    assert_eq!(acts, vec![Action::SleepAndReconnect]);
}

#[test]
fn keep_alive_presence_only_while_online() {
    let mut session = Xmpp::new(allowed());
    session.on_connected();
    assert_eq!(session.on_presence_tick(), vec![Action::SendPresenceAvailable]);
    session.on_disconnected();
    assert_eq!(session.on_presence_tick(), Vec::<Action>::new());
}

#[test]
fn classification_table() {
    let session = Xmpp::new(allowed());
    assert_eq!(
        session.classify(&InboundMessage { sender: None, ..chat("a@x", "hi") }),
        Classification::NoSender
    );
    assert_eq!(session.classify(&chat("mallory@z", "hi")), Classification::NotAllowed);
    assert_eq!(
        session.classify(&InboundMessage { is_chat: false, ..chat("a@x", "hi") }),
        Classification::NotChat
    );
    assert_eq!(
        session.classify(&InboundMessage { body: None, ..chat("a@x", "hi") }),
        Classification::NoBody
    );
    assert_eq!(session.classify(&chat("a@x", "")), Classification::NoBody);
    assert_eq!(
        session.classify(&InboundMessage { encrypted: true, ..chat("a@x", "hi") }),
        Classification::EncryptedPayload
    );
    assert_eq!(session.classify(&chat("a@x", "hi")), Classification::Routable);
}

#[test]
fn accepted_request_schedules_composing_and_acknowledges_receipt() {
    let mut session = Xmpp::new(allowed());
    session.on_connected();
    let mut requests: ChannelQueue<RequestMessage> = ChannelQueue::new(4);
    let msg = InboundMessage { id: Some("m1".to_string()), ..chat("a@x", "hello") };
    let (outcome, acts) = session.on_inbound_message(&msg, &mut requests);
    assert_eq!(outcome, InboundOutcome::Accepted);
    assert_eq!(
        acts,
        vec![
            Action::ScheduleComposing { jid: "a@x".to_string() },
            Action::SendDisplayedMarker { jid: "a@x".to_string(), id: "m1".to_string() },
        ]
    );
    assert_eq!(
        requests.try_recv(),
        Some(RequestMessage { jid: "a@x".to_string(), request: "hello".to_string() })
    );
    assert_eq!(requests.try_recv(), None);
}

#[test]
fn full_request_queue_drops_and_logs_once() {
    let mut session = Xmpp::new(allowed());
    session.on_connected();
    let mut requests: ChannelQueue<RequestMessage> = ChannelQueue::new(1);
    session.on_inbound_message(&chat("a@x", "one"), &mut requests);
    let (outcome, acts) = session.on_inbound_message(&chat("a@x", "two"), &mut requests);
    assert_eq!(outcome, InboundOutcome::DroppedFull { log: true });
    assert_eq!(acts, Vec::<Action>::new());
    let (outcome, _) = session.on_inbound_message(&chat("b@y", "three"), &mut requests);
    assert_eq!(outcome, InboundOutcome::DroppedFull { log: false });
    assert_eq!(requests.len(), 1);
}

#[test]
fn closed_request_queue_is_fatal() {
    let mut session = Xmpp::new(allowed());
    session.on_connected();
    let mut requests: ChannelQueue<RequestMessage> = ChannelQueue::new(1);
    requests.close();
    let (outcome, acts) = session.on_inbound_message(&chat("a@x", "one"), &mut requests);
    assert_eq!(outcome, InboundOutcome::ChannelClosed);
    assert_eq!(acts, Vec::<Action>::new());
}

#[test]
fn response_cancels_composing_then_sends_active_and_message() {
    let mut session = Xmpp::new(allowed());
    session.on_connected();
    let mut requests: ChannelQueue<RequestMessage> = ChannelQueue::new(4);
    session.on_inbound_message(&chat("a@x", "hello"), &mut requests);

    let (ok, acts) = session.on_response(&response("a@x", "hi"));
    assert!(ok);
    assert_eq!(
        acts,
        vec![
            Action::CancelComposing { jid: "a@x".to_string() },
            Action::SendChatState { jid: "a@x".to_string(), state: ChatState::Active },
            Action::SendChatMessage { jid: "a@x".to_string(), body: "hi".to_string() },
        ]
    );

    // The composing indicator was canceled: a late timer fire emits nothing.
    assert_eq!(session.on_composing_fired(&"a@x".to_string()), Vec::<Action>::new());
}

#[test]
fn response_with_invalid_address_is_a_bug_and_does_nothing() {
    let mut session = Xmpp::new(allowed());
    session.on_connected();
    let (ok, acts) = session.on_response(&response("not a jid", "hi"));
    assert!(!ok);
    assert_eq!(acts, Vec::<Action>::new());
}

#[test]
fn composing_timer_fires_once_per_accepted_request() {
    let mut session = Xmpp::new(allowed());
    session.on_connected();
    let mut requests: ChannelQueue<RequestMessage> = ChannelQueue::new(4);
    session.on_inbound_message(&chat("a@x", "hello"), &mut requests);

    let acts = session.on_composing_fired(&"a@x".to_string());
    assert_eq!(
        acts,
        vec![Action::SendChatState { jid: "a@x".to_string(), state: ChatState::Composing }]
    );
    // Already fired and cleared: nothing more.
    assert_eq!(session.on_composing_fired(&"a@x".to_string()), Vec::<Action>::new());
}
