use jutella_xmpp::actor::{
    build_response, ChatbotHandler, CompletionOutcome, DeliverOutcome,
};
use jutella_xmpp::message::{RequestMessage, ResponseMessage};
use jutella_xmpp::queue::ChannelQueue;

fn success(text: &str, tokens_in: usize, tokens_out: usize) -> CompletionOutcome {
    CompletionOutcome::Success {
        response: text.to_string(),
        tokens_in,
        tokens_in_cached: None,
        tokens_out,
        tokens_reasoning: None,
    }
}

#[test]
fn successful_completion_becomes_the_reply() {
    let r = build_response(&"a@x".to_string(), success("hi", 5, 3));
    assert_eq!(
        r,
        ResponseMessage {
            jid: "a@x".to_string(),
            response: "hi".to_string(),
            tokens_in: 5,
            tokens_in_cached: None,
            tokens_out: 3,
            tokens_reasoning: None,
        }
    );
}

#[test]
fn failed_completion_becomes_marked_error_with_zero_tokens() {
    let r = build_response(
        &"a@x".to_string(),
        CompletionOutcome::ApiError { error: "timeout".to_string() },
    );
    assert_eq!(r.jid, "a@x");
    assert_eq!(r.response, "[ERROR] timeout");
    assert!(r.response.starts_with("[ERROR] "));
    assert!(r.response.contains("timeout"));
    assert_eq!(r.tokens_in, 0);
    assert_eq!(r.tokens_in_cached, None);
    assert_eq!(r.tokens_out, 0);
    assert_eq!(r.tokens_reasoning, None);
}

#[test]
fn actor_rejects_misrouted_request() {
    let handler = ChatbotHandler::new("a@x".to_string());
    let ours = RequestMessage { jid: "a@x".to_string(), request: "hi".to_string() };
    let misrouted = RequestMessage { jid: "b@y".to_string(), request: "hi".to_string() };
    assert!(handler.accepts(&ours));
    assert!(!handler.accepts(&misrouted));
}

#[test]
fn deliver_full_queue_logs_once_per_episode() {
    let mut handler = ChatbotHandler::new("a@x".to_string());
    let mut out: ChannelQueue<ResponseMessage> = ChannelQueue::new(1);
    assert_eq!(handler.deliver(success("one", 1, 1), &mut out), DeliverOutcome::Delivered);
    assert_eq!(
        handler.deliver(success("two", 1, 1), &mut out),
        DeliverOutcome::DroppedQueueFull { log: true }
    );
    assert_eq!(
        handler.deliver(success("three", 1, 1), &mut out),
        DeliverOutcome::DroppedQueueFull { log: false }
    );
    assert_eq!(out.len(), 1);
}

#[test]
fn deliver_closed_queue_is_fatal() {
    let mut handler = ChatbotHandler::new("a@x".to_string());
    let mut out: ChannelQueue<ResponseMessage> = ChannelQueue::new(4);
    out.close();
    assert_eq!(handler.deliver(success("one", 1, 1), &mut out), DeliverOutcome::ChannelClosed);
    assert_eq!(out.len(), 0);
}

#[test]
fn responses_leave_in_request_order() {
    let mut handler = ChatbotHandler::new("a@x".to_string());
    let mut requests: ChannelQueue<RequestMessage> = ChannelQueue::new(8);
    let mut out: ChannelQueue<ResponseMessage> = ChannelQueue::new(8);
    for text in ["first", "second", "third"] {
        requests.try_send(RequestMessage {
            jid: "a@x".to_string(),
            request: text.to_string(),
        });
    }
    let outcomes = vec![
        success("reply one", 1, 1),
        CompletionOutcome::ApiError { error: "timeout".to_string() },
        success("reply three", 3, 3),
    ];
    handler.process_pending(&mut requests, outcomes, &mut out);

    assert_eq!(requests.len(), 0);
    assert_eq!(out.try_recv().unwrap().response, "reply one");
    assert_eq!(out.try_recv().unwrap().response, "[ERROR] timeout");
    assert_eq!(out.try_recv().unwrap().response, "reply three");
    assert_eq!(out.try_recv(), None);
}
