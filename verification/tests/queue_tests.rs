use jutella_xmpp::queue::{ChannelQueue, SendOutcome};

#[test]
fn accepts_until_capacity_then_drops() {
    let mut q: ChannelQueue<u32> = ChannelQueue::new(2);
    assert_eq!(q.len(), 0);
    assert_eq!(q.try_send(1), SendOutcome::Sent);
    assert_eq!(q.try_send(2), SendOutcome::Sent);
    assert_eq!(q.len(), 2);
    assert_eq!(q.try_send(3), SendOutcome::Full);
    assert_eq!(q.len(), 2);
}

#[test]
fn delivers_in_acceptance_order() {
    let mut q: ChannelQueue<u32> = ChannelQueue::new(8);
    q.try_send(10);
    q.try_send(20);
    q.try_send(30);
    assert_eq!(q.try_recv(), Some(10));
    assert_eq!(q.try_recv(), Some(20));
    q.try_send(40);
    assert_eq!(q.try_recv(), Some(30));
    assert_eq!(q.try_recv(), Some(40));
    assert_eq!(q.try_recv(), None);
}

#[test]
fn closed_queue_refuses_items() {
    let mut q: ChannelQueue<u32> = ChannelQueue::new(2);
    assert_eq!(q.try_send(1), SendOutcome::Sent);
    q.close();
    assert_eq!(q.try_send(2), SendOutcome::Closed);
    assert_eq!(q.len(), 1);
    assert_eq!(q.try_recv(), Some(1));
}

#[test]
fn empty_queue_yields_nothing() {
    let mut q: ChannelQueue<String> = ChannelQueue::new(1);
    assert_eq!(q.try_recv(), None);
    assert_eq!(q.len(), 0);
}
