//! The transport session state machine.
//!
//! The session owns the single transport connection's liveness state.  It
//! classifies inbound transport events into routable chat requests and
//! non-chat noise, delivers responses back as chat messages while online,
//! keeps the connection alive with periodic presence, and layers the
//! debounced composing indicator on top of the raw message stream.  Every
//! step returns the outward effects to perform as a list of [`Action`]
//! values; the asynchronous driver performs them and hands back the next
//! event.

use crate::engine::contains_jid;
use crate::inbound::{is_valid_bare_jid, jid_valid, InboundMessage};
use crate::message::{encrypted_notice, encrypted_notice_text, RequestMessage, ResponseMessage};
use crate::queue::{ChannelQueue, SendOutcome};
use vstd::prelude::*;

verus! {

/// Bound of the response queue from the engine back to the session.
pub const RESPONSES_CHANNEL_SIZE: usize = 1024;

/// A chat-state signal shown to a peer.
#[derive(Debug, Clone, Copy, PartialEq, Eq, Structural)]
pub enum ChatState {
    /// "Not typing": clears a composing indicator.
    Active,
    /// "A reply is being prepared."
    Composing,
}

/// One outward effect the session asks its driver to perform, in order.
#[derive(Debug, Clone, PartialEq, Eq)]
pub enum Action {
    /// Broadcast an "available" presence on the connection.
    SendPresenceAvailable,
    /// Pre-approve the presence subscription of this peer.
    PreApprovePresence { jid: String },
    /// Send a chat-state signal to this peer.
    SendChatState { jid: String, state: ChatState },
    /// Send a chat message with this body to this peer.
    SendChatMessage { jid: String, body: String },
    /// Acknowledge receipt of the peer's message with this identifier.
    SendDisplayedMarker { jid: String, id: String },
    /// Start the debounced composing-indicator timer for this peer.
    ScheduleComposing { jid: String },
    /// Cancel the pending composing-indicator timer for this peer.
    CancelComposing { jid: String },
    /// Wait the fixed reconnect delay, then open a fresh connection.
    SleepAndReconnect,
}

/// Why an inbound message is routed or dropped.
#[derive(Debug, Clone, Copy, PartialEq, Eq, Structural)]
pub enum Classification {
    /// The stanza names no sender.
    NoSender,
    /// The sender is not in the allow-list.
    NotAllowed,
    /// Not a "chat"-typed message.
    NotChat,
    /// No non-empty text body.
    NoBody,
    /// An encrypted payload: answered with the fixed notice.
    EncryptedPayload,
    /// A routable chat request.
    Routable,
}

/// What the session did with an inbound message.
#[derive(Debug, Clone, Copy, PartialEq, Eq, Structural)]
pub enum InboundOutcome {
    /// Dropped as non-routable noise, for the stated reason.
    Ignored(Classification),
    /// An encrypted payload was answered immediately with the fixed
    /// notice, without entering the pipeline.
    NoticeSent,
    /// The request entered the pipeline.
    Accepted,
    /// The request queue is full: the request is dropped, and `log` asks
    /// for the one log event of this saturation episode.
    DroppedFull { log: bool },
    /// The request queue is closed: a fatal wiring fault.
    ChannelClosed,
}

/// How an inbound message is classified: routed to the pipeline only if the
/// sender is allow-listed, the message is "chat"-typed and carries a
/// non-empty text body; encrypted payloads are answered with a fixed
/// notice; everything else is dropped as noise.
pub open spec fn spec_classify(allowed: Seq<String>, m: InboundMessage) -> Classification {
    match m.sender {
        None => Classification::NoSender,
        Some(sender) => {
            if !contains_jid(allowed, sender@) {
                Classification::NotAllowed
            } else if !m.is_chat {
                Classification::NotChat
            } else {
                match m.body {
                    None => Classification::NoBody,
                    Some(body) => {
                        if body@.len() == 0 {
                            Classification::NoBody
                        } else if m.encrypted {
                            Classification::EncryptedPayload
                        } else {
                            Classification::Routable
                        }
                    },
                }
            }
        },
    }
}

/// Presence pre-approvals issued on connect: one per allow-listed peer
/// whose address is valid, in allow-list order.
pub open spec fn preapprove_actions(users: Seq<String>) -> Seq<Action>
    decreases users.len(),
{
    if users.len() == 0 {
        Seq::empty()
    } else if jid_valid(users.last()@) {
        preapprove_actions(users.drop_last()).push(
            Action::PreApprovePresence { jid: users.last() },
        )
    } else {
        preapprove_actions(users.drop_last())
    }
}

/// "Active" chat-state broadcast issued on connect to clear stale
/// composing indicators: one per allow-listed peer with a valid address.
pub open spec fn active_broadcast_actions(users: Seq<String>) -> Seq<Action>
    decreases users.len(),
{
    if users.len() == 0 {
        Seq::empty()
    } else if jid_valid(users.last()@) {
        active_broadcast_actions(users.drop_last()).push(
            Action::SendChatState { jid: users.last(), state: ChatState::Active },
        )
    } else {
        active_broadcast_actions(users.drop_last())
    }
}

/// Everything issued on entering the online state: pre-approvals, one
/// "available" presence, and the "active" broadcast.
pub open spec fn connect_actions(users: Seq<String>) -> Seq<Action> {
    preapprove_actions(users) + seq![Action::SendPresenceAvailable] + active_broadcast_actions(
        users,
    )
}

/// No two entries of `users` are the same address.
pub open spec fn distinct_jids(users: Seq<String>) -> bool {
    forall|i: int, j: int|
        0 <= i < j < users.len() ==> (#[trigger] users[i]@) != (#[trigger] users[j]@)
}

/// The transport session: connection liveness, the allow-list it
/// classifies against, the set of peers with a pending composing
/// indicator, and the sticky "request queue saturation logged" flag.
pub struct Xmpp {
    allowed: Vec<String>,
    online: bool,
    pending_composing: Vec<String>,
    clogged_engine: bool,
}

impl Xmpp {
    /// The allow-list fixed at startup.
    pub closed spec fn allowed_users(&self) -> Seq<String> {
        self.allowed@
    }

    /// Whether the transport connection is up.
    pub closed spec fn online(&self) -> bool {
        self.online
    }

    /// Peers with a scheduled, not yet fired or canceled, composing
    /// indicator.
    pub closed spec fn pending(&self) -> Seq<String> {
        self.pending_composing@
    }

    /// Whether the one saturation log event was already emitted.
    pub closed spec fn clogged(&self) -> bool {
        self.clogged_engine
    }

    /// Whether this peer has a pending composing indicator.
    pub open spec fn has_pending(&self, jid: Seq<char>) -> bool {
        contains_jid(self.pending(), jid)
    }

    /// At most one pending composing indicator per peer.
    pub open spec fn inv(&self) -> bool {
        distinct_jids(self.pending())
    }

    /// The state after the connect transition: online, nothing else
    /// touched.
    pub closed spec fn spec_connected(s: Xmpp) -> Xmpp {
        Xmpp { online: true, ..s }
    }

    /// The state after the disconnect transition: offline, nothing else
    /// touched.
    pub closed spec fn spec_disconnected(s: Xmpp) -> Xmpp {
        Xmpp { online: false, ..s }
    }

    /// A fresh session: offline, no pending indicators.
    pub fn new(allowed_users: Vec<String>) -> (x: Self)
        ensures
            x.inv(),
            x.allowed_users() == allowed_users@,
            !x.online(),
            x.pending() == Seq::<String>::empty(),
            !x.clogged(),
    {
        Xmpp { allowed: allowed_users, online: false, pending_composing: Vec::new(), clogged_engine: false }
    }

    /// Whether the connection is up; outbound delivery and keep-alive are
    /// gated on this.
    pub fn is_online(&self) -> (b: bool)
        ensures
            b == self.online(),
    {
        self.online
    }

    /// Whether the allow-list holds this jid.
    fn allows(&self, jid: &String) -> (b: bool)
        ensures
            b == contains_jid(self.allowed_users(), jid@),
    {
        let n = self.allowed.len();
        for i in 0..n
            invariant
                n == self.allowed_users().len(),
                forall|k: int| 0 <= k < i ==> (#[trigger] self.allowed_users()[k]@) != jid@,
        {
            if self.allowed[i] == *jid {
                return true;
            }
        }
        false
    }

    /// Classifies one inbound message against the allow-list.
    pub fn classify(&self, m: &InboundMessage) -> (c: Classification)
        ensures
            c == spec_classify(self.allowed_users(), *m),
    {
        match &m.sender {
            None => Classification::NoSender,
            Some(sender) => {
                if !self.allows(sender) {
                    Classification::NotAllowed
                } else if !m.is_chat {
                    Classification::NotChat
                } else {
                    match &m.body {
                        None => Classification::NoBody,
                        Some(body) => {
                            if body.as_str().is_empty() {
                                Classification::NoBody
                            } else if m.encrypted {
                                Classification::EncryptedPayload
                            } else {
                                Classification::Routable
                            }
                        },
                    }
                }
            },
        }
    }

    /// Index of this jid in the pending set, if present.
    fn find_pending(&self, jid: &String) -> (r: Option<usize>)
        ensures
            match r {
                Some(i) => i < self.pending().len() && self.pending()[i as int]@ == jid@,
                None => !contains_jid(self.pending(), jid@),
            },
    {
        let n = self.pending_composing.len();
        for i in 0..n
            invariant
                n == self.pending().len(),
                forall|k: int| 0 <= k < i ==> (#[trigger] self.pending()[k]@) != jid@,
        {
            if self.pending_composing[i] == *jid {
                return Some(i);
            }
        }
        None
    }

    /// Adds a peer to the pending-composing set; present stays present.
    fn insert_pending(&mut self, jid: &String)
        requires
            old(self).inv(),
        ensures
            final(self).inv(),
            final(self).allowed_users() == old(self).allowed_users(),
            final(self).online() == old(self).online(),
            final(self).clogged() == old(self).clogged(),
            final(self).has_pending(jid@),
            forall|j: Seq<char>|
                j != jid@ ==> contains_jid(final(self).pending(), j) == contains_jid(
                    old(self).pending(),
                    j,
                ),
    {
        match self.find_pending(jid) {
            Some(_) => {
            },
            None => {
                self.pending_composing.push(jid.clone());
                proof {
                    let post = self.pending();
                    let pre = old(self).pending();
                    assert(post.last()@ == jid@);
                    assert(post.drop_last() =~= pre);
                    assert(contains_jid(post, jid@)) by {
                        assert(post[post.len() - 1]@ == jid@);
                    }
                    assert forall|k: int| 0 <= k < pre.len() implies (#[trigger] pre[k]@)
                        != jid@ by {
                        if pre[k]@ == jid@ {
                            assert(contains_jid(pre, jid@));
                        }
                    }
                    assert forall|a: int, b: int|
                        0 <= a < b < post.len() implies (#[trigger] post[a]@) != (
                    #[trigger] post[b]@) by {
                        if b < post.len() - 1 {
                            assert(pre[a]@ != pre[b]@);
                        } else {
                            assert(pre[a]@ != jid@);
                        }
                    }
                    assert forall|j: Seq<char>| j != jid@ implies contains_jid(post, j)
                        == contains_jid(pre, j) by {
                        if contains_jid(pre, j) {
                            let k = choose|k: int| 0 <= k < pre.len() && pre[k]@ == j;
                            assert(post[k]@ == j);
                        }
                        if contains_jid(post, j) {
                            let k = choose|k: int| 0 <= k < post.len() && post[k]@ == j;
                            assert(k < post.len() - 1 ==> pre[k]@ == j);
                        }
                    }
                }
            },
        }
    }

    /// Removes a peer from the pending-composing set, reporting whether it
    /// was there.
    fn remove_pending(&mut self, jid: &String) -> (was: bool)
        requires
            old(self).inv(),
        ensures
            final(self).inv(),
            final(self).allowed_users() == old(self).allowed_users(),
            final(self).online() == old(self).online(),
            final(self).clogged() == old(self).clogged(),
            was == old(self).has_pending(jid@),
            !final(self).has_pending(jid@),
            !old(self).has_pending(jid@) ==> *final(self) == *old(self),
            forall|j: Seq<char>|
                j != jid@ ==> contains_jid(final(self).pending(), j) == contains_jid(
                    old(self).pending(),
                    j,
                ),
    {
        match self.find_pending(jid) {
            Some(i) => {
                self.pending_composing.remove(i);
                proof {
                    let post = self.pending();
                    let pre = old(self).pending();
                    assert(pre[i as int]@ == jid@);
                    assert(contains_jid(pre, jid@));
                    assert forall|k: int| 0 <= k < pre.len() && k != i as int implies (
                    #[trigger] pre[k]@) != jid@ by {
                        if k < i as int {
                            assert(pre[k]@ != pre[i as int]@);
                        } else {
                            assert(pre[i as int]@ != pre[k]@);
                        }
                    }
                    assert(!contains_jid(post, jid@)) by {
                        if contains_jid(post, jid@) {
                            let k = choose|k: int| 0 <= k < post.len() && post[k]@ == jid@;
                            if k < i as int {
                                assert(pre[k]@ == jid@);
                            } else {
                                assert(pre[k + 1]@ == jid@);
                            }
                        }
                    }
                    assert forall|a: int, b: int|
                        0 <= a < b < post.len() implies (#[trigger] post[a]@) != (
                    #[trigger] post[b]@) by {
                        if b < i as int {
                            assert(pre[a]@ != pre[b]@);
                        } else if a < i as int {
                            assert(pre[a]@ != pre[b + 1]@);
                        } else {
                            assert(pre[a + 1]@ != pre[b + 1]@);
                        }
                    }
                    assert forall|j: Seq<char>| j != jid@ implies contains_jid(post, j)
                        == contains_jid(pre, j) by {
                        if contains_jid(pre, j) {
                            let k = choose|k: int| 0 <= k < pre.len() && pre[k]@ == j;
                            if k < i as int {
                                assert(post[k]@ == j);
                            } else {
                                assert(post[k - 1]@ == j);
                            }
                        }
                        if contains_jid(post, j) {
                            let k = choose|k: int| 0 <= k < post.len() && post[k]@ == j;
                            if k < i as int {
                                assert(pre[k]@ == j);
                            } else {
                                assert(pre[k + 1]@ == j);
                            }
                        }
                    }
                }
                true
            },
            None => false,
        }
    }

    /// The connect transition: pre-approve every allow-listed peer's
    /// presence subscription, broadcast an "available" presence, and
    /// re-broadcast an "active" chat-state for every peer to clear stale
    /// composing indicators from a prior crash.
    #[verifier::loop_isolation(false)]
    pub fn on_connected(&mut self) -> (acts: Vec<Action>)
        requires
            old(self).inv(),
        ensures
            final(self).inv(),
            *final(self) == Self::spec_connected(*old(self)),
            final(self).online(),
            acts@ == connect_actions(old(self).allowed_users()),
    {
        self.online = true;
        let mut acts: Vec<Action> = Vec::new();
        let n = self.allowed.len();
        for i in 0..n
            invariant
                acts@ == preapprove_actions(self.allowed_users().take(i as int)),
        {
            let ghost prefix = self.allowed_users().take(i as int);
            if is_valid_bare_jid(self.allowed[i].as_str()) {
                acts.push(Action::PreApprovePresence { jid: self.allowed[i].clone() });
            }
            proof {
                let ghost ext = self.allowed_users().take(i + 1);
                assert(ext.drop_last() =~= prefix);
                assert(ext.last() == self.allowed_users()[i as int]);
            }
        }
        proof {
            assert(self.allowed_users().take(n as int) =~= self.allowed_users());
        }
        acts.push(Action::SendPresenceAvailable);
        let ghost mid = acts@;
        for i in 0..n
            invariant
                acts@ == mid + active_broadcast_actions(self.allowed_users().take(i as int)),
        {
            let ghost prefix = self.allowed_users().take(i as int);
            if is_valid_bare_jid(self.allowed[i].as_str()) {
                acts.push(
                    Action::SendChatState {
                        jid: self.allowed[i].clone(),
                        state: ChatState::Active,
                    },
                );
            }
            proof {
                let ghost ext = self.allowed_users().take(i + 1);
                assert(ext.drop_last() =~= prefix);
                assert(ext.last() == self.allowed_users()[i as int]);
                assert(acts@ =~= mid + active_broadcast_actions(ext));
            }
        }
        proof {
            assert(acts@ =~= connect_actions(old(self).allowed_users()));
        }
        acts
    }

    /// The disconnect transition: go offline, log the transition only if
    /// it is one (not on every failed attempt while already offline), and
    /// reconnect after the fixed delay instead of spinning.
    pub fn on_disconnected(&mut self) -> (r: (bool, Vec<Action>))
        requires
            old(self).inv(),
        ensures
            final(self).inv(),
            *final(self) == Self::spec_disconnected(*old(self)),
            !final(self).online(),
            r.0 == old(self).online(),
            r.1@ == seq![Action::SleepAndReconnect],
    {
        let log = self.online;
        self.online = false;
        let mut acts: Vec<Action> = Vec::new();
        acts.push(Action::SleepAndReconnect);
        proof {
            assert(acts@ =~= seq![Action::SleepAndReconnect]);
        }
        (log, acts)
    }

    /// Law: the connect transition is idempotent.  Issuing it again leaves
    /// the session state exactly as after the first time, and asks for the
    /// identical notifications (one set per call), since they depend on
    /// the immutable allow-list alone.
    pub proof fn lemma_connect_idempotent(s: Xmpp)
        ensures
            Self::spec_connected(Self::spec_connected(s)) == Self::spec_connected(s),
            connect_actions(Self::spec_connected(s).allowed_users()) == connect_actions(
                s.allowed_users(),
            ),
    {
    }

    /// The keep-alive tick: re-send the "available" presence while online,
    /// doubling as a liveness probe; nothing while offline.
    pub fn on_presence_tick(&self) -> (acts: Vec<Action>)
        ensures
            self.online() ==> acts@ == seq![Action::SendPresenceAvailable],
            !self.online() ==> acts@ == Seq::<Action>::empty(),
    {
        let mut acts: Vec<Action> = Vec::new();
        if self.online {
            acts.push(Action::SendPresenceAvailable);
            proof {
                assert(acts@ =~= seq![Action::SendPresenceAvailable]);
            }
        }
        acts
    }

    /// A composing-indicator timer fired: emit the "composing" chat-state
    /// if the peer's indicator was still pending, and clear it.
    pub fn on_composing_fired(&mut self, jid: &String) -> (acts: Vec<Action>)
        requires
            old(self).inv(),
        ensures
            final(self).inv(),
            final(self).allowed_users() == old(self).allowed_users(),
            final(self).online() == old(self).online(),
            final(self).clogged() == old(self).clogged(),
            !final(self).has_pending(jid@),
            forall|j: Seq<char>|
                j != jid@ ==> contains_jid(final(self).pending(), j) == contains_jid(
                    old(self).pending(),
                    j,
                ),
            old(self).has_pending(jid@) ==> acts@.len() == 1 && (match acts@[0] {
                Action::SendChatState { jid: to, state } => to@ == jid@ && state
                    == ChatState::Composing,
                _ => false,
            }),
            !old(self).has_pending(jid@) ==> *final(self) == *old(self) && acts@
                == Seq::<Action>::empty(),
    {
        let was = self.remove_pending(jid);
        let mut acts: Vec<Action> = Vec::new();
        if was {
            acts.push(Action::SendChatState { jid: jid.clone(), state: ChatState::Composing });
        }
        acts
    }

    /// Delivers one response: cancel the peer's still-pending composing
    /// indicator, emit an "active" chat-state, then send the response text
    /// as a chat message.  A response whose address does not parse is a
    /// routing bug and produces no actions.
    pub fn on_response(&mut self, resp: &ResponseMessage) -> (r: (bool, Vec<Action>))
        requires
            old(self).inv(),
        ensures
            final(self).inv(),
            final(self).allowed_users() == old(self).allowed_users(),
            final(self).online() == old(self).online(),
            final(self).clogged() == old(self).clogged(),
            r.0 == jid_valid(resp.jid@),
            !jid_valid(resp.jid@) ==> *final(self) == *old(self) && r.1@ == Seq::<
                Action,
            >::empty(),
            jid_valid(resp.jid@) ==> !final(self).has_pending(resp.jid@) && (forall|j: Seq<char>|
                j != resp.jid@ ==> contains_jid(final(self).pending(), j) == contains_jid(
                    old(self).pending(),
                    j,
                )) && r.1@.len() == 3 && (match r.1@[0] {
                Action::CancelComposing { jid } => jid@ == resp.jid@,
                _ => false,
            }) && (match r.1@[1] {
                Action::SendChatState { jid, state } => jid@ == resp.jid@ && state
                    == ChatState::Active,
                _ => false,
            }) && (match r.1@[2] {
                Action::SendChatMessage { jid, body } => jid@ == resp.jid@ && body@
                    == resp.response@,
                _ => false,
            }),
    {
        if !is_valid_bare_jid(resp.jid.as_str()) {
            return (false, Vec::new());
        }
        self.remove_pending(&resp.jid);
        let mut acts: Vec<Action> = Vec::new();
        acts.push(Action::CancelComposing { jid: resp.jid.clone() });
        acts.push(Action::SendChatState { jid: resp.jid.clone(), state: ChatState::Active });
        acts.push(Action::SendChatMessage { jid: resp.jid.clone(), body: resp.response.clone() });
        (true, acts)
    }

    /// Routes one inbound message: non-routable noise is dropped with its
    /// reason; an encrypted payload is answered immediately with the fixed
    /// notice, without entering the pipeline and without a composing
    /// indicator; a routable request enters the request queue by a
    /// non-blocking enqueue, scheduling the composing indicator and
    /// acknowledging a receipt-capable identifier on acceptance.
    pub fn on_inbound_message(
        &mut self,
        m: &InboundMessage,
        requests: &mut ChannelQueue<RequestMessage>,
    ) -> (r: (InboundOutcome, Vec<Action>))
        requires
            old(self).inv(),
            old(requests).wf(),
        ensures
            final(self).inv(),
            final(requests).wf(),
            final(requests).capacity() == old(requests).capacity(),
            final(requests).is_closed() == old(requests).is_closed(),
            final(self).allowed_users() == old(self).allowed_users(),
            final(self).online() == old(self).online(),
            ({
                let c = spec_classify(old(self).allowed_users(), *m);
                match c {
                    Classification::Routable => {
                        if old(requests).is_closed() {
                            r.0 == InboundOutcome::ChannelClosed && *final(self) == *old(self)
                                && *final(requests) == *old(requests) && r.1@ == Seq::<
                                Action,
                            >::empty()
                        } else if old(requests)@.len() == old(requests).capacity() {
                            r.0 == (InboundOutcome::DroppedFull { log: !old(self).clogged() })
                                && final(self).clogged() && final(self).pending() == old(self).pending() && *final(requests) == *old(requests) && r.1@ == Seq::<
                                Action,
                            >::empty()
                        } else {
                            &&& r.0 == InboundOutcome::Accepted
                            &&& final(self).clogged() == old(self).clogged()
                            &&& final(requests)@.len() == old(requests)@.len() + 1
                            &&& final(requests)@ == old(requests)@.push(final(requests)@.last())
                            &&& final(requests)@.last().jid@ == m.sender.unwrap()@
                            &&& final(requests)@.last().request@ == m.body.unwrap()@
                            &&& final(self).has_pending(m.sender.unwrap()@)
                            &&& forall|j: Seq<char>|
                                j != m.sender.unwrap()@ ==> contains_jid(
                                    final(self).pending(),
                                    j,
                                ) == contains_jid(old(self).pending(), j)
                            &&& (match m.id {
                                Some(_) => r.1@.len() == 2,
                                None => r.1@.len() == 1,
                            })
                            &&& (match r.1@[0] {
                                Action::ScheduleComposing { jid } => jid@ == m.sender.unwrap()@,
                                _ => false,
                            })
                            &&& (m.id is Some ==> (match r.1@[1] {
                                Action::SendDisplayedMarker { jid, id } => jid@
                                    == m.sender.unwrap()@ && id@ == m.id.unwrap()@,
                                _ => false,
                            }))
                        }
                    },
                    Classification::EncryptedPayload => {
                        &&& r.0 == InboundOutcome::NoticeSent
                        &&& *final(self) == *old(self)
                        &&& *final(requests) == *old(requests)
                        &&& r.1@.len() == 1
                        &&& (match r.1@[0] {
                            Action::SendChatMessage { jid, body } => jid@ == m.sender.unwrap()@
                                && body@ == encrypted_notice_text(),
                            _ => false,
                        })
                    },
                    _ => {
                        r.0 == InboundOutcome::Ignored(c) && *final(self) == *old(self) && *final(requests) == *old(requests) && r.1@ == Seq::<Action>::empty()
                    },
                }
            }),
    {
        let c = self.classify(m);
        match c {
            Classification::Routable => {
                let sender = match &m.sender {
                    Some(s) => s.clone(),
                    None => {
                        proof {
                            assert(false);
                        }
                        return (InboundOutcome::Ignored(c), Vec::new());
                    },
                };
                let body = match &m.body {
                    Some(b) => b.clone(),
                    None => {
                        proof {
                            assert(false);
                        }
                        return (InboundOutcome::Ignored(c), Vec::new());
                    },
                };
                let req = RequestMessage { jid: sender.clone(), request: body };
                match requests.try_send(req) {
                    SendOutcome::Sent => {
                        self.insert_pending(&sender);
                        let mut acts: Vec<Action> = Vec::new();
                        acts.push(Action::ScheduleComposing { jid: sender.clone() });
                        match &m.id {
                            Some(id) => {
                                acts.push(
                                    Action::SendDisplayedMarker { jid: sender, id: id.clone() },
                                );
                            },
                            None => {},
                        }
                        (InboundOutcome::Accepted, acts)
                    },
                    SendOutcome::Full => {
                        let log = !self.clogged_engine;
                        self.clogged_engine = true;
                        (InboundOutcome::DroppedFull { log }, Vec::new())
                    },
                    SendOutcome::Closed => (InboundOutcome::ChannelClosed, Vec::new()),
                }
            },
            Classification::EncryptedPayload => {
                let sender = match &m.sender {
                    Some(s) => s.clone(),
                    None => {
                        proof {
                            assert(false);
                        }
                        return (InboundOutcome::Ignored(c), Vec::new());
                    },
                };
                let mut acts: Vec<Action> = Vec::new();
                acts.push(Action::SendChatMessage { jid: sender, body: encrypted_notice() });
                (InboundOutcome::NoticeSent, acts)
            },
            _ => (InboundOutcome::Ignored(c), Vec::new()),
        }
    }
}

} // verus!
