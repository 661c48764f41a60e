//! The session-multiplexing engine.
//!
//! The engine owns the registry of per-peer conversation actors.  An actor
//! is created lazily on the first request from a newly seen, allow-listed
//! peer; traffic from any other identity is silently ignored.  Each actor
//! has one bounded request queue; a full queue drops the request and asks
//! for at most one log event per saturation episode per peer.

use crate::message::RequestMessage;
use crate::queue::{ChannelQueue, SendOutcome};
use vstd::prelude::*;

verus! {

/// Bound of each peer's request queue.
pub const REQUESTS_CHANNEL_SIZE: usize = 10;

/// Registry entry for one peer: its request queue and the sticky
/// "saturation already logged" flag, reset only by process lifetime.
pub struct PeerHandle {
    pub jid: String,
    pub queue: ChannelQueue<RequestMessage>,
    pub clog_logged: bool,
}

/// Outcome of initializing a peer's completion client, supplied by the
/// caller, which owns that external construction.
#[derive(Debug, Clone, Copy, PartialEq, Eq, Structural)]
pub enum ClientInit {
    /// The completion client for the new peer was constructed.
    Ready,
    /// Construction failed; the request is dropped and the next message
    /// from the same peer retries construction.
    Failed,
}

/// What [`ChatbotEngine::submit`] did with a request.
#[derive(Debug, Clone, Copy, PartialEq, Eq, Structural)]
pub enum SubmitOutcome {
    /// The sender is not allow-listed: no actor, no queue entry, no reply.
    RejectedNotAllowed,
    /// A new actor was needed but its completion client failed to
    /// initialize: the request is dropped, the engine carries on.
    RejectedInitFailed,
    /// The request sits at the back of the peer's queue; `new_actor` says
    /// whether the actor was created by this call.
    Enqueued { new_actor: bool },
    /// The peer's queue is full: the request is dropped, and `log` asks for
    /// the one log event of this saturation episode.
    DroppedQueueFull { log: bool },
    /// The peer's queue is closed: an actor ended unexpectedly, a run-level
    /// fault for the caller to propagate.
    ChannelClosed,
}

/// Whether one of `users` is this jid.
pub open spec fn contains_jid(users: Seq<String>, jid: Seq<char>) -> bool {
    exists|i: int| 0 <= i < users.len() && users[i]@ == jid
}

/// Whether one of the registry entries belongs to this jid.
pub open spec fn has_handle(peers: Seq<PeerHandle>, jid: Seq<char>) -> bool {
    exists|i: int| 0 <= i < peers.len() && peers[i].jid@ == jid
}

/// The session multiplexer: allow-list plus actor registry.
pub struct ChatbotEngine {
    allowed: Vec<String>,
    peers: Vec<PeerHandle>,
}

impl ChatbotEngine {
    /// The allow-list fixed at startup.
    pub closed spec fn allowed_users(&self) -> Seq<String> {
        self.allowed@
    }

    /// The actor registry, in order of creation.
    pub closed spec fn peers(&self) -> Seq<PeerHandle> {
        self.peers@
    }

    /// Whether `jid` is in the allow-list.
    pub open spec fn is_allowed(&self, jid: Seq<char>) -> bool {
        contains_jid(self.allowed_users(), jid)
    }

    /// Whether an actor exists for `jid`.
    pub open spec fn has_peer(&self, jid: Seq<char>) -> bool {
        has_handle(self.peers(), jid)
    }

    /// Registry invariant: at most one actor per peer, every registered
    /// peer is allow-listed, and every queue is well-formed with the fixed
    /// bound.
    pub open spec fn inv(&self) -> bool {
        &&& forall|i: int|
            0 <= i < self.peers().len() ==> (#[trigger] self.peers()[i]).queue.wf()
        &&& forall|i: int|
            0 <= i < self.peers().len() ==> (#[trigger] self.peers()[i]).queue.capacity()
                == REQUESTS_CHANNEL_SIZE
        &&& forall|i: int|
            0 <= i < self.peers().len() ==> self.is_allowed(#[trigger] self.peers()[i].jid@)
        &&& forall|i: int, j: int|
            0 <= i < j < self.peers().len() ==> (#[trigger] self.peers()[i].jid@) != (
            #[trigger] self.peers()[j].jid@)
    }

    /// A fresh engine: the given allow-list, no actors yet.
    pub fn new(allowed_users: Vec<String>) -> (e: Self)
        ensures
            e.inv(),
            e.allowed_users() == allowed_users@,
            e.peers() == Seq::<PeerHandle>::empty(),
    {
        ChatbotEngine { allowed: allowed_users, peers: Vec::new() }
    }

    /// Whether an actor exists for this peer.
    pub fn has_actor(&self, jid: &String) -> (b: bool)
        ensures
            b == self.has_peer(jid@),
    {
        match self.find_peer(jid) {
            Some(_) => true,
            None => false,
        }
    }

    /// Number of requests queued for this peer, or `None` if it has no
    /// actor.
    pub fn queued_requests(&self, jid: &String) -> (r: Option<usize>)
        ensures
            match r {
                Some(n) => exists|i: int|
                    0 <= i < self.peers().len() && self.peers()[i].jid@ == jid@ && n == (
                    #[trigger] self.peers()[i]).queue@.len(),
                None => !self.has_peer(jid@),
            },
    {
        match self.find_peer(jid) {
            Some(i) => Some(self.peers[i].queue.len()),
            None => None,
        }
    }

    /// Index of the peer's registry entry, if any.
    fn find_peer(&self, jid: &String) -> (r: Option<usize>)
        ensures
            match r {
                Some(i) => i < self.peers().len() && self.peers()[i as int].jid@ == jid@,
                None => !self.has_peer(jid@),
            },
    {
        let n = self.peers.len();
        for i in 0..n
            invariant
                n == self.peers().len(),
                forall|k: int| 0 <= k < i ==> (#[trigger] self.peers()[k].jid@) != jid@,
        {
            if self.peers[i].jid == *jid {
                return Some(i);
            }
        }
        None
    }

    /// Whether the allow-list holds this jid.
    fn allows(&self, jid: &String) -> (b: bool)
        ensures
            b == self.is_allowed(jid@),
    {
        let n = self.allowed.len();
        for i in 0..n
            invariant
                n == self.allowed_users().len(),
                forall|k: int| 0 <= k < i ==> (#[trigger] self.allowed_users()[k]@) != jid@,
        {
            if self.allowed[i] == *jid {
                return true;
            }
        }
        false
    }

    /// What `submit` does when the peer has no actor yet: an unlisted
    /// sender or a failed client construction changes nothing; otherwise
    /// one new actor stands at the back of the registry, its queue holding
    /// exactly the submitted request.
    pub open spec fn submit_spec_new_peer(
        pre: Self,
        post: Self,
        req: RequestMessage,
        init: ClientInit,
        r: SubmitOutcome,
    ) -> bool {
        if !pre.is_allowed(req.jid@) {
            r == SubmitOutcome::RejectedNotAllowed && post.peers() == pre.peers()
        } else if init == ClientInit::Failed {
            r == SubmitOutcome::RejectedInitFailed && post.peers() == pre.peers()
        } else {
            &&& r == (SubmitOutcome::Enqueued { new_actor: true })
            &&& post.peers().len() == pre.peers().len() + 1
            &&& forall|i: int| 0 <= i < pre.peers().len() ==> post.peers()[i] == pre.peers()[i]
            &&& post.peers().last().jid@ == req.jid@
            &&& post.peers().last().queue@ == seq![req]
            &&& !post.peers().last().queue.is_closed()
            &&& post.peers().last().clog_logged == false
        }
    }

    /// What `submit` does to the entry of a peer that already has an actor
    /// at index `i`: enqueue below the bound, drop on a full queue with at
    /// most one log event per saturation episode, and report a closed
    /// queue as a run-level fault.  No other entry is touched.
    pub open spec fn submit_spec_existing_peer(
        pre: Self,
        post: Self,
        req: RequestMessage,
        i: int,
        r: SubmitOutcome,
    ) -> bool {
        let before = pre.peers()[i];
        let after = post.peers()[i];
        &&& post.peers().len() == pre.peers().len()
        &&& forall|j: int|
            0 <= j < pre.peers().len() && j != i ==> post.peers()[j] == pre.peers()[j]
        &&& after.jid@ == before.jid@
        &&& if before.queue.is_closed() {
            r == SubmitOutcome::ChannelClosed && after == before
        } else if before.queue@.len() == before.queue.capacity() {
            &&& r == (SubmitOutcome::DroppedQueueFull { log: !before.clog_logged })
            &&& after.queue == before.queue
            &&& after.clog_logged == true
        } else {
            &&& r == (SubmitOutcome::Enqueued { new_actor: false })
            &&& after.queue@ == before.queue@.push(req)
            &&& after.queue.is_closed() == before.queue.is_closed()
            &&& after.queue.capacity() == before.queue.capacity()
            &&& after.clog_logged == before.clog_logged
        }
    }

    /// Routes one request: ignores unlisted senders, lazily creates the
    /// actor for a newly seen allow-listed peer (given that its completion
    /// client initialized), and performs the non-blocking enqueue with the
    /// drop-and-log-once-per-episode policy.
    pub fn submit(&mut self, req: RequestMessage, init: ClientInit) -> (r: SubmitOutcome)
        requires
            old(self).inv(),
        ensures
            final(self).inv(),
            final(self).allowed_users() == old(self).allowed_users(),
            !old(self).has_peer(req.jid@) ==> Self::submit_spec_new_peer(
                *old(self),
                *final(self),
                req,
                init,
                r,
            ),
            forall|i: int|
                0 <= i < old(self).peers().len() && (#[trigger] old(self).peers()[i].jid@)
                    == req.jid@ ==> Self::submit_spec_existing_peer(
                    *old(self),
                    *final(self),
                    req,
                    i,
                    r,
                ),
    {
        if !self.allows(&req.jid) {
            proof {
                self.lemma_unlisted_never_registered(req.jid@);
            }
            return SubmitOutcome::RejectedNotAllowed;
        }
        match self.find_peer(&req.jid) {
            None => {
                match init {
                    ClientInit::Failed => SubmitOutcome::RejectedInitFailed,
                    ClientInit::Ready => {
                        let jid = req.jid.clone();
                        let mut queue = ChannelQueue::new(REQUESTS_CHANNEL_SIZE);
                        let sent = queue.try_send(req);
                        proof {
                            assert(sent == SendOutcome::Sent);
                            assert(queue@ =~= seq![req]);
                            assert forall|k: int|
                                0 <= k < self.peers().len() implies (
                            #[trigger] self.peers()[k].jid@) != req.jid@ by {
                                if self.peers()[k].jid@ == req.jid@ {
                                    assert(self.has_peer(req.jid@));
                                }
                            }
                        }
                        self.peers.push(PeerHandle { jid, queue, clog_logged: false });
                        SubmitOutcome::Enqueued { new_actor: true }
                    },
                }
            },
            Some(i) => {
                proof {
                    assert(self.has_peer(req.jid@));
                    assert forall|k: int|
                        0 <= k < self.peers().len() && self.peers()[k].jid@ == req.jid@ implies k
                        == i as int by {
                        if k < i as int {
                            assert(self.peers()[k].jid@ != self.peers()[i as int].jid@);
                        }
                        if (i as int) < k {
                            assert(self.peers()[i as int].jid@ != self.peers()[k].jid@);
                        }
                    }
                }
                let entry = &mut self.peers[i];
                match entry.queue.try_send(req) {
                    SendOutcome::Sent => SubmitOutcome::Enqueued { new_actor: false },
                    SendOutcome::Full => {
                        let log = !entry.clog_logged;
                        entry.clog_logged = true;
                        SubmitOutcome::DroppedQueueFull { log }
                    },
                    SendOutcome::Closed => SubmitOutcome::ChannelClosed,
                }
            },
        }
    }

    /// Law: a saturation episode is logged exactly once, not once per
    /// dropped request.  Two submissions hit the same peer's full queue:
    /// both leave the queue as it is, the first asks for the one log event
    /// and sets the sticky flag, the second asks for none.
    pub proof fn lemma_saturation_logged_once(
        pre: Self,
        mid: Self,
        post: Self,
        req1: RequestMessage,
        req2: RequestMessage,
        i: int,
        r1: SubmitOutcome,
        r2: SubmitOutcome,
    )
        requires
            0 <= i < pre.peers().len(),
            pre.peers()[i].jid@ == req1.jid@,
            req2.jid@ == req1.jid@,
            !pre.peers()[i].clog_logged,
            !pre.peers()[i].queue.is_closed(),
            pre.peers()[i].queue@.len() == pre.peers()[i].queue.capacity(),
            Self::submit_spec_existing_peer(pre, mid, req1, i, r1),
            Self::submit_spec_existing_peer(mid, post, req2, i, r2),
        ensures
            r1 == (SubmitOutcome::DroppedQueueFull { log: true }),
            r2 == (SubmitOutcome::DroppedQueueFull { log: false }),
            post.peers()[i].queue == pre.peers()[i].queue,
    {
    }

    /// Law: a peer outside the allow-list never has an actor — the registry
    /// holds allow-listed peers only.
    pub proof fn lemma_unlisted_never_registered(&self, jid: Seq<char>)
        requires
            self.inv(),
            !self.is_allowed(jid),
        ensures
            !self.has_peer(jid),
    {
        assert forall|i: int| 0 <= i < self.peers().len() implies (#[trigger] self.peers()[i].jid@)
            != jid by {
            assert(self.is_allowed(self.peers()[i].jid@));
        }
    }
}

} // verus!
