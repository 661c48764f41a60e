//! The per-peer conversation actor.
//!
//! An actor owns one conversation with one peer.  It consumes the peer's
//! requests strictly in the order they were queued, obtains one completion
//! outcome per request from the external completion client (the caller
//! performs that call and hands the outcome back), and delivers exactly one
//! reply per request onto the shared response queue.  A failed completion
//! call is recovered locally: the peer gets an in-band error reply with
//! zeroed token counts, and the actor carries on.

use crate::message::{
    error_response, opt_int, spec_error_response, RequestMessage, ResponseMessage, ResponseView,
};
use crate::queue::{ChannelQueue, SendOutcome};
use vstd::prelude::*;
use vstd::seq_lib::group_seq_properties;

verus! {

broadcast use group_seq_properties;

/// Result of one external completion call, handed back by the caller that
/// performed it.
#[derive(Debug, Clone, PartialEq, Eq)]
pub enum CompletionOutcome {
    /// The call succeeded with a reply and its token usage.
    Success {
        response: String,
        tokens_in: usize,
        tokens_in_cached: Option<usize>,
        tokens_out: usize,
        tokens_reasoning: Option<usize>,
    },
    /// The call failed with this error detail.
    ApiError { error: String },
}

/// The reply owed for one request, as a function of the peer and the
/// completion outcome alone: the reply text and its token usage on success,
/// the marked error text with zero token counts on failure.
pub open spec fn spec_response(jid: Seq<char>, outcome: CompletionOutcome) -> ResponseView {
    match outcome {
        CompletionOutcome::Success {
            response,
            tokens_in,
            tokens_in_cached,
            tokens_out,
            tokens_reasoning,
        } => ResponseView {
            jid: jid,
            response: response@,
            tokens_in: tokens_in as int,
            tokens_in_cached: opt_int(tokens_in_cached),
            tokens_out: tokens_out as int,
            tokens_reasoning: opt_int(tokens_reasoning),
        },
        CompletionOutcome::ApiError { error } => spec_error_response(jid, error@),
    }
}

/// Builds the one reply owed for a request of this peer.
pub fn build_response(jid: &String, outcome: CompletionOutcome) -> (r: ResponseMessage)
    ensures
        r@ == spec_response(jid@, outcome),
{
    match outcome {
        CompletionOutcome::Success {
            response,
            tokens_in,
            tokens_in_cached,
            tokens_out,
            tokens_reasoning,
        } => ResponseMessage {
            jid: jid.clone(),
            response,
            tokens_in,
            tokens_in_cached,
            tokens_out,
            tokens_reasoning,
        },
        CompletionOutcome::ApiError { error } => error_response(jid, &error),
    }
}

/// What [`ChatbotHandler::deliver`] did with the reply.
#[derive(Debug, Clone, Copy, PartialEq, Eq, Structural)]
pub enum DeliverOutcome {
    /// The reply sits at the back of the response queue.
    Delivered,
    /// The response queue is full: the reply is dropped, and `log` asks for
    /// the one log event of this saturation episode.
    DroppedQueueFull { log: bool },
    /// The response queue is closed: a wiring fault, fatal to the actor.
    ChannelClosed,
}

/// Conversation state of one actor: the peer it was constructed for and its
/// sticky "response queue saturation already logged" flag.
pub struct ChatbotHandler {
    jid: String,
    clogged: bool,
}

impl ChatbotHandler {
    /// The peer this actor was constructed for.
    pub closed spec fn jid(&self) -> Seq<char> {
        self.jid@
    }

    /// Whether a saturation log event was already emitted.
    pub closed spec fn clogged(&self) -> bool {
        self.clogged
    }

    /// A fresh actor bound to one peer.
    pub fn new(jid: String) -> (h: Self)
        ensures
            h.jid() == jid@,
            !h.clogged(),
    {
        ChatbotHandler { jid, clogged: false }
    }

    /// Defensive routing check: every request this actor receives must
    /// carry the identity it was constructed for; a mismatch is a routing
    /// bug upstream, fatal to the actor.
    pub fn accepts(&self, req: &RequestMessage) -> (b: bool)
        ensures
            b == (req.jid@ == self.jid()),
    {
        req.jid == self.jid
    }

    /// Delivers the one reply owed for a request, by a non-blocking enqueue
    /// on the shared response queue: drop and log at most once per
    /// saturation episode when full, a fatal wiring fault when closed.
    pub fn deliver(
        &mut self,
        outcome: CompletionOutcome,
        out: &mut ChannelQueue<ResponseMessage>,
    ) -> (r: DeliverOutcome)
        requires
            old(out).wf(),
        ensures
            final(out).wf(),
            final(out).capacity() == old(out).capacity(),
            final(out).is_closed() == old(out).is_closed(),
            final(self).jid() == old(self).jid(),
            old(out).is_closed() ==> r == DeliverOutcome::ChannelClosed && *final(out) == *old(out) && *final(self) == *old(self),
            !old(out).is_closed() && old(out)@.len() == old(out).capacity() ==> r
                == (DeliverOutcome::DroppedQueueFull { log: !old(self).clogged() }) && *final(out)
                == *old(out) && final(self).clogged(),
            !old(out).is_closed() && old(out)@.len() < old(out).capacity() ==> r
                == DeliverOutcome::Delivered && final(out)@.len() == old(out)@.len() + 1 && final(out)@ == old(out)@.push(final(out)@.last()) && final(out)@.last()@ == spec_response(
                old(self).jid(),
                outcome,
            ) && *final(self) == *old(self),
    {
        let response = build_response(&self.jid, outcome);
        match out.try_send(response) {
            SendOutcome::Sent => DeliverOutcome::Delivered,
            SendOutcome::Full => {
                let log = !self.clogged;
                self.clogged = true;
                DeliverOutcome::DroppedQueueFull { log }
            },
            SendOutcome::Closed => DeliverOutcome::ChannelClosed,
        }
    }

    /// Single-peer FIFO: drains this actor's pending requests oldest first,
    /// pairing the k-th pending request with the k-th completion outcome,
    /// and delivers the k-th reply at the k-th free slot of the response
    /// queue — replies leave in the same relative order the requests were
    /// queued.
    #[verifier::loop_isolation(false)]
    pub fn process_pending(
        &mut self,
        requests: &mut ChannelQueue<RequestMessage>,
        outcomes: Vec<CompletionOutcome>,
        out: &mut ChannelQueue<ResponseMessage>,
    )
        requires
            old(requests).wf(),
            old(out).wf(),
            outcomes@.len() <= old(requests)@.len(),
            !old(out).is_closed(),
            old(out)@.len() + outcomes@.len() <= old(out).capacity(),
            forall|i: int|
                0 <= i < old(requests)@.len() ==> (#[trigger] old(requests)@[i].jid@) == old(self).jid(),
        ensures
            final(requests).wf(),
            final(out).wf(),
            final(self).jid() == old(self).jid(),
            final(requests)@ == old(requests)@.skip(outcomes@.len() as int),
            final(out)@.len() == old(out)@.len() + outcomes@.len(),
            forall|i: int| 0 <= i < old(out)@.len() ==> final(out)@[i] == old(out)@[i],
            forall|k: int|
                0 <= k < outcomes@.len() ==> (#[trigger] final(out)@[old(out)@.len() + k]@)
                    == spec_response(old(self).jid(), outcomes@[k]),
    {
        let ghost all = outcomes@;
        let mut remaining = outcomes;
        proof {
            assert(all.skip(0) =~= all);
            assert(old(requests)@.skip(0) =~= old(requests)@);
        }
        while remaining.len() > 0
            invariant
                requests.wf(),
                out.wf(),
                out.capacity() == old(out).capacity(),
                !out.is_closed(),
                self.jid() == old(self).jid(),
                remaining@.len() <= all.len(),
                remaining@ == all.skip(all.len() - remaining@.len()),
                requests@ == old(requests)@.skip(all.len() - remaining@.len()),
                out@.len() == old(out)@.len() + all.len() - remaining@.len(),
                forall|i: int| 0 <= i < old(out)@.len() ==> out@[i] == old(out)@[i],
                forall|k: int|
                    0 <= k < all.len() - remaining@.len() ==> (#[trigger] out@[old(out)@.len()
                        + k]@) == spec_response(old(self).jid(), all[k]),
            decreases remaining@.len(),
        {
            let ghost done: int = all.len() - remaining@.len();
            let outcome = remaining.remove(0);
            proof {
                assert(remaining@ =~= all.skip(done + 1));
                assert(requests@.len() > 0);
                assert(old(requests)@.skip(done)[0] == old(requests)@[done]);
            }
            let req = requests.try_recv();
            match req {
                Some(_request) => {
                    proof {
                        assert(requests@ =~= old(requests)@.skip(done + 1));
                    }
                    self.deliver(outcome, out);
                },
                None => {
                    proof {
                        assert(false);
                    }
                },
            }
        }
    }
}

} // verus!
