//! The two message kinds passed between the transport session and the
//! conversation engine, and the in-band error replies a peer can see.

use vstd::prelude::*;
use vstd::string::StringExecFns;

verus! {

/// Message passed from the transport session to the engine: one chat request
/// from one peer, consumed exactly once by that peer's conversation actor.
#[derive(Debug, Clone, PartialEq, Eq)]
pub struct RequestMessage {
    pub jid: String,
    pub request: String,
}

/// Mathematical value of a [`RequestMessage`].
#[verifier::ext_equal]
pub struct RequestView {
    pub jid: Seq<char>,
    pub request: Seq<char>,
}

impl View for RequestMessage {
    type V = RequestView;

    open spec fn view(&self) -> RequestView {
        RequestView { jid: self.jid@, request: self.request@ }
    }
}

/// Message passed from a conversation actor back to the transport session:
/// the reply for exactly one prior request, with the token usage of the call.
#[derive(Debug, Clone, PartialEq, Eq)]
pub struct ResponseMessage {
    pub jid: String,
    pub response: String,
    pub tokens_in: usize,
    pub tokens_in_cached: Option<usize>,
    pub tokens_out: usize,
    pub tokens_reasoning: Option<usize>,
}

/// The mathematical value of an optional token count.
pub open spec fn opt_int(o: Option<usize>) -> Option<int> {
    match o {
        Some(n) => Some(n as int),
        None => None,
    }
}

/// Mathematical value of a [`ResponseMessage`].
#[verifier::ext_equal]
pub struct ResponseView {
    pub jid: Seq<char>,
    pub response: Seq<char>,
    pub tokens_in: int,
    pub tokens_in_cached: Option<int>,
    pub tokens_out: int,
    pub tokens_reasoning: Option<int>,
}

impl View for ResponseMessage {
    type V = ResponseView;

    open spec fn view(&self) -> ResponseView {
        ResponseView {
            jid: self.jid@,
            response: self.response@,
            tokens_in: self.tokens_in as int,
            tokens_in_cached: opt_int(self.tokens_in_cached),
            tokens_out: self.tokens_out as int,
            tokens_reasoning: opt_int(self.tokens_reasoning),
        }
    }
}

/// The literal prefix that starts every in-band error reply a peer can see.
pub open spec fn error_marker() -> Seq<char> {
    "[ERROR] "@
}

/// Reply synthesized for a failed completion call: the error marker followed
/// by the error detail, with every token count zeroed, since real usage is
/// unknown for a failed call.
pub open spec fn spec_error_response(jid: Seq<char>, error: Seq<char>) -> ResponseView {
    ResponseView {
        jid: jid,
        response: error_marker() + error,
        tokens_in: 0,
        tokens_in_cached: None,
        tokens_out: 0,
        tokens_reasoning: None,
    }
}

/// Builds the in-band reply for a failed completion call, preserving the
/// conversation turn-taking: the peer still gets exactly one reply.
pub fn error_response(jid: &String, error: &String) -> (r: ResponseMessage)
    ensures
        r@ == spec_error_response(jid@, error@),
{
    let mut response = String::from_str("[ERROR] ");
    response.append(error.as_str());
    ResponseMessage {
        jid: jid.clone(),
        response,
        tokens_in: 0,
        tokens_in_cached: None,
        tokens_out: 0,
        tokens_reasoning: None,
    }
}

/// The fixed notice sent back, without entering the pipeline, when an
/// encrypted payload arrives.
pub open spec fn encrypted_notice_text() -> Seq<char> {
    "[ERROR] Encrypted messages are not supported"@
}

/// Builds the fixed notice for an inbound encrypted payload.
pub fn encrypted_notice() -> (r: String)
    ensures
        r@ == encrypted_notice_text(),
{
    String::from_str("[ERROR] Encrypted messages are not supported")
}

} // verus!
