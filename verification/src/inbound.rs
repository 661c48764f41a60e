//! Decoding of inbound transport messages.
//!
//! The transport collaborator hands over already-parsed message stanzas.
//! This module reads out of such a stanza exactly what the bridge's logic
//! needs — sender, message kind, text body, receipt identifier, and whether
//! an encrypted payload is present — through trusted accessors over the
//! transport library's parsing types, and assembles them into the plain
//! [`InboundMessage`] that the session state machine classifies.

use vstd::prelude::*;
use vstd::string::StringExecFns;
use xmpp_parsers::jid::BareJid;
use xmpp_parsers::message::{Lang, Message, MessageType};

verus! {

/// Whether a string is a valid bare peer address.  The transport library's
/// address parser decides this from the string alone, so the predicate is a
/// function of the string and nothing else.
pub uninterp spec fn jid_valid(s: Seq<char>) -> bool;

#[verifier::external_type_specification]
#[verifier::external_body]
pub struct ExMessage(Message);

/// Relies on `jid::BareJid::new`: tells whether the string parses as a
/// valid bare address; the result depends on the string alone.
#[verifier::external_body]
pub(crate) fn is_valid_bare_jid(s: &str) -> (r: bool)
    ensures
        r == jid_valid(s@),
{
    BareJid::new(s).is_ok()
}

/// Relies on `jid::Jid::to_bare` and `jid::Jid::as_str`: the sender of the
/// stanza as its normalized bare address string, if a sender is given.
#[verifier::external_body]
pub(crate) fn message_sender(m: &Message) -> (r: Option<String>)
{
    m.from.as_ref().map(|j| j.to_bare().as_str().to_owned())
}

/// Relies on `xmpp_parsers::message::MessageType`'s equality: whether the
/// stanza is a "chat"-typed message.
#[verifier::external_body]
pub(crate) fn message_is_chat(m: &Message) -> (r: bool)
{
    m.type_ == MessageType::Chat
}

/// Relies on the `bodies` map of `xmpp_parsers::message::Message`: the text
/// body without a language tag, if the stanza carries one.
#[verifier::external_body]
pub(crate) fn message_body(m: &Message) -> (r: Option<String>)
{
    m.bodies.get(&Lang(String::new())).cloned()
}

/// Relies on the `id` field of `xmpp_parsers::message::Message`: the
/// stanza's receipt-capable identifier, if any.
#[verifier::external_body]
pub(crate) fn message_id(m: &Message) -> (r: Option<String>)
{
    m.id.as_ref().map(|i| i.0.clone())
}

/// Relies on `minidom::Element::name`: the element names of the stanza's
/// extension payloads, in order.
#[verifier::external_body]
pub(crate) fn payload_names(m: &Message) -> (r: Vec<String>)
{
    m.payloads.iter().map(|p| p.name().to_owned()).collect()
}

/// Whether one of `names` is this name.
pub open spec fn contains_name(names: Seq<String>, name: Seq<char>) -> bool {
    exists|i: int| 0 <= i < names.len() && names[i]@ == name
}

/// Whether the list of payload element names holds this one.
fn name_listed(names: &Vec<String>, name: &String) -> (b: bool)
    ensures
        b == contains_name(names@, name@),
{
    let n = names.len();
    for i in 0..n
        invariant
            n == names@.len(),
            forall|k: int| 0 <= k < i ==> (#[trigger] names@[k]@) != name@,
    {
        if names[i] == *name {
            return true;
        }
    }
    false
}

/// What the bridge reads out of one inbound message stanza, as plain
/// values.
#[derive(Debug, Clone, PartialEq, Eq)]
pub struct InboundMessage {
    /// The sender's bare address, normalized by the transport library.
    pub sender: Option<String>,
    /// Whether this is a "chat"-typed message (not groupchat, normal,
    /// headline or error).
    pub is_chat: bool,
    /// The text body without a language tag, if any.
    pub body: Option<String>,
    /// The stanza identifier a "displayed" marker can acknowledge, if any.
    pub id: Option<String>,
    /// Whether the stanza carries an encrypted payload.
    pub encrypted: bool,
}

/// Reads the routable content out of a parsed message stanza.  The stanza
/// is opaque to the verifier, so nothing can be promised about the values
/// read; every decision taken on them is specified and verified in the
/// session state machine, over this plain representation.
pub fn decode_message(m: &Message) -> InboundMessage {
    let names = payload_names(m);
    let encrypted_name = String::from_str("encrypted");
    InboundMessage {
        sender: message_sender(m),
        is_chat: message_is_chat(m),
        body: message_body(m),
        id: message_id(m),
        encrypted: name_listed(&names, &encrypted_name),
    }
}

} // verus!
