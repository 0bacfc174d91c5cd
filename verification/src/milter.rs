//! The verdict of every stage of a mail transaction.
//!
//! The protocol runtime calls one hook per stage, in this order:
//!
//! * `negotiate`, once, before anything else
//! * `connect`
//! * `helo`
//! * for each message: `mail`, `rcpt`, `data`, `header`, `eoh`, `body`,
//!   `eom`
//! * `close`
//!
//! Several messages may pass over one connection; the stages from `mail` to
//! `eom` then repeat. At any point of a message the runtime may call `abort`
//! in place of the stages that are left. Each hook answers with a
//! [`Status`]; none drives the transaction. The maps are only consulted at
//! the end of a message, and only reloaded when a connection begins. No hook
//! lets a fault of the filter keep a message back: where something cannot
//! be had or done, the message goes on.

use crate::config::Config;
use crate::consts::{MACRO_RECPT_ADDR, MACRO_SENDER_ADDR};
use crate::error::Error;
use crate::maps::address_map::lookup_spec;
use crate::maps::{is_allowed, is_blocked, load_maps_if_changed, MapStore, Probe, Reloaded};
use vstd::prelude::*;

verus! {

/// What a hook answers to the protocol runtime.
#[derive(Clone, Copy, Debug, PartialEq, Eq, Structural)]
pub enum Status {
    /// Proceed to the next stage.
    Continue,
    /// Reject the message.
    Reject,
    /// Reject the message for now; the client may try again.
    Tempfail,
    /// Accept the message and throw it away.
    Discard,
    /// Accept the message.
    Accept,
    /// Send no reply.
    Noreply,
    /// Call this hook no more for this message.
    Skip,
    /// In negotiation only: take every option that is offered.
    AllOpts,
}

/// The answer to the negotiation: the status, and the macros that the
/// filter asks for at the `mail` and at the `rcpt` stage.
#[derive(Debug)]
pub struct Negotiation {
    pub status: Status,
    pub mail_macros: &'static str,
    pub rcpt_macros: &'static str,
}

/// The answer at the end of a message: the status, and whether the marker
/// header is to be attached to the message before the status is returned.
#[derive(Clone, Copy, Debug, PartialEq, Eq, Structural)]
pub struct Decision {
    pub status: Status,
    pub add_header: bool,
}

/// The text of a macro value that was looked up; `None` where the lookup
/// failed or the macro has no value.
pub open spec fn macro_text(value: Result<Option<&str>, Error>) -> Option<Seq<char>> {
    match value {
        Ok(Some(text)) => Some(text@),
        _ => None,
    }
}

/// The decision at the end of a message. Without both addresses the message
/// goes on. A sender that the recipient has blocked gets the configured
/// action, whatever the allow map holds. Else a sender that the recipient
/// allows is accepted, with the marker header. Else the message goes on.
pub open spec fn eom_decision(
    block: Map<Seq<char>, Seq<Seq<char>>>,
    allow: Map<Seq<char>, Seq<Seq<char>>>,
    on_block_action: Status,
    recipient: Option<Seq<char>>,
    sender: Option<Seq<char>>,
) -> Decision {
    if recipient.is_none() || sender.is_none() {
        Decision { status: Status::Continue, add_header: false }
    } else if lookup_spec(block, recipient.unwrap(), sender.unwrap()) {
        Decision { status: on_block_action, add_header: false }
    } else if lookup_spec(allow, recipient.unwrap(), sender.unwrap()) {
        Decision { status: Status::Accept, add_header: true }
    } else {
        Decision { status: Status::Continue, add_header: false }
    }
}

/// Negotiation: asks for the recipient address at the `mail` stage and for
/// the sender address at the `rcpt` stage, and takes every option.
pub fn handle_negotiate() -> (n: Negotiation)
    ensures
        n.status == Status::AllOpts,
        n.mail_macros@ == MACRO_RECPT_ADDR@,
        n.rcpt_macros@ == MACRO_SENDER_ADDR@,
{
    Negotiation {
        status: Status::AllOpts,
        mail_macros: MACRO_RECPT_ADDR,
        rcpt_macros: MACRO_SENDER_ADDR,
    }
}

/// The answer when a connection begins: the status, and the stores that
/// are to take the place of the two stores before the status is returned.
pub struct Connection {
    pub status: Status,
    pub reloaded: Reloaded,
}

/// A connection begins: each map is reloaded where its probe shows that a
/// reload is due. The connection goes on in any case.
pub fn handle_connect(
    allow: &MapStore,
    block: &MapStore,
    config: &Config,
    allow_probe: Probe,
    block_probe: Probe,
) -> (connection: Connection)
    ensures
        connection.status == Status::Continue,
        allow.reloads_to(connection.reloaded.allow, config@.reload_interval, allow_probe),
        block.reloads_to(connection.reloaded.block, config@.reload_interval, block_probe),
{
    Connection {
        status: Status::Continue,
        reloaded: load_maps_if_changed(
            allow,
            block,
            config.reload_interval(),
            allow_probe,
            block_probe,
        ),
    }
}

/// The client has introduced itself: nothing to decide.
pub fn handle_helo() -> (status: Status)
    ensures
        status == Status::Continue,
{
    Status::Continue
}

/// The sender of a message is announced: nothing to decide yet.
pub fn handle_mail() -> (status: Status)
    ensures
        status == Status::Continue,
{
    Status::Continue
}

/// A recipient of a message is announced: nothing to decide yet.
pub fn handle_rcpt() -> (status: Status)
    ensures
        status == Status::Continue,
{
    Status::Continue
}

/// The content of a message begins: nothing to decide.
pub fn handle_data() -> (status: Status)
    ensures
        status == Status::Continue,
{
    Status::Continue
}

/// Headers are of no interest: the hook asks not to be called for the
/// headers that are left.
pub fn handle_header() -> (status: Status)
    ensures
        status == Status::Skip,
{
    Status::Skip
}

/// The headers of a message have ended: nothing to decide.
pub fn handle_eoh() -> (status: Status)
    ensures
        status == Status::Continue,
{
    Status::Continue
}

/// A piece of the body of a message: nothing to decide.
pub fn handle_body() -> (status: Status)
    ensures
        status == Status::Continue,
{
    Status::Continue
}

/// The end of a message: decides on it from the two maps. `recipient` and
/// `sender` are what the lookup of the two address macros gave.
pub fn handle_eom(
    block: &MapStore,
    allow: &MapStore,
    config: &Config,
    recipient: Result<Option<&str>, Error>,
    sender: Result<Option<&str>, Error>,
) -> (decision: Decision)
    ensures
        decision == eom_decision(
            block@.map,
            allow@.map,
            config@.on_block_action,
            macro_text(recipient),
            macro_text(sender),
        ),
        macro_text(recipient).is_none() || macro_text(sender).is_none() ==> decision == (Decision {
            status: Status::Continue,
            add_header: false,
        }),
        macro_text(recipient) matches Some(r) && macro_text(sender) matches Some(s) && lookup_spec(
            block@.map,
            r,
            s,
        ) ==> decision == (Decision { status: config@.on_block_action, add_header: false }),
{
    if let Some((recipient, sender)) = get_recipient_and_sender(recipient, sender) {
        if is_blocked(block, recipient, sender) {
            return Decision { status: config.on_block_action(), add_header: false };
        }
        if is_allowed(allow, recipient, sender) {
            return Decision { status: Status::Accept, add_header: true };
        }
    }
    Decision { status: Status::Continue, add_header: false }
}

/// The status to answer at the end of a message, once the decision was
/// acted on. `header_attached` says whether the marker header could be
/// attached; it is of no interest where the decision asks for none. A
/// message whose header could not be attached goes on without it: it is
/// neither accepted unmarked nor kept back.
pub fn eom_status(decision: Decision, header_attached: bool) -> (status: Status)
    ensures
        status == (if decision.add_header && !header_attached {
            Status::Continue
        } else {
            decision.status
        }),
{
    if decision.add_header && !header_attached {
        Status::Continue
    } else {
        decision.status
    }
}

/// The message is given up: the maps are not consulted.
pub fn handle_abort() -> (status: Status)
    ensures
        status == Status::Continue,
{
    Status::Continue
}

/// The connection ends.
pub fn handle_close() -> (status: Status)
    ensures
        status == Status::Continue,
{
    Status::Continue
}

/// A command that the runtime does not know: nothing to decide.
pub fn handle_unknown() -> (status: Status)
    ensures
        status == Status::Continue,
{
    Status::Continue
}

/// The recipient and the sender of a message, from what the lookup of the
/// two address macros gave. Both are needed: where a lookup failed or a
/// macro has no value, there is no pair.
pub fn get_recipient_and_sender<'a>(
    recipient: Result<Option<&'a str>, Error>,
    sender: Result<Option<&'a str>, Error>,
) -> (pair: Option<(&'a str, &'a str)>)
    ensures
        pair.is_some() == (macro_text(recipient).is_some() && macro_text(sender).is_some()),
        pair matches Some((r, s)) ==> recipient == Ok::<Option<&str>, Error>(Some(r)) && sender
            == Ok::<Option<&str>, Error>(Some(s)),
{
    let recipient = match recipient {
        Ok(recipient) => recipient,
        Err(_) => None,
    };
    let sender = match sender {
        Ok(sender) => sender,
        Err(_) => None,
    };
    if let (Some(recipient), Some(sender)) = (recipient, sender) {
        Some((recipient, sender))
    } else {
        None
    }
}

} // verus!
