//! The per-connection handler.
//!
//! A connection lives in a loop: read one protocol unit, parse it, apply
//! the command to the shared store, write the response, repeat.  The loop
//! itself performs the reads and writes; the decisions stand here as a
//! state machine.  `step` takes the current state and the event the
//! transport reported and returns the next state and the response to
//! write, if any.  A clean end of the stream and an I/O failure are both
//! connection-fatal and touch neither the store nor any other connection;
//! an unsupported command is request-fatal only.

use vstd::prelude::*;
use crate::protocol::{
    Field, FieldV, Command, CommandV, Response, ResponseV, views_of, parsed_command, command_of,
};
use crate::store::Store;

verus! {

/// The store after one command: `SET` replaces the binding of its key,
/// unconditionally; every other command leaves the store as it is.
pub open spec fn store_after(
    m: Map<Seq<char>, Seq<u8>>,
    c: CommandV,
) -> Map<Seq<char>, Seq<u8>> {
    match c {
        CommandV::Put { key, value } => m.insert(key, value),
        _ => m,
    }
}

/// The reply one command earns against a given store: `GET` the bound
/// value or the null marker, `SET` the acknowledgment `OK`, anything
/// unsupported an error that names it.
pub open spec fn response_for(m: Map<Seq<char>, Seq<u8>>, c: CommandV) -> ResponseV {
    match c {
        CommandV::Get { key } => if m.contains_key(key) {
            ResponseV::Bulk(m[key])
        } else {
            ResponseV::Null
        },
        CommandV::Put { .. } => ResponseV::Simple("OK"@),
        CommandV::Unknown { .. } => ResponseV::Error("unsupported command"@),
    }
}

/// Applies one parsed command to the store and builds the reply.
pub fn dispatch(store: &mut Store, cmd: Command) -> (resp: Response)
    ensures
        final(store)@ == store_after(old(store)@, cmd@),
        resp@ == response_for(old(store)@, cmd@),
{
    match cmd {
        Command::Get { key } => match store.get(&key) {
            Option::Some(v) => Response::Bulk(v),
            Option::None => Response::Null,
        },
        Command::Put { key, value } => {
            store.set(key, value);
            Response::Simple("OK".to_owned())
        },
        Command::Unknown { .. } => Response::Error("unsupported command".to_owned()),
    }
}

/// Parses one protocol unit and applies it: the whole of one
/// request-response exchange, between a read and a write.
pub fn handle_unit(store: &mut Store, unit: Vec<Field>) -> (resp: Response)
    ensures
        final(store)@ == store_after(old(store)@, parsed_command(views_of(unit@))),
        resp@ == response_for(old(store)@, parsed_command(views_of(unit@))),
{
    let cmd = command_of(unit);
    dispatch(store, cmd)
}

/// Where a connection stands: waiting for the next request, holding a
/// response that still has to be written, or closed for good.
#[derive(Clone, Copy, Debug, PartialEq, Eq, Structural)]
pub enum ConnState {
    AwaitingRequest,
    Dispatching,
    Closed,
}

/// What the transport reported: a decoded unit, a clean end of stream,
/// a failed read, a completed write, or a failed write.
pub enum ConnEvent {
    Received(Vec<Field>),
    StreamEnd,
    ReadFailed,
    WriteOk,
    WriteFailed,
}

/// The mathematical model of a `ConnEvent`.
pub enum EventV {
    Received(Seq<FieldV>),
    StreamEnd,
    ReadFailed,
    WriteOk,
    WriteFailed,
}

impl View for ConnEvent {
    type V = EventV;

    open spec fn view(&self) -> EventV {
        match self {
            ConnEvent::Received(unit) => EventV::Received(views_of(unit@)),
            ConnEvent::StreamEnd => EventV::StreamEnd,
            ConnEvent::ReadFailed => EventV::ReadFailed,
            ConnEvent::WriteOk => EventV::WriteOk,
            ConnEvent::WriteFailed => EventV::WriteFailed,
        }
    }
}

/// One transition of the handler: the next state, the response to write,
/// and the store afterwards.  A received unit is dispatched and answered;
/// a clean end of stream and a read or write failure close the connection
/// and leave the store untouched.  An event that its state cannot produce
/// is treated as fatal and closes the connection too.
pub open spec fn spec_step(s: ConnState, e: EventV, m: Map<Seq<char>, Seq<u8>>) -> (
    ConnState,
    Option<ResponseV>,
    Map<Seq<char>, Seq<u8>>,
) {
    match (s, e) {
        (ConnState::AwaitingRequest, EventV::Received(u)) => (
            ConnState::Dispatching,
            Option::Some(response_for(m, parsed_command(u))),
            store_after(m, parsed_command(u)),
        ),
        (ConnState::AwaitingRequest, EventV::StreamEnd) => (ConnState::Closed, Option::None, m),
        (ConnState::AwaitingRequest, EventV::ReadFailed) => (ConnState::Closed, Option::None, m),
        (ConnState::Dispatching, EventV::WriteOk) => (
            ConnState::AwaitingRequest,
            Option::None,
            m,
        ),
        (ConnState::Dispatching, EventV::WriteFailed) => (ConnState::Closed, Option::None, m),
        _ => (ConnState::Closed, Option::None, m),
    }
}

/// Drives the handler one event forward, mutating the shared store as the
/// event demands.  The caller owns the loop: it reads, hands the event in,
/// writes any returned response, and stops once the state is `Closed`.
pub fn step(state: ConnState, event: ConnEvent, store: &mut Store) -> (r: (
    ConnState,
    Option<Response>,
))
    ensures
        ({
            let (s2, respv, m2) = spec_step(state, event@, old(store)@);
            &&& r.0 == s2
            &&& final(store)@ == m2
            &&& match (r.1, respv) {
                (Option::Some(x), Option::Some(y)) => x@ == y,
                (Option::None, Option::None) => true,
                _ => false,
            }
        }),
{
    match (state, event) {
        (ConnState::AwaitingRequest, ConnEvent::Received(unit)) => {
            let resp = handle_unit(store, unit);
            (ConnState::Dispatching, Option::Some(resp))
        },
        (ConnState::Dispatching, ConnEvent::WriteOk) => (
            ConnState::AwaitingRequest,
            Option::None,
        ),
        (_, _) => (ConnState::Closed, Option::None),
    }
}

} // verus!
