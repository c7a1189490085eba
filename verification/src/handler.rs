//! The per-connection handler state machine.
//!
//! A connection handler loops in state `Reading`: it pulls the next
//! frame from the codec, parses it, executes the command against the
//! shared store, and sends the response back. It moves to the
//! terminal state `Closed` when the stream ends, when a write fails,
//! or when the peer sends an unsupported command (the reference
//! policy: the command is reported and the connection aborted, with
//! no response sent).
//!
//! The embedding program owns the loop's I/O: it waits for frames,
//! writes responses, and reports faults. Each decision in between is
//! one call of [`step`]. The store access inside a step is the only
//! moment the store's lock needs to be held; the caller releases it
//! before writing the response, so the critical section never spans
//! a suspension point.

use vstd::prelude::*;
use crate::command::{self, Command};
use crate::frame::{Frame, Response};
use crate::store::{lookup, Store};

verus! {

/// The two states of a connection handler: still reading frames, or
/// terminally closed.
#[derive(Clone, Copy, Debug, PartialEq, Eq, Structural)]
pub enum ConnState {
    /// The handler waits for the next frame.
    Reading,
    /// The connection is finished; no further frame is read.
    Closed,
}

/// What the transport produced for the handler to act on.
#[derive(Debug)]
pub enum Event {
    /// The codec decoded one complete frame.
    Received(Frame),
    /// The peer closed cleanly: no more frames will arrive.
    EndOfStream,
    /// Writing the previous response back failed.
    WriteFailed,
}

/// The status text acknowledging a successful write.
pub open spec fn ok_text() -> Seq<char> {
    "OK"@
}

/// The response a `GET` of key `k` earns against store contents `m`:
/// the bound value as a bulk payload, or the null marker when the
/// key is absent.
pub open spec fn is_get_response(resp: Response, m: Map<Seq<u8>, Seq<u8>>, k: Seq<u8>) -> bool {
    match lookup(m, k) {
        Some(v) => resp matches Response::Bulk(b) && b@ == v,
        None => resp is Null,
    }
}

/// Executes one parsed command against the store and builds the
/// response: the pure map operation of a handler round trip. This is
/// the whole critical section — the caller acquires the store's
/// exclusive lock immediately before this call and releases it
/// immediately after, strictly before any I/O, so the lock is never
/// held across a suspension point. An unsupported command touches
/// the store not at all and earns no response.
pub fn execute(store: &mut Store, cmd: Command) -> (r: Option<Response>)
    ensures
        cmd matches Command::Get { key } ==> {
            &&& final(store)@ == old(store)@
            &&& r matches Some(resp) && is_get_response(resp, old(store)@, key@)
        },
        cmd matches Command::Put { key, value } ==> {
            &&& final(store)@ == old(store)@.insert(key@, value@)
            &&& r matches Some(resp) && resp matches Response::Simple(s) && s@ == ok_text()
        },
        cmd is Unsupported ==> r is None && final(store)@ == old(store)@,
{
    match cmd {
        Command::Get { key } => {
            match store.get(&key) {
                Some(v) => Some(Response::Bulk(v)),
                None => Some(Response::Null),
            }
        }
        Command::Put { key, value } => {
            store.set(key, value);
            Some(Response::Simple("OK".to_owned()))
        }
        Command::Unsupported { .. } => None,
    }
}

/// One transition of the handler state machine: from the current
/// state and the event the transport delivered, compute the next
/// state, the response to write back (if any), and the store's new
/// contents. A well-formed `GET` or `SET` answers and keeps reading;
/// the end of the stream, a failed write, and an unsupported command
/// all close the connection, the last without a response.
pub fn step(state: ConnState, event: Event, store: &mut Store) -> (r: (ConnState, Option<Response>))
    ensures
        state is Closed ==> r.0 is Closed && r.1 is None && final(store)@ == old(store)@,
        state is Reading && (event is EndOfStream || event is WriteFailed) ==> r.0 is Closed
            && r.1 is None && final(store)@ == old(store)@,
        (match event {
            Event::Received(f) => state is Reading ==> {
            &&& command::is_get_frame(f) ==> {
                &&& final(store)@ == old(store)@
                &&& r.0 is Reading
                &&& r.1 matches Some(resp) && is_get_response(
                    resp,
                    old(store)@,
                    command::get_key(f),
                )
            }
            &&& command::is_set_frame(f) ==> {
                &&& final(store)@ == old(store)@.insert(
                    command::set_key(f),
                    command::set_value(f),
                )
                &&& r.0 is Reading
                &&& r.1 matches Some(resp) && resp matches Response::Simple(s) && s@ == ok_text()
            }
            &&& !command::is_get_frame(f) && !command::is_set_frame(f) ==> r.0 is Closed
                && r.1 is None && final(store)@ == old(store)@
            },
            _ => true,
        }),
{
    match state {
        ConnState::Closed => (ConnState::Closed, None),
        ConnState::Reading => {
            match event {
                Event::EndOfStream => (ConnState::Closed, None),
                Event::WriteFailed => (ConnState::Closed, None),
                Event::Received(f) => {
                    let cmd = command::parse(f);
                    match execute(store, cmd) {
                        Some(resp) => (ConnState::Reading, Some(resp)),
                        None => (ConnState::Closed, None),
                    }
                }
            }
        }
    }
}

} // verus!
