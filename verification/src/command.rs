//! The command parser.
//!
//! [`parse`] maps one decoded frame to its typed meaning: a `GET`, a
//! `SET`, or an unsupported command. A recognized request is a flat
//! array of bulk parts whose first part spells the command name up to
//! ASCII case: `GET key` has two parts, `SET key value` has three.
//! Any frame that does not cleanly match one of those shapes becomes
//! [`Command::Unsupported`], carrying the original frame for
//! diagnostic reporting by the caller; no partial interpretation of a
//! malformed frame is ever attempted.

use vstd::prelude::*;
use crate::frame::Frame;

verus! {

/// The typed meaning of one request frame.
#[derive(Debug, PartialEq, Eq)]
pub enum Command {
    /// Read the value bound to `key`.
    Get { key: Vec<u8> },
    /// Bind `key` to `value`, overwriting any prior value. This is
    /// the typed form of a `SET` request.
    Put { key: Vec<u8>, value: Vec<u8> },
    /// A frame matching no recognized command shape, kept whole so
    /// the caller can report it.
    Unsupported { raw: Frame },
}

/// ASCII lowercasing of one byte; other bytes are untouched.
pub open spec fn lower_byte(b: u8) -> u8 {
    if 65 <= b && b <= 90 {
        (b + 32) as u8
    } else {
        b
    }
}

/// `s` spells the lowercase word `name`, up to ASCII case.
pub open spec fn spells(s: Seq<u8>, name: Seq<u8>) -> bool {
    s.len() == name.len() && forall|i: int| 0 <= i < s.len() ==> lower_byte(s[i]) == name[i]
}

/// The byte content of a bulk frame.
pub open spec fn bulk_bytes(f: Frame) -> Seq<u8>
    recommends
        f is Bulk,
{
    match f {
        Frame::Bulk(b) => b@,
        _ => Seq::empty(),
    }
}

/// The shape of a `GET key` request: a two-part array of bulk parts
/// whose first part spells "get".
pub open spec fn is_get_frame(f: Frame) -> bool {
    &&& f matches Frame::Array(parts)
    &&& parts@.len() == 2
    &&& parts@[0] matches Frame::Bulk(name) && spells(name@, seq![103u8, 101u8, 116u8])
    &&& parts@[1] is Bulk
}

/// The key a `GET` request asks for.
pub open spec fn get_key(f: Frame) -> Seq<u8>
    recommends
        is_get_frame(f),
{
    match f {
        Frame::Array(parts) => bulk_bytes(parts@[1]),
        _ => Seq::empty(),
    }
}

/// The shape of a `SET key value` request: a three-part array of bulk
/// parts whose first part spells "set".
pub open spec fn is_set_frame(f: Frame) -> bool {
    &&& f matches Frame::Array(parts)
    &&& parts@.len() == 3
    &&& parts@[0] matches Frame::Bulk(name) && spells(name@, seq![115u8, 101u8, 116u8])
    &&& parts@[1] is Bulk
    &&& parts@[2] is Bulk
}

/// The key a `SET` request writes to.
pub open spec fn set_key(f: Frame) -> Seq<u8>
    recommends
        is_set_frame(f),
{
    match f {
        Frame::Array(parts) => bulk_bytes(parts@[1]),
        _ => Seq::empty(),
    }
}

/// The value a `SET` request stores.
pub open spec fn set_value(f: Frame) -> Seq<u8>
    recommends
        is_set_frame(f),
{
    match f {
        Frame::Array(parts) => bulk_bytes(parts@[2]),
        _ => Seq::empty(),
    }
}

/// ASCII lowercasing of one byte.
fn lower(b: u8) -> (r: u8)
    ensures
        r == lower_byte(b),
{
    if 65 <= b && b <= 90 {
        b + 32
    } else {
        b
    }
}

/// Whether `part` is a bulk part spelling the three-letter lowercase
/// word `n0 n1 n2`, up to ASCII case.
fn spells_word(part: &Frame, n0: u8, n1: u8, n2: u8) -> (r: bool)
    ensures
        r == (part matches Frame::Bulk(b) && spells(b@, seq![n0, n1, n2])),
{
    match part {
        Frame::Bulk(b) => {
            if b.len() == 3 {
                let r = lower(b[0]) == n0 && lower(b[1]) == n1 && lower(b[2]) == n2;
                proof {
                    if r {
                        assert forall|i: int| 0 <= i < 3 implies lower_byte(b@[i])
                            == seq![n0, n1, n2][i] by {
                            assert(seq![n0, n1, n2][i] == if i == 0 {
                                n0
                            } else if i == 1 {
                                n1
                            } else {
                                n2
                            });
                        }
                    }
                }
                r
            } else {
                false
            }
        }
        _ => false,
    }
}

/// Whether a frame is a bulk payload.
fn is_bulk(part: &Frame) -> (r: bool)
    ensures
        r == (part is Bulk),
{
    match part {
        Frame::Bulk(_) => true,
        _ => false,
    }
}

/// Maps a decoded frame to its typed command.
pub fn parse(f: Frame) -> (c: Command)
    ensures
        is_get_frame(f) ==> (c matches Command::Get { key } && key@ == get_key(f)),
        is_set_frame(f) ==> (c matches Command::Put { key, value } && key@ == set_key(f)
            && value@ == set_value(f)),
        !is_get_frame(f) && !is_set_frame(f) ==> c == (Command::Unsupported { raw: f }),
{
    match f {
        Frame::Array(mut parts) => {
            if parts.len() == 2 && spells_word(&parts[0], 103, 101, 116) && is_bulk(&parts[1]) {
                let second = parts.remove(1);
                match second {
                    Frame::Bulk(key) => Command::Get { key },
                    other => {
                        proof {
                            assert(false);
                        }
                        Command::Unsupported { raw: other }
                    }
                }
            } else if parts.len() == 3 && spells_word(&parts[0], 115, 101, 116)
                && is_bulk(&parts[1]) && is_bulk(&parts[2]) {
                let third = parts.remove(2);
                let second = parts.remove(1);
                match (second, third) {
                    (Frame::Bulk(key), Frame::Bulk(value)) => Command::Put { key, value },
                    (a, _) => {
                        proof {
                            assert(false);
                        }
                        Command::Unsupported { raw: a }
                    }
                }
            } else {
                Command::Unsupported { raw: Frame::Array(parts) }
            }
        }
        other => Command::Unsupported { raw: other },
    }
}

} // verus!
