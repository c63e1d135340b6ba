//! Transport framing of the outward response, and the status
//! negotiation protocol.
//!
//! A stage deep in the pipeline cannot touch the outward transport
//! response: framing is finalized exactly once, by the outermost stage,
//! before the body starts streaming.  The sanctioned indirection is the
//! context: the deep stage records the status it wants under
//! [`negotiation_key`], and the outermost stage's response transform
//! reads that key and applies it.  A stored value that is not a valid
//! status code falls back to the default success status instead of
//! failing the request.

use vstd::prelude::*;
use crate::context::{Context, CtxMap, spec_get_num};

verus! {

/// Default transport status of a successful response.
pub const STATUS_OK: u16 = 200;

/// Status conventionally negotiated by inner stages to flag a
/// validation or domain failure to status-only clients.
pub const STATUS_UNAUTHORIZED: u16 = 401;

/// The context key that carries the negotiated status code.
pub fn negotiation_key() -> (r: &'static str)
    ensures
        r@ == "set_status_code"@,
{
    "set_status_code"
}

/// A transport status code is a three-digit number.
pub open spec fn is_valid_status(c: u16) -> bool {
    100 <= c <= 999
}

/// Relies on `http::StatusCode::from_u16`, which accepts exactly the
/// numbers from 100 through 999, and on `StatusCode::as_u16`, which
/// returns the accepted number.
#[verifier::external_body]
fn checked_status(c: u16) -> (r: Option<u16>)
    ensures
        r == if is_valid_status(c) {
            Some(c)
        } else {
            None::<u16>
        },
{
    match http::StatusCode::from_u16(c) {
        Ok(s) => Some(s.as_u16()),
        Err(_) => None,
    }
}

/// The given code when it is a valid status, the default success
/// status otherwise.
pub fn status_or_default(c: u16) -> (r: u16)
    ensures
        r == if is_valid_status(c) {
            c
        } else {
            STATUS_OK
        },
{
    match checked_status(c) {
        Some(s) => s,
        None => STATUS_OK,
    }
}

/// Transport metadata of the outward response: status and headers.
/// Fixed by the outermost stage before the body is sent.
#[derive(Debug, PartialEq, Eq)]
pub struct ResponseHead {
    pub status: u16,
    pub headers: Vec<(String, String)>,
}

/// Model of a [`ResponseHead`].
pub struct ResponseHeadV {
    pub status: u16,
    pub headers: Seq<(Seq<char>, Seq<char>)>,
}

impl View for ResponseHead {
    type V = ResponseHeadV;

    open spec fn view(&self) -> ResponseHeadV {
        ResponseHeadV {
            status: self.status,
            headers: self.headers@.map_values(|h: (String, String)| (h.0@, h.1@)),
        }
    }
}

impl ResponseHead {
    /// A fresh head with the default success status and no headers.
    pub fn new_ok() -> (r: ResponseHead)
        ensures
            r@.status == STATUS_OK,
            r@.headers.len() == 0,
    {
        let r = ResponseHead { status: STATUS_OK, headers: Vec::new() };
        proof {
            assert(r@.headers =~= Seq::<(Seq<char>, Seq<char>)>::empty());
        }
        r
    }
}

/// The outward status after the outermost stage has read the
/// negotiation key: a stored number that is a valid status wins; a
/// stored number that is not falls back to the default success status;
/// an absent key, or one holding a value that is not a number the
/// protocol can read, leaves the status as it was.
pub open spec fn negotiated_status(m: CtxMap, current: u16) -> u16 {
    match spec_get_num(m, "set_status_code"@) {
        Ok(Some(n)) => if n <= u16::MAX {
            if is_valid_status(n as u16) {
                n as u16
            } else {
                STATUS_OK
            }
        } else {
            current
        },
        _ => current,
    }
}

/// The outermost stage's half of the negotiation protocol: overwrite
/// the outward status with the negotiated one, leaving the headers and
/// the context untouched.  A malformed stored value never fails the
/// request: the status falls back as [`negotiated_status`] says.
pub fn apply_negotiated_status(ctx: &Context, head: &mut ResponseHead)
    ensures
        final(head)@.status == negotiated_status(ctx@, old(head)@.status),
        final(head)@.headers == old(head)@.headers,
{
    match ctx.get_num(negotiation_key()) {
        Ok(Some(n)) => {
            if n <= 65535 {
                head.status = status_or_default(n as u16);
            }
        },
        _ => {},
    }
}

} // verus!
