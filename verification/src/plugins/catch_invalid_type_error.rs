//! The peek-then-decide pattern: the deciding fact — whether the
//! primary payload carries an invalid-type validation error — sits in
//! the response body, but the transport status must be fixed before any
//! body byte is written.  This interceptor peeks at the first payload
//! of the stream without consuming it, finalizes the status, and leaves
//! the stream to deliver every payload, the peeked one included, in
//! arrival order.

use vstd::prelude::*;
use crate::errclass::invalid_type_tag;
use crate::payload::{PayloadV, payload_has_tag};
use crate::stream::PayloadStream;
use crate::transport::{ResponseHead, STATUS_UNAUTHORIZED};

verus! {

/// Configuration of this interceptor, resolved from process
/// configuration.
#[derive(Debug, Clone, Copy, PartialEq, Eq, Structural)]
pub struct Conf {
    pub enabled: bool,
}

/// Finalizes the outward status from the primary payload.
#[derive(Debug)]
pub struct CatchInvalidTypeError {
    pub configuration: Conf,
}

/// The outward status once the transform has inspected the body: when
/// the interceptor is enabled and the primary payload carries an error
/// tagged as an invalid-type validation failure, the status becomes
/// unauthorized; otherwise it stays as it was.
pub open spec fn finalized_status(enabled: bool, body: Seq<PayloadV>, current: u16) -> u16 {
    if enabled && body.len() > 0 && payload_has_tag(body.first(), "ValidationInvalidTypeVariable"@) {
        STATUS_UNAUTHORIZED
    } else {
        current
    }
}

/// Peek at the primary payload — without consuming it — and fix the
/// outward status before the body starts streaming.  Headers and body
/// are left untouched.
pub fn finalize_from_primary(enabled: bool, body: &PayloadStream, head: &mut ResponseHead)
    ensures
        final(head)@.status == finalized_status(enabled, body@, old(head)@.status),
        final(head)@.headers == old(head)@.headers,
{
    if enabled {
        match body.peek() {
            Some(first) => {
                if first.has_error_tagged(invalid_type_tag()) {
                    head.status = STATUS_UNAUTHORIZED;
                }
            },
            None => {},
        }
    }
}

impl CatchInvalidTypeError {
    /// Build the interceptor from its resolved configuration.
    pub fn new(configuration: Conf) -> (r: Self)
        ensures
            r.configuration == configuration,
    {
        CatchInvalidTypeError { configuration }
    }

    /// Response transform at the stage that owns transport framing:
    /// the peek-then-decide pattern of [`finalize_from_primary`].
    pub fn supergraph_response(&self, body: &PayloadStream, head: &mut ResponseHead)
        ensures
            final(head)@.status == finalized_status(
                self.configuration.enabled,
                body@,
                old(head)@.status,
            ),
            final(head)@.headers == old(head)@.headers,
    {
        finalize_from_primary(self.configuration.enabled, body, head);
    }
}

} // verus!
