//! An interceptor pair demonstrating the status negotiation protocol
//! end to end: the downstream-call stage cannot touch the outward
//! transport response, so it records its intent in the context, and the
//! outermost stage's response transform applies it.

use vstd::prelude::*;
use crate::context::{Context, CtxMap, CtxValue, CtxValueV};
use crate::transport::{
    ResponseHead, STATUS_OK, STATUS_UNAUTHORIZED, apply_negotiated_status, negotiated_status,
    negotiation_key,
};

verus! {

/// Configuration of this interceptor, resolved from process
/// configuration.
#[derive(Debug, Clone, Copy, PartialEq, Eq, Structural)]
pub struct Conf {
    pub enabled: bool,
}

/// Turns a downstream call's plain success into a negotiated
/// unauthorized status.
#[derive(Debug)]
pub struct ChangeStatusCode {
    pub configuration: Conf,
}

/// The context after the downstream-call response transform has seen a
/// call answer with `status`: a plain success is flagged for override.
pub open spec fn spec_flag_success(m: CtxMap, status: u16) -> CtxMap {
    if status == STATUS_OK {
        m.insert("set_status_code"@, CtxValueV::Num(STATUS_UNAUTHORIZED as u64))
    } else {
        m
    }
}

impl ChangeStatusCode {
    /// Build the interceptor from its resolved configuration.
    pub fn new(configuration: Conf) -> (r: Self)
        ensures
            r.configuration == configuration,
    {
        ChangeStatusCode { configuration }
    }

    /// Outermost response transform: apply whatever status an inner
    /// stage negotiated through the context, touching nothing else.
    pub fn router_response(&self, ctx: &Context, head: &mut ResponseHead)
        ensures
            final(head)@.status == negotiated_status(ctx@, old(head)@.status),
            final(head)@.headers == old(head)@.headers,
    {
        apply_negotiated_status(ctx, head);
    }

    /// Downstream-call response transform: when the call answered with
    /// the plain success status, record the unauthorized status under
    /// the negotiation key for the outermost stage to pick up later.
    pub fn subgraph_response(&self, ctx: &mut Context, status: u16)
        ensures
            final(ctx)@ == spec_flag_success(old(ctx)@, status),
    {
        if status == STATUS_OK {
            ctx.insert(negotiation_key(), CtxValue::Num(STATUS_UNAUTHORIZED as u64));
        }
    }
}

} // verus!
