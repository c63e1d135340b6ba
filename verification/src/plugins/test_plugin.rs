//! An interceptor that reacts to exactly one leaf error kind: it wraps
//! the planning stage's in-flight call, narrows an opaque failure to
//! the invalid-type validation leaf, and — since it cannot touch the
//! outward transport response from this depth — records the
//! unauthorized status in the context for the outermost stage.  The
//! outcome itself is handed back unchanged, classified or not.

use vstd::prelude::*;
use crate::context::{Context, CtxMap, CtxValue, CtxValueV};
use crate::errclass::{OpaqueError, OpaqueErrorV, invalid_type_message, spec_invalid_type_message};
use crate::stages::QueryPlan;
use crate::transport::{
    ResponseHead, STATUS_UNAUTHORIZED, apply_negotiated_status, negotiated_status, negotiation_key,
};

verus! {

/// Configuration of this interceptor, resolved from process
/// configuration.
#[derive(Debug, Clone, Copy, PartialEq, Eq, Structural)]
pub struct Conf {
    pub enabled: bool,
}

/// Narrows planning failures and negotiates the unauthorized status
/// for the invalid-type kind.
#[derive(Debug)]
pub struct TestPlugin {
    pub configuration: Conf,
}

/// The context after the planning observer has seen the opaque error
/// `e`: narrowing it to the invalid-type leaf records the unauthorized
/// status; any other error leaves the context untouched.
pub open spec fn spec_observe_planner_error(m: CtxMap, e: OpaqueErrorV) -> CtxMap {
    if spec_invalid_type_message(e) is Some {
        m.insert("set_status_code"@, CtxValueV::Num(STATUS_UNAUTHORIZED as u64))
    } else {
        m
    }
}

impl TestPlugin {
    /// Build the interceptor from its resolved configuration.
    pub fn new(configuration: Conf) -> (r: Self)
        ensures
            r.configuration == configuration,
    {
        TestPlugin { configuration }
    }

    /// Outermost response transform: apply whatever status an inner
    /// stage negotiated through the context, touching nothing else.
    pub fn router_response(&self, ctx: &Context, head: &mut ResponseHead)
        ensures
            final(head)@.status == negotiated_status(ctx@, old(head)@.status),
            final(head)@.headers == old(head)@.headers,
    {
        apply_negotiated_status(ctx, head);
    }

    /// Future wrapper of the planning stage: observe how the in-flight
    /// call came out, classify a failure, and pass the outcome through
    /// unchanged — the only side effect is the context record, and only
    /// for the one error kind this interceptor reacts to.
    pub fn planning_observed(&self, ctx: &mut Context, outcome: Result<QueryPlan, OpaqueError>)
        -> (r: Result<QueryPlan, OpaqueError>)
        ensures
            r == outcome,
            final(ctx)@ == match outcome {
                Ok(_) => old(ctx)@,
                Err(e) => spec_observe_planner_error(old(ctx)@, e@),
            },
    {
        match &outcome {
            Err(e) => {
                match invalid_type_message(e) {
                    Some(_message) => {
                        ctx.insert(negotiation_key(), CtxValue::Num(STATUS_UNAUTHORIZED as u64));
                    },
                    None => {},
                }
            },
            Ok(_) => {},
        }
        outcome
    }
}

} // verus!
