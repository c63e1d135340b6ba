//! An interceptor skeleton around the planning stage: it applies the
//! negotiated status at the outermost boundary and wraps the planning
//! call's future, but the wrapper currently only hands the outcome
//! through untouched — the narrowing it would do is the business of
//! [`crate::plugins::test_plugin`].

use vstd::prelude::*;
use crate::context::Context;
use crate::errclass::OpaqueError;
use crate::stages::QueryPlan;
use crate::transport::{ResponseHead, apply_negotiated_status, negotiated_status};

verus! {

/// Configuration of this interceptor, resolved from process
/// configuration.
#[derive(Debug, Clone, Copy, PartialEq, Eq, Structural)]
pub struct Conf {
    pub enabled: bool,
}

/// Applies the negotiated status; observes planning without acting.
#[derive(Debug)]
pub struct CatchQueryPlannerError {
    pub configuration: Conf,
}

impl CatchQueryPlannerError {
    /// Build the interceptor from its resolved configuration.
    pub fn new(configuration: Conf) -> (r: Self)
        ensures
            r.configuration == configuration,
    {
        CatchQueryPlannerError { configuration }
    }

    /// Outermost response transform: apply whatever status an inner
    /// stage negotiated through the context, touching nothing else.
    pub fn router_response(&self, ctx: &Context, head: &mut ResponseHead)
        ensures
            final(head)@.status == negotiated_status(ctx@, old(head)@.status),
            final(head)@.headers == old(head)@.headers,
    {
        apply_negotiated_status(ctx, head);
    }

    /// Future wrapper of the planning stage: pass the outcome through
    /// exactly as the inner call produced it.
    pub fn planning_passthrough(&self, outcome: Result<QueryPlan, OpaqueError>) -> (r: Result<
        QueryPlan,
        OpaqueError,
    >)
        ensures
            r == outcome,
    {
        outcome
    }
}

} // verus!
