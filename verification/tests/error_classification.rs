//! Narrowing an opaque error to the one leaf kind an interceptor
//! reacts to: a wrapped invalid-type failure triggers the context side
//! effect; anything else passes through with no side effect at all.

use router_pipeline::context::Context;
use router_pipeline::errclass::{
    CacheFailure, OpaqueError, PlannerFailure, SpecFailure, invalid_type_message,
};
use router_pipeline::plugins::test_plugin::{Conf, TestPlugin};
use router_pipeline::stages::QueryPlan;

fn invalid_type_error(message: &str) -> OpaqueError {
    OpaqueError::Cache(CacheFailure::Retrieval(PlannerFailure::Spec(SpecFailure::InvalidType(
        String::from(message),
    ))))
}

#[test]
fn wrapped_invalid_type_error_is_narrowed() {
    let e = invalid_type_error("got an invalid type");
    assert_eq!(invalid_type_message(&e), Some(&String::from("got an invalid type")));
}

#[test]
fn unrelated_leaf_is_not_narrowed() {
    let parse = OpaqueError::Cache(CacheFailure::Retrieval(PlannerFailure::Spec(
        SpecFailure::ParseFailure(String::from("unbalanced braces")),
    )));
    assert_eq!(invalid_type_message(&parse), None);

    let internal = OpaqueError::Cache(CacheFailure::Retrieval(PlannerFailure::Internal(
        String::from("planner gave up"),
    )));
    assert_eq!(invalid_type_message(&internal), None);

    let transport = OpaqueError::Transport(String::from("connection reset"));
    assert_eq!(invalid_type_message(&transport), None);
}

#[test]
fn narrowed_error_triggers_context_side_effect() {
    let plugin = TestPlugin::new(Conf { enabled: true });
    let mut ctx = Context::new();
    let outcome: Result<QueryPlan, OpaqueError> = Err(invalid_type_error("bad variable"));
    let handed_back = plugin.planning_observed(&mut ctx, outcome);
    assert_eq!(handed_back, Err(invalid_type_error("bad variable")));
    assert_eq!(ctx.get_num("set_status_code"), Ok(Some(401)));
}

#[test]
fn unrelated_error_passes_through_with_zero_side_effects() {
    let plugin = TestPlugin::new(Conf { enabled: true });
    let mut ctx = Context::new();
    let outcome: Result<QueryPlan, OpaqueError> =
        Err(OpaqueError::Transport(String::from("connection reset")));
    let handed_back = plugin.planning_observed(&mut ctx, outcome);
    assert_eq!(handed_back, Err(OpaqueError::Transport(String::from("connection reset"))));
    assert_eq!(ctx.get_num("set_status_code"), Ok(None));
}

#[test]
fn successful_outcome_passes_through_untouched() {
    let plugin = TestPlugin::new(Conf { enabled: true });
    let mut ctx = Context::new();
    let outcome: Result<QueryPlan, OpaqueError> =
        Ok(QueryPlan { fields: vec![String::from("me")] });
    let handed_back = plugin.planning_observed(&mut ctx, outcome);
    assert_eq!(handed_back, Ok(QueryPlan { fields: vec![String::from("me")] }));
    assert_eq!(ctx.get_num("set_status_code"), Ok(None));
}
