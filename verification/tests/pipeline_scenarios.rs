//! Whole-pipeline runs: the end-to-end scenarios, the composition
//! order of the interceptor chain, and context propagation across the
//! streamed body.

use router_pipeline::context::{Context, CtxValue};
use router_pipeline::payload::{ErrorRecord, Payload};
use router_pipeline::pipeline::{
    HeadTransform, PipelineConfig, apply_chain, run_router_request,
};
use router_pipeline::stages::DownstreamCall;
use router_pipeline::stream::PayloadStream;
use router_pipeline::transport::ResponseHead;
use router_pipeline::values::JsonValue;

fn no_plugins() -> PipelineConfig {
    PipelineConfig {
        catch_invalid_type_error: false,
        catch_query_planner_error: false,
        change_status_code: false,
        response_stream_context_propagation: false,
        test_plugin: false,
    }
}

fn schema() -> Vec<String> {
    vec![String::from("me"), String::from("name"), String::from("topProducts")]
}

fn valid_query() -> Vec<String> {
    vec![String::from("me"), String::from("name")]
}

fn invalid_query() -> Vec<String> {
    vec![String::from("me"), String::from("name"), String::from("thisfielddoesntexist")]
}

fn data_payload(text: &str) -> Payload {
    Payload {
        data: Some(JsonValue::Text(String::from(text))),
        errors: vec![],
        extensions: vec![],
    }
}

fn tagged_payload(message: &str) -> Payload {
    Payload {
        data: None,
        errors: vec![ErrorRecord {
            message: String::from(message),
            extensions: vec![(
                String::from("type"),
                JsonValue::Text(String::from("ValidationInvalidTypeVariable")),
            )],
        }],
        extensions: vec![],
    }
}

#[test]
fn bare_pipeline_delivers_payloads_with_default_status() {
    let cfg = no_plugins();
    let produced = vec![data_payload("primary"), data_payload("increment")];
    let out = run_router_request(&cfg, &schema(), &valid_query(), &vec![], produced.clone());
    assert_eq!(out.head.status, 200);
    assert!(out.head.headers.is_empty());
    assert_eq!(out.delivered, produced);
}

#[test]
fn test_plugin_basic_test() {
    let cfg = PipelineConfig { test_plugin: true, ..no_plugins() };

    let out = run_router_request(&cfg, &schema(), &valid_query(), &vec![], vec![data_payload("me")]);
    assert_eq!(out.head.status, 200);
    assert_eq!(out.delivered.len(), 1);

    let out = run_router_request(&cfg, &schema(), &invalid_query(), &vec![], vec![]);
    assert_eq!(out.head.status, 401);
    assert_eq!(out.delivered.len(), 1);
    let errors = &out.delivered[0].errors;
    assert_eq!(errors.len(), 1);
    assert_eq!(errors[0].message, String::from("thisfielddoesntexist"));
    assert_eq!(
        errors[0].extensions,
        vec![(
            String::from("type"),
            JsonValue::Text(String::from("ValidationInvalidTypeVariable")),
        )]
    );
    assert_eq!(out.context.get_num("set_status_code"), Ok(Some(401)));
}

#[test]
fn catch_invalid_type_error_basic_test() {
    let cfg = PipelineConfig { catch_invalid_type_error: true, ..no_plugins() };

    let out = run_router_request(&cfg, &schema(), &valid_query(), &vec![], vec![data_payload("me")]);
    assert_eq!(out.head.status, 200);

    let flagged = tagged_payload("invalid variable for $first");
    let out = run_router_request(&cfg, &schema(), &valid_query(), &vec![], vec![flagged.clone()]);
    assert_eq!(out.head.status, 401);
    assert_eq!(out.delivered, vec![flagged]);
}

#[test]
fn peek_finalizes_from_synthesized_payload() {
    let cfg = PipelineConfig { catch_invalid_type_error: true, ..no_plugins() };
    let out = run_router_request(&cfg, &schema(), &invalid_query(), &vec![], vec![]);
    assert_eq!(out.head.status, 401);
    assert_eq!(out.context.get_num("set_status_code"), Ok(None));
}

#[test]
fn change_status_code_basic_test() {
    let cfg = PipelineConfig { change_status_code: true, ..no_plugins() };
    let calls = vec![DownstreamCall { service: String::from("accounts"), status: 200, millis: 12 }];
    let out = run_router_request(&cfg, &schema(), &valid_query(), &calls, vec![data_payload("me")]);
    assert_eq!(out.head.status, 401);
    assert_eq!(out.delivered.len(), 1);
}

#[test]
fn change_status_code_ignores_unsuccessful_calls() {
    let cfg = PipelineConfig { change_status_code: true, ..no_plugins() };
    let calls = vec![DownstreamCall { service: String::from("accounts"), status: 502, millis: 9 }];
    let out = run_router_request(&cfg, &schema(), &valid_query(), &calls, vec![data_payload("me")]);
    assert_eq!(out.head.status, 200);
}

#[test]
fn catch_query_planner_error_basic_test() {
    let cfg = PipelineConfig { catch_query_planner_error: true, ..no_plugins() };

    let out = run_router_request(&cfg, &schema(), &valid_query(), &vec![], vec![data_payload("me")]);
    assert_eq!(out.head.status, 200);
    assert_eq!(out.delivered.len(), 1);

    let out = run_router_request(&cfg, &schema(), &invalid_query(), &vec![], vec![]);
    assert_eq!(out.delivered.len(), 1);
    assert_eq!(out.delivered[0].errors[0].message, String::from("thisfielddoesntexist"));
}

#[test]
fn response_stream_context_propagation_basic_test() {
    let cfg = PipelineConfig { response_stream_context_propagation: true, ..no_plugins() };
    let calls = vec![
        DownstreamCall { service: String::from("accounts"), status: 200, millis: 12 },
        DownstreamCall { service: String::from("products"), status: 200, millis: 34 },
    ];
    let out = run_router_request(&cfg, &schema(), &valid_query(), &calls, vec![data_payload("me")]);

    assert_eq!(out.head.status, 200);
    assert_eq!(
        out.head.headers,
        vec![
            (String::from("subgraph-response-time-accounts"), String::from("12")),
            (String::from("subgraph-response-time-products"), String::from("34")),
        ]
    );

    assert_eq!(out.delivered.len(), 1);
    assert!(out.delivered[0].data.is_some());

    let log = out
        .context
        .get_timings("subgraph-response-times")
        .expect("well-typed log")
        .expect("log present");
    assert_eq!(log.len(), 2);
    assert_eq!(log[0].service, String::from("accounts"));
    assert_eq!(log[0].millis, 12);
    assert_eq!(log[1].service, String::from("products"));
    assert_eq!(log[1].millis, 34);

    assert_eq!(out.context.get_num("after-first-response-context"), Ok(Some(42)));
}

#[test]
fn context_write_in_inner_stage_is_seen_by_outer_transform() {
    let cfg = PipelineConfig {
        change_status_code: true,
        response_stream_context_propagation: true,
        ..no_plugins()
    };
    let calls = vec![DownstreamCall { service: String::from("accounts"), status: 200, millis: 3 }];
    let out = run_router_request(&cfg, &schema(), &valid_query(), &calls, vec![data_payload("me")]);
    assert_eq!(out.head.status, 401);
    assert_eq!(out.context.get_num("set_status_code"), Ok(Some(401)));
}

#[test]
fn chain_order_mirrors_nesting() {
    let mut ctx = Context::new();
    ctx.insert("set_status_code", CtxValue::Num(500));
    let body = PayloadStream::from_payloads(vec![tagged_payload("invalid variable")]);

    let negotiate_outermost = vec![HeadTransform::PeekFinalize(true), HeadTransform::Negotiate];
    let mut head = ResponseHead::new_ok();
    apply_chain(&negotiate_outermost, &ctx, &body, &mut head);
    assert_eq!(head.status, 500);

    let peek_outermost = vec![HeadTransform::Negotiate, HeadTransform::PeekFinalize(true)];
    let mut head = ResponseHead::new_ok();
    apply_chain(&peek_outermost, &ctx, &body, &mut head);
    assert_eq!(head.status, 401);
}

#[test]
fn empty_body_leaves_stream_marker_unwritten() {
    let cfg = PipelineConfig { response_stream_context_propagation: true, ..no_plugins() };
    let out = run_router_request(&cfg, &schema(), &valid_query(), &vec![], vec![]);
    assert_eq!(out.head.status, 200);
    assert!(out.delivered.is_empty());
    assert_eq!(out.context.get_num("after-first-response-context"), Ok(None));
    assert_eq!(out.context.get_flag("debug"), Ok(Some(true)));
}

#[test]
fn incremental_payloads_survive_in_order() {
    let cfg = PipelineConfig { response_stream_context_propagation: true, ..no_plugins() };
    let produced = vec![data_payload("primary"), data_payload("a"), data_payload("b")];
    let out = run_router_request(&cfg, &schema(), &valid_query(), &vec![], produced.clone());
    assert_eq!(out.delivered, produced);
    assert_eq!(out.context.get_num("after-first-response-context"), Ok(Some(42)));
}
