//! Composition: the interceptor chain over the transport head, and the
//! whole pipeline run for one inbound request.
//!
//! Transforms compose like nested function calls: request transforms
//! run outer-to-inner before the inner stage is invoked, and response
//! transforms run inner-to-outer after it returns.  A chain is a
//! sequence of head transforms, innermost first; pushing a transform
//! onto the chain wraps it around everything already there, so it runs
//! last.  No transform may assume it is the only one present.

use vstd::prelude::*;
use crate::context::{Context, ContextError, CtxMap, CtxValueV, TimingV, spec_get_num, timing_log};
use crate::errclass::{OpaqueError, invalid_type_message};
use crate::payload::{Payload, PayloadV};
use crate::plugins::catch_invalid_type_error::{finalize_from_primary, finalized_status};
use crate::plugins::catch_query_planner_error::{CatchQueryPlannerError, Conf as CqpConf};
use crate::plugins::change_status_code::{ChangeStatusCode, Conf as CscConf};
use crate::plugins::response_stream_context_propagation::{
    Conf as RscpConf, MARKER_VALUE, ResponseStreamContextPropagation, append_debug_headers,
    spec_debug_head, spec_debug_log, timing_headers,
};
use crate::plugins::test_plugin::{Conf as TpConf, TestPlugin};
use crate::stages::{
    DownstreamCall, DownstreamCallV, QueryPlan, all_fields_known, first_unknown,
    payload_from_invalid_type, plan, spec_invalid_type_payload,
};
use crate::stream::{PayloadStream, payload_views};
use crate::transport::{
    ResponseHead, ResponseHeadV, STATUS_OK, STATUS_UNAUTHORIZED, apply_negotiated_status,
    negotiated_status,
};
use crate::values::string_views;

verus! {

/// One interceptor's transform of the outward response head, run after
/// the inner call has returned.
#[derive(Debug, Clone, Copy, PartialEq, Eq, Structural)]
pub enum HeadTransform {
    /// Apply the status an inner stage negotiated through the context.
    Negotiate,
    /// Surface the recorded downstream timings as headers, in debug
    /// mode.
    DebugHeaders,
    /// Peek at the primary payload and finalize the status from it;
    /// the flag is the owning interceptor's `enabled` configuration.
    PeekFinalize(bool),
}

/// What one head transform does, as a function of the shared context,
/// the (inspected, never consumed) body, and the head so far.
pub open spec fn apply_head_transform_spec(
    t: HeadTransform,
    m: CtxMap,
    body: Seq<PayloadV>,
    h: ResponseHeadV,
) -> ResponseHeadV {
    match t {
        HeadTransform::Negotiate => ResponseHeadV {
            status: negotiated_status(m, h.status),
            headers: h.headers,
        },
        HeadTransform::DebugHeaders => spec_debug_head(m, h),
        HeadTransform::PeekFinalize(enabled) => ResponseHeadV {
            status: finalized_status(enabled, body, h.status),
            headers: h.headers,
        },
    }
}

/// A whole chain, innermost transform first, applied in order.
pub open spec fn apply_chain_spec(
    ts: Seq<HeadTransform>,
    m: CtxMap,
    body: Seq<PayloadV>,
    h: ResponseHeadV,
) -> ResponseHeadV
    decreases ts.len(),
{
    if ts.len() == 0 {
        h
    } else {
        apply_chain_spec(ts.drop_first(), m, body, apply_head_transform_spec(ts.first(), m, body, h))
    }
}

/// Law: composition mirrors nested calls.  Pushing a transform onto a
/// chain makes it the outermost interceptor: the new chain behaves as
/// the old chain followed by that one transform, for every context,
/// body and starting head.
pub proof fn lemma_chain_outermost_last(
    ts: Seq<HeadTransform>,
    t: HeadTransform,
    m: CtxMap,
    body: Seq<PayloadV>,
    h: ResponseHeadV,
)
    ensures
        apply_chain_spec(ts.push(t), m, body, h) == apply_head_transform_spec(
            t,
            m,
            body,
            apply_chain_spec(ts, m, body, h),
        ),
    decreases ts.len(),
{
    if ts.len() == 0 {
        assert(ts.push(t).first() == t);
        assert(ts.push(t).drop_first() =~= Seq::<HeadTransform>::empty());
        assert(apply_chain_spec(ts, m, body, h) == h);
        assert(apply_chain_spec(ts.push(t).drop_first(), m, body, apply_head_transform_spec(
            t, m, body, h)) == apply_head_transform_spec(t, m, body, h));
    } else {
        assert(ts.push(t).first() == ts.first());
        assert(ts.push(t).drop_first() =~= ts.drop_first().push(t));
        lemma_chain_outermost_last(
            ts.drop_first(),
            t,
            m,
            body,
            apply_head_transform_spec(ts.first(), m, body, h),
        );
    }
}

/// Run one head transform.
pub fn apply_head_transform(
    t: &HeadTransform,
    ctx: &Context,
    body: &PayloadStream,
    head: &mut ResponseHead,
)
    ensures
        final(head)@ == apply_head_transform_spec(*t, ctx@, body@, old(head)@),
{
    match t {
        HeadTransform::Negotiate => {
            apply_negotiated_status(ctx, head);
        },
        HeadTransform::DebugHeaders => {
            append_debug_headers(ctx, head);
        },
        HeadTransform::PeekFinalize(enabled) => {
            finalize_from_primary(*enabled, body, head);
        },
    }
}

/// Run a whole chain of head transforms, innermost first.  The body is
/// only inspected, never consumed; the context is only read.
pub fn apply_chain(
    ts: &Vec<HeadTransform>,
    ctx: &Context,
    body: &PayloadStream,
    head: &mut ResponseHead,
)
    ensures
        final(head)@ == apply_chain_spec(ts@, ctx@, body@, old(head)@),
{
    proof {
        assert(ts@.skip(0) =~= ts@);
    }
    let mut i: usize = 0;
    while i < ts.len()
        invariant
            i <= ts.len(),
            apply_chain_spec(ts@.skip(i as int), ctx@, body@, head@) == apply_chain_spec(
                ts@,
                ctx@,
                body@,
                old(head)@,
            ),
        decreases ts.len() - i,
    {
        proof {
            assert(ts@.skip(i as int).first() == ts@[i as int]);
            assert(ts@.skip(i as int).drop_first() =~= ts@.skip(i + 1));
        }
        apply_head_transform(&ts[i], ctx, body, head);
        i = i + 1;
    }
    proof {
        assert(ts@.skip(ts@.len() as int) =~= Seq::<HeadTransform>::empty());
    }
}

/// Which interceptors the process configuration enables: the explicit
/// registry value the pipeline is built from.
#[derive(Debug, Clone, Copy, PartialEq, Eq, Structural)]
pub struct PipelineConfig {
    pub catch_invalid_type_error: bool,
    pub catch_query_planner_error: bool,
    pub change_status_code: bool,
    pub response_stream_context_propagation: bool,
    pub test_plugin: bool,
}

/// The outward result of one pipeline run: the transport head, the
/// delivered payloads in arrival order, and the context as the request
/// left it.
#[derive(Debug)]
pub struct RouterOutcome {
    pub head: ResponseHead,
    pub delivered: Vec<Payload>,
    pub context: Context,
}

/// The models of the downstream calls.
pub open spec fn call_views(s: Seq<DownstreamCall>) -> Seq<DownstreamCallV> {
    s.map_values(|c: DownstreamCall| c@)
}

/// The timing entries the downstream calls give rise to, in call order.
pub open spec fn spec_call_timings(calls: Seq<DownstreamCallV>) -> Seq<TimingV> {
    calls.map_values(|c: DownstreamCallV| TimingV { service: c.service, millis: c.millis })
}

/// The body the pipeline streams outward: what the execution stage
/// produced when planning succeeded, else the one synthesized payload
/// carrying the validation error.
pub open spec fn spec_body(
    schema: Seq<Seq<char>>,
    query: Seq<Seq<char>>,
    produced: Seq<PayloadV>,
) -> Seq<PayloadV> {
    if all_fields_known(schema, query) {
        produced
    } else {
        seq![spec_invalid_type_payload(first_unknown(schema, query))]
    }
}

/// Whether some inner stage negotiates the unauthorized status for this
/// request: the planning observer does when planning fails validation;
/// the downstream-call transform does when some call answers with the
/// plain success status.
pub open spec fn spec_negotiation_flagged(
    cfg: PipelineConfig,
    schema: Seq<Seq<char>>,
    query: Seq<Seq<char>>,
    calls: Seq<DownstreamCallV>,
) -> bool {
    if all_fields_known(schema, query) {
        cfg.change_status_code && exists|i: int|
            0 <= i < calls.len() && (#[trigger] calls[i]).status == STATUS_OK
    } else {
        cfg.test_plugin
    }
}

/// The outward status of the whole run: a negotiated override wins;
/// otherwise the status the peek-then-decide transform finalized from
/// the primary payload, starting from the default success status.
pub open spec fn spec_outward_status(
    cfg: PipelineConfig,
    schema: Seq<Seq<char>>,
    query: Seq<Seq<char>>,
    calls: Seq<DownstreamCallV>,
    produced: Seq<PayloadV>,
) -> u16 {
    if spec_negotiation_flagged(cfg, schema, query, calls) {
        STATUS_UNAUTHORIZED
    } else {
        finalized_status(
            cfg.catch_invalid_type_error,
            spec_body(schema, query, produced),
            STATUS_OK,
        )
    }
}

/// The outward headers of the whole run: one header per recorded
/// downstream call when context propagation is on and the calls ran.
pub open spec fn spec_outward_headers(
    cfg: PipelineConfig,
    schema: Seq<Seq<char>>,
    query: Seq<Seq<char>>,
    calls: Seq<DownstreamCallV>,
) -> Seq<(Seq<char>, Seq<char>)> {
    if cfg.response_stream_context_propagation && all_fields_known(schema, query) {
        timing_headers(spec_call_timings(calls))
    } else {
        Seq::empty()
    }
}

/// The context keys the stages use are pairwise distinct.
proof fn lemma_keys_distinct()
    ensures
        "set_status_code"@ != "debug"@,
        "set_status_code"@ != "subgraph-response-times"@,
        "set_status_code"@ != "after-first-response-context"@,
        "debug"@ != "subgraph-response-times"@,
        "debug"@ != "after-first-response-context"@,
        "subgraph-response-times"@ != "after-first-response-context"@,
{
    reveal_strlit("set_status_code");
    reveal_strlit("debug");
    reveal_strlit("subgraph-response-times");
    reveal_strlit("after-first-response-context");
    assert("set_status_code"@.len() == 15);
    assert("debug"@.len() == 5);
    assert("subgraph-response-times"@.len() == 23);
    assert("after-first-response-context"@.len() == 28);
}

/// Run the whole pipeline for one inbound request.
///
/// The host hands in what the out-of-scope collaborators did: `schema`
/// is the set of fields the schema knows, `query` the fields the
/// request asks for, `calls` the transport outcome of each downstream
/// call the execution stage would make, and `produced` the payloads it
/// would assemble.  The run threads one fresh context through every
/// stage, wraps the planning future, runs the downstream-call wrappers,
/// applies the head transforms innermost-first, and then drives the
/// body stream step by step — the execution-side payload handler
/// writing the marker each router-side handler then demands.
pub fn run_router_request(
    cfg: &PipelineConfig,
    schema: &Vec<String>,
    query: &Vec<String>,
    calls: &Vec<DownstreamCall>,
    produced: Vec<Payload>,
) -> (r: RouterOutcome)
    ensures
        r.head@.status == spec_outward_status(
            *cfg,
            string_views(schema@),
            string_views(query@),
            call_views(calls@),
            payload_views(produced@),
        ),
        r.head@.headers == spec_outward_headers(
            *cfg,
            string_views(schema@),
            string_views(query@),
            call_views(calls@),
        ),
        payload_views(r.delivered@) == spec_body(
            string_views(schema@),
            string_views(query@),
            payload_views(produced@),
        ),
        cfg.response_stream_context_propagation && all_fields_known(
            string_views(schema@),
            string_views(query@),
        ) ==> timing_log(r.context@, "subgraph-response-times"@) == spec_call_timings(
            call_views(calls@),
        ),
        cfg.response_stream_context_propagation && all_fields_known(
            string_views(schema@),
            string_views(query@),
        ) && produced@.len() > 0 ==> spec_get_num(r.context@, "after-first-response-context"@)
            == Ok::<Option<u64>, ContextError>(Some(MARKER_VALUE)),
        spec_get_num(r.context@, "set_status_code"@) == if spec_negotiation_flagged(
            *cfg,
            string_views(schema@),
            string_views(query@),
            call_views(calls@),
        ) {
            Ok::<Option<u64>, ContextError>(Some(STATUS_UNAUTHORIZED as u64))
        } else {
            Ok::<Option<u64>, ContextError>(None)
        },
{
    let ghost sv = string_views(schema@);
    let ghost qv = string_views(query@);
    let ghost cv = call_views(calls@);
    let ghost pv = payload_views(produced@);
    proof {
        lemma_keys_distinct();
    }

    let mut ctx = Context::new();

    // Planning stage, wrapped by the planning interceptors (future
    // wrappers run inner-to-outer as the call returns).
    let planned: Result<QueryPlan, OpaqueError> = plan(schema, query);
    let planned = if cfg.catch_query_planner_error {
        let plugin = CatchQueryPlannerError::new(CqpConf { enabled: true });
        plugin.planning_passthrough(planned)
    } else {
        planned
    };
    let planned = if cfg.test_plugin {
        let plugin = TestPlugin::new(TpConf { enabled: true });
        plugin.planning_observed(&mut ctx, planned)
    } else {
        planned
    };

    let body_payloads: Vec<Payload> = match planned {
        Err(e) => {
            // Domain failure: the call still "succeeds" at the stage
            // contract level — the host synthesizes a payload whose
            // errors carry the validation diagnostic.
            match invalid_type_message(&e) {
                Some(message) => {
                    let p = payload_from_invalid_type(message);
                    let mut v: Vec<Payload> = Vec::new();
                    v.push(p);
                    proof {
                        assert(payload_views(v@) =~= seq![
                            spec_invalid_type_payload(first_unknown(sv, qv)),
                        ]);
                    }
                    v
                },
                None => {
                    // Planning fails only with the invalid-type
                    // validation error, which always narrows.
                    proof {
                        assert(false);
                    }
                    unreached()
                },
            }
        },
        Ok(_plan) => {
            // Execution stage: the downstream calls, each wrapped by the
            // subgraph-level interceptors.
            let csc = ChangeStatusCode::new(CscConf { enabled: true });
            let rscp = ResponseStreamContextPropagation::new(RscpConf { enabled: true });
            let mut i: usize = 0;
            while i < calls.len()
                invariant
                    i <= calls.len(),
                    cv == call_views(calls@),
                    cfg.change_status_code && (exists|j: int|
                        0 <= j < i && (#[trigger] cv[j]).status == STATUS_OK) ==> (
                    ctx@.contains_key("set_status_code"@) && ctx@["set_status_code"@]
                        == CtxValueV::Num(STATUS_UNAUTHORIZED as u64)),
                    !(cfg.change_status_code && (exists|j: int|
                        0 <= j < i && (#[trigger] cv[j]).status == STATUS_OK)) ==> !ctx@.contains_key(
                        "set_status_code"@,
                    ),
                    cfg.response_stream_context_propagation ==> timing_log(
                        ctx@,
                        "subgraph-response-times"@,
                    ) == spec_call_timings(cv.take(i as int)),
                    cfg.response_stream_context_propagation ==> (!ctx@.contains_key(
                        "subgraph-response-times"@,
                    ) || ctx@["subgraph-response-times"@] is Timings),
                    !cfg.response_stream_context_propagation ==> !ctx@.contains_key(
                        "subgraph-response-times"@,
                    ),
                    !ctx@.contains_key("debug"@),
                    !ctx@.contains_key("after-first-response-context"@),
                decreases calls.len() - i,
            {
                proof {
                    lemma_keys_distinct();
                    assert(cv[i as int] == calls@[i as int]@);
                }
                if cfg.change_status_code {
                    csc.subgraph_response(&mut ctx, calls[i].status);
                    proof {
                        if calls@[i as int].status == STATUS_OK {
                            assert(cv[i as int].status == STATUS_OK);
                            assert(exists|j: int|
                                0 <= j < i + 1 && (#[trigger] cv[j]).status == STATUS_OK);
                        }
                    }
                }
                if cfg.response_stream_context_propagation {
                    let ghost pre = ctx@;
                    match rscp.subgraph_observed(&mut ctx, calls[i].service.as_str(), calls[i].millis) {
                        Ok(_) => {
                            proof {
                                assert(timing_log(ctx@, "subgraph-response-times"@)
                                    =~= timing_log(pre, "subgraph-response-times"@).push(
                                    TimingV { service: cv[i as int].service, millis: cv[i as int].millis },
                                ));
                                assert(spec_call_timings(cv.take(i + 1)) =~= spec_call_timings(
                                    cv.take(i as int),
                                ).push(
                                    TimingV { service: cv[i as int].service, millis: cv[i as int].millis },
                                ));
                            }
                        },
                        Err(_) => {
                            // The timings key holds a log or nothing
                            // here, so the append cannot mismatch.
                            proof {
                                assert(false);
                            }
                        },
                    }
                }
                i = i + 1;
            }
            proof {
                assert(cv.take(cv.len() as int) =~= cv);
            }
            // Execution-stage response transform: turn on debug handling.
            if cfg.response_stream_context_propagation {
                rscp.execution_response(&mut ctx);
            }
            produced
        },
    };

    // The outermost boundary: the body becomes the peekable stream, and
    // the head transforms run innermost-first over the fixed context.
    let mut body = PayloadStream::from_payloads(body_payloads);
    let mut head = ResponseHead::new_ok();
    let ghost m = ctx@;
    let ghost b = body@;
    let ghost h0 = head@;

    let mut chain: Vec<HeadTransform> = Vec::new();
    chain.push(HeadTransform::PeekFinalize(cfg.catch_invalid_type_error));
    let ghost c1 = chain@;
    if cfg.response_stream_context_propagation {
        chain.push(HeadTransform::DebugHeaders);
    }
    let ghost c2 = chain@;
    if cfg.change_status_code || cfg.test_plugin || cfg.catch_query_planner_error {
        chain.push(HeadTransform::Negotiate);
    }

    apply_chain(&chain, &ctx, &body, &mut head);

    proof {
        let t1 = HeadTransform::PeekFinalize(cfg.catch_invalid_type_error);
        assert(c1 =~= Seq::<HeadTransform>::empty().push(t1));
        lemma_chain_outermost_last(Seq::empty(), t1, m, b, h0);
        let h1 = apply_head_transform_spec(t1, m, b, h0);
        assert(apply_chain_spec(c1, m, b, h0) == h1);
        lemma_chain_outermost_last(c1, HeadTransform::DebugHeaders, m, b, h0);
        lemma_chain_outermost_last(c2, HeadTransform::Negotiate, m, b, h0);
        assert(spec_debug_log(m) == timing_log(m, "subgraph-response-times"@));
        assert(h0.headers =~= Seq::<(Seq<char>, Seq<char>)>::empty());
        assert(Seq::<(Seq<char>, Seq<char>)>::empty() + timing_headers(spec_debug_log(m))
            =~= timing_headers(spec_debug_log(m)));
        assert(b == spec_body(sv, qv, pv));
        assert(head@.status == spec_outward_status(*cfg, sv, qv, cv, pv));
        assert(head@.headers == spec_outward_headers(*cfg, sv, qv, cv));
    }

    // Drive the body: each payload passes the stream wrappers inner to
    // outer — the execution-side handler writes the marker, and the
    // router-side handler's precondition (the marker is visible) is
    // discharged by that very order.
    let ghost m0 = ctx@;
    let ghost b0 = body@;
    let mut delivered: Vec<Payload> = Vec::new();
    proof {
        // The marker is not yet set when the head transforms run: only
        // the per-payload handlers below write it.
        assert(!m0.contains_key("after-first-response-context"@));
        assert(payload_views(delivered@) + body@ =~= b0);
    }
    loop
        invariant
            cfg.response_stream_context_propagation ==> (if delivered@.len() == 0 {
                ctx@ == m0
            } else {
                ctx@ == m0.insert("after-first-response-context"@, CtxValueV::Num(MARKER_VALUE))
            }),
            !cfg.response_stream_context_propagation ==> ctx@ == m0,
            payload_views(delivered@) + body@ == b0,
        ensures
            payload_views(delivered@) == b0,
            body@.len() == 0,
            cfg.response_stream_context_propagation ==> (if delivered@.len() == 0 {
                ctx@ == m0
            } else {
                ctx@ == m0.insert("after-first-response-context"@, CtxValueV::Num(MARKER_VALUE))
            }),
            !cfg.response_stream_context_propagation ==> ctx@ == m0,
        decreases body@.len(),
    {
        let ghost pre_delivered = delivered@;
        match body.next() {
            Some(p) => {
                let p2 = if cfg.response_stream_context_propagation {
                    let ghost pre = ctx@;
                    let p1 = ResponseStreamContextPropagation::handle_execution_payload(
                        &mut ctx,
                        p,
                    );
                    proof {
                        if pre_delivered.len() > 0 {
                            assert(ctx@ =~= m0.insert(
                                "after-first-response-context"@,
                                CtxValueV::Num(MARKER_VALUE),
                            ));
                        }
                    }
                    ResponseStreamContextPropagation::handle_router_payload(&ctx, p1)
                } else {
                    p
                };
                delivered.push(p2);
                proof {
                    assert(payload_views(delivered@) =~= payload_views(pre_delivered).push(p2@));
                    assert(payload_views(delivered@) + body@ =~= b0);
                }
            },
            None => {
                proof {
                    assert(payload_views(delivered@) + body@ =~= payload_views(delivered@));
                }
                break;
            },
        }
    }

    proof {
        lemma_keys_distinct();
        if cfg.response_stream_context_propagation && all_fields_known(sv, qv) {
            assert(timing_log(ctx@, "subgraph-response-times"@) == spec_call_timings(cv));
        }
        assert(spec_get_num(ctx@, "set_status_code"@) == spec_get_num(m0, "set_status_code"@));
    }

    RouterOutcome { head, delivered, context: ctx }
}

} // verus!
