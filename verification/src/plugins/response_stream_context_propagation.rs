//! Context propagation across the whole asynchronous lifecycle of one
//! request: a downstream-call wrapper appends the call's elapsed time
//! to a shared log with an atomic read-modify-write; the execution
//! stage's response transform turns on debug handling and marks each
//! payload as it is pulled; the outermost response transform reads the
//! accumulated log — after the inner call has returned — and surfaces
//! it as response headers.
//!
//! The payload-step handlers make the happens-before relationship an
//! explicit contract: the router-side handler demands that the marker
//! the execution-side handler writes is already visible, which the
//! pipeline proves from its processing order instead of asserting at
//! run time.

use vstd::prelude::*;
use crate::context::{
    Context, ContextError, CtxMap, CtxValue, CtxValueV, Timing, TimingV, spec_get_flag,
    spec_get_num, spec_get_timings, upsert_step,
};
use crate::payload::Payload;
use crate::transport::ResponseHead;

verus! {

/// Configuration of this interceptor, resolved from process
/// configuration.
#[derive(Debug, Clone, Copy, PartialEq, Eq, Structural)]
pub struct Conf {
    pub enabled: bool,
}

/// Propagates facts between stages through the shared context while
/// the response body is still streaming.
#[derive(Debug)]
pub struct ResponseStreamContextPropagation {
    pub configuration: Conf,
}

/// The context key that turns on debug handling for the request.
pub fn debug_key() -> (r: &'static str)
    ensures
        r@ == "debug"@,
{
    "debug"
}

/// The context key under which per-call response times accumulate.
pub fn timings_key() -> (r: &'static str)
    ensures
        r@ == "subgraph-response-times"@,
{
    "subgraph-response-times"
}

/// The context key the execution-side payload handler writes and the
/// router-side payload handler reads.
pub fn marker_key() -> (r: &'static str)
    ensures
        r@ == "after-first-response-context"@,
{
    "after-first-response-context"
}

/// The value stored under the marker key.
pub const MARKER_VALUE: u64 = 42;

/// The decimal digit character for `d`.
pub open spec fn dec_digit(d: int) -> char {
    if d == 0 {
        '0'
    } else if d == 1 {
        '1'
    } else if d == 2 {
        '2'
    } else if d == 3 {
        '3'
    } else if d == 4 {
        '4'
    } else if d == 5 {
        '5'
    } else if d == 6 {
        '6'
    } else if d == 7 {
        '7'
    } else if d == 8 {
        '8'
    } else {
        '9'
    }
}

/// The decimal rendering of a number, most significant digit first.
pub open spec fn dec_digits(n: int) -> Seq<char>
    decreases n,
{
    if n < 10 {
        seq![dec_digit(n)]
    } else {
        dec_digits(n / 10).push(dec_digit(n % 10))
    }
}

/// Relies on the `Display` implementation of `u64` through `format!`:
/// it renders the number in base ten, without sign, padding or
/// separators.
#[verifier::external_body]
fn decimal_string(n: u64) -> (r: String)
    ensures
        r@ == dec_digits(n as int),
{
    format!("{}", n)
}

/// The header a recorded timing becomes: the service name appended to
/// a fixed prefix, and the elapsed milliseconds in decimal.
pub open spec fn timing_header_of(t: TimingV) -> (Seq<char>, Seq<char>) {
    ("subgraph-response-time-"@ + t.service, dec_digits(t.millis as int))
}

/// The headers a whole timing log becomes, in log order.
pub open spec fn timing_headers(ts: Seq<TimingV>) -> Seq<(Seq<char>, Seq<char>)> {
    ts.map_values(|t: TimingV| timing_header_of(t))
}

/// Build the header for one recorded timing.
fn timing_header(t: &Timing) -> (r: (String, String))
    ensures
        (r.0@, r.1@) == timing_header_of(t@),
{
    let name = String::from_str("subgraph-response-time-").concat(t.service.as_str());
    let value = decimal_string(t.millis);
    (name, value)
}

/// The timing log the debug transform surfaces: what the context holds
/// under the timings key, or nothing when the key is absent or — the
/// safe fallback for a malformed store — holds another type.
pub open spec fn spec_debug_log(m: CtxMap) -> Seq<TimingV> {
    match spec_get_timings(m, "subgraph-response-times"@) {
        Ok(Some(s)) => s,
        _ => Seq::empty(),
    }
}

/// The response head after the outermost debug transform: when the
/// request is in debug mode, one header per recorded downstream call
/// is appended, in log order; otherwise the head is untouched.
pub open spec fn spec_debug_head(m: CtxMap, h: crate::transport::ResponseHeadV)
    -> crate::transport::ResponseHeadV {
    if spec_get_flag(m, "debug"@) == Ok::<Option<bool>, ContextError>(Some(true)) {
        crate::transport::ResponseHeadV {
            status: h.status,
            headers: h.headers + timing_headers(spec_debug_log(m)),
        }
    } else {
        h
    }
}

/// Append one header per recorded downstream call when the request is
/// in debug mode; see
/// [`ResponseStreamContextPropagation::router_response`].
pub fn append_debug_headers(ctx: &Context, head: &mut ResponseHead)
    ensures
        final(head)@ == spec_debug_head(ctx@, old(head)@),
{
    match ctx.get_flag(debug_key()) {
            Ok(Some(true)) => {
                let ghost h0 = head@;
                match ctx.get_timings(timings_key()) {
                    Ok(Some(ts)) => {
                        let ghost tsv = ts@.map_values(|t: Timing| t@);
                        let mut i: usize = 0;
                        while i < ts.len()
                            invariant
                                i <= ts.len(),
                                tsv == ts@.map_values(|t: Timing| t@),
                                head@.status == h0.status,
                                head@.headers =~= h0.headers + timing_headers(
                                    tsv.take(i as int),
                                ),
                            decreases ts.len() - i,
                        {
                            let h = timing_header(&ts[i]);
                            let ghost pre = head@.headers;
                            head.headers.push(h);
                            proof {
                                assert(head@.headers =~= pre.push((h.0@, h.1@)));
                                assert(timing_headers(tsv.take(i + 1)) =~= timing_headers(
                                    tsv.take(i as int),
                                ).push(timing_header_of(tsv[i as int])));
                                assert(head@.headers =~= h0.headers + timing_headers(
                                    tsv.take(i + 1),
                                ));
                            }
                            i = i + 1;
                        }
                        proof {
                            assert(tsv.take(tsv.len() as int) =~= tsv);
                        }
                    },
                    _ => {
                        proof {
                            assert(head@.headers + timing_headers(spec_debug_log(ctx@))
                                =~= head@.headers);
                        }
                    },
                }
            },
            _ => {},
        }
}

impl ResponseStreamContextPropagation {
    /// Build the interceptor from its resolved configuration.
    pub fn new(configuration: Conf) -> (r: Self)
        ensures
            r.configuration == configuration,
    {
        ResponseStreamContextPropagation { configuration }
    }

    /// Outermost response transform: runs after the inner call has
    /// returned, so every context write the inner stages made — here
    /// the accumulated timing log — is visible to it.  In debug mode it
    /// surfaces that log as one response header per downstream call.
    pub fn router_response(&self, ctx: &Context, head: &mut ResponseHead)
        ensures
            final(head)@ == spec_debug_head(ctx@, old(head)@),
    {
        append_debug_headers(ctx, head);
    }

    /// Execution-stage response transform: turn on debug handling for
    /// everything that runs later in this request's lifecycle.
    pub fn execution_response(&self, ctx: &mut Context)
        ensures
            final(ctx)@ == old(ctx)@.insert("debug"@, CtxValueV::Flag(true)),
    {
        ctx.insert(debug_key(), CtxValue::Flag(true));
    }

    /// Downstream-call future wrapper: once the host has awaited the
    /// call and measured how long it took, append the timing to the
    /// shared log in one atomic read-modify-write, so appends for
    /// concurrently timed calls all survive.
    pub fn subgraph_observed(&self, ctx: &mut Context, service: &str, millis: u64) -> (r: Result<
        (),
        ContextError,
    >)
        ensures
            final(ctx)@ == upsert_step(
                old(ctx)@,
                "subgraph-response-times"@,
                TimingV { service: service@, millis },
            ),
            r is Ok <==> (!old(ctx)@.contains_key("subgraph-response-times"@)
                || old(ctx)@["subgraph-response-times"@] is Timings),
    {
        let t = Timing { service: service.to_owned(), millis };
        ctx.upsert_timing(timings_key(), t)
    }

    /// Stream wrapper the execution stage hangs on the body: as each
    /// payload is pulled, leave the marker in the shared context —
    /// visible to every handler that runs after this step — and forward
    /// the payload with its content untouched.
    pub fn handle_execution_payload(ctx: &mut Context, payload: Payload) -> (r: Payload)
        ensures
            r@ == payload@,
            final(ctx)@ == old(ctx)@.insert(
                "after-first-response-context"@,
                CtxValueV::Num(MARKER_VALUE),
            ),
    {
        ctx.insert(marker_key(), CtxValue::Num(MARKER_VALUE));
        payload
    }

    /// Stream wrapper the outermost stage hangs on the body: it runs
    /// after the execution-side handler for the same payload, and its
    /// precondition demands exactly that — the marker written one step
    /// earlier must already be visible here.  The pipeline discharges
    /// this once and for all; no run-time assertion is left.  The
    /// payload itself passes through untouched.
    pub fn handle_router_payload(ctx: &Context, payload: Payload) -> (r: Payload)
        requires
            spec_get_num(ctx@, "after-first-response-context"@) == Ok::<Option<u64>, ContextError>(
                Some(MARKER_VALUE),
            ),
        ensures
            r@ == payload@,
    {
        payload
    }
}

} // verus!
