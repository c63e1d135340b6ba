//! What crosses the stage boundaries: the planner's outcome, the
//! transport result of a downstream call, and the payload the host
//! synthesizes when planning fails validation.
//!
//! The pipeline phases all share one contract — take a request, produce
//! a response or an opaque error — and the interceptors only ever
//! transform the inputs to, or the outputs of, that one operation.

use vstd::prelude::*;
use crate::errclass::{
    CacheFailure, OpaqueError, OpaqueErrorV, PlannerFailure, SpecFailure, invalid_type_tag,
};
use crate::errclass::{CacheFailureV, PlannerFailureV, SpecFailureV};
use crate::payload::{ErrorRecord, ErrorRecordV, Payload, PayloadV, payload_has_tag, record_has_tag};
use crate::values::{JsonValue, JsonValueV, string_views};

verus! {

/// The planning stage's product: the validated fields the execution
/// stage will resolve.
#[derive(Debug, PartialEq, Eq)]
pub struct QueryPlan {
    pub fields: Vec<String>,
}

/// The transport-level result of one downstream service call, as the
/// host observed it: which service, the status it answered with, and
/// how long the call took.
#[derive(Debug, PartialEq, Eq)]
pub struct DownstreamCall {
    pub service: String,
    pub status: u16,
    pub millis: u64,
}

/// Model of a [`DownstreamCall`].
pub struct DownstreamCallV {
    pub service: Seq<char>,
    pub status: u16,
    pub millis: u64,
}

impl View for DownstreamCall {
    type V = DownstreamCallV;

    open spec fn view(&self) -> DownstreamCallV {
        DownstreamCallV { service: self.service@, status: self.status, millis: self.millis }
    }
}

/// Every requested field is one the schema knows.
pub open spec fn all_fields_known(schema: Seq<Seq<char>>, query: Seq<Seq<char>>) -> bool {
    forall|i: int| 0 <= i < query.len() ==> schema.contains(#[trigger] query[i])
}

/// The first requested field the schema does not know.
pub open spec fn first_unknown(schema: Seq<Seq<char>>, query: Seq<Seq<char>>) -> Seq<char>
    decreases query.len(),
{
    if query.len() == 0 {
        Seq::empty()
    } else if !schema.contains(query.first()) {
        query.first()
    } else {
        first_unknown(schema, query.drop_first())
    }
}

/// The opaque error with which the planning stage surfaces a
/// validation failure: the leaf diagnostic, wrapped by the planner,
/// wrapped by its cache layer.
pub open spec fn planner_invalid_type_error(m: Seq<char>) -> OpaqueErrorV {
    OpaqueErrorV::Cache(
        CacheFailureV::Retrieval(PlannerFailureV::Spec(SpecFailureV::InvalidType(m))),
    )
}

/// Whether `v` holds a string equal to `s`.
fn contains_string(v: &Vec<String>, s: &String) -> (r: bool)
    ensures
        r == string_views(v@).contains(s@),
{
    let ghost sv = string_views(v@);
    let mut i: usize = 0;
    while i < v.len()
        invariant
            i <= v.len(),
            sv == string_views(v@),
            forall|j: int| 0 <= j < i ==> sv[j] != s@,
        decreases v.len() - i,
    {
        if v[i] == *s {
            proof {
                assert(sv[i as int] == s@);
            }
            return true;
        }
        i = i + 1;
    }
    proof {
        assert forall|j: int| 0 <= j < sv.len() implies sv[j] != s@ by {}
    }
    false
}

/// The planning stage: validate the requested fields against the
/// schema.  Succeeds, with a plan carrying exactly the requested
/// fields, if and only if every field is known; otherwise fails with
/// the opaque invalid-type error naming the first unknown field.
pub fn plan(schema: &Vec<String>, query: &Vec<String>) -> (r: Result<QueryPlan, OpaqueError>)
    ensures
        match r {
            Ok(p) => all_fields_known(string_views(schema@), string_views(query@))
                && string_views(p.fields@) == string_views(query@),
            Err(e) => !all_fields_known(string_views(schema@), string_views(query@)) && e@
                == planner_invalid_type_error(
                first_unknown(string_views(schema@), string_views(query@)),
            ),
        },
{
    let ghost sv = string_views(schema@);
    let ghost qv = string_views(query@);
    proof {
        assert(qv.skip(0) =~= qv);
    }
    let mut i: usize = 0;
    while i < query.len()
        invariant
            i <= query.len(),
            sv == string_views(schema@),
            qv == string_views(query@),
            forall|j: int| 0 <= j < i ==> sv.contains(#[trigger] qv[j]),
            first_unknown(sv, qv) == first_unknown(sv, qv.skip(i as int)),
        decreases query.len() - i,
    {
        proof {
            assert(qv.skip(i as int).first() == qv[i as int]);
            assert(qv.skip(i as int).drop_first() =~= qv.skip(i + 1));
        }
        if !contains_string(schema, &query[i]) {
            let message = query[i].clone();
            return Err(
                OpaqueError::Cache(
                    CacheFailure::Retrieval(
                        PlannerFailure::Spec(SpecFailure::InvalidType(message)),
                    ),
                ),
            );
        }
        i = i + 1;
    }
    let mut fields: Vec<String> = Vec::new();
    let mut k: usize = 0;
    while k < query.len()
        invariant
            k <= query.len(),
            qv == string_views(query@),
            string_views(fields@) =~= qv.take(k as int),
        decreases query.len() - k,
    {
        let ghost pre = fields@;
        let s = query[k].clone();
        fields.push(s);
        proof {
            assert(qv.len() == query@.len());
            assert(s@ == qv[k as int]);
            assert(string_views(fields@) =~= string_views(pre).push(qv[k as int]));
            assert(qv.take(k + 1) =~= qv.take(k as int).push(qv[k as int]));
            assert(string_views(fields@) =~= qv.take(k + 1));
        }
        k = k + 1;
    }
    proof {
        assert(string_views(query@).take(query@.len() as int) =~= string_views(query@));
    }
    Ok(QueryPlan { fields })
}

/// Model of the payload the host synthesizes when planning fails
/// validation: no data, one error record carrying the diagnostic
/// message, classified under `"type"` with the invalid-type tag.
pub open spec fn spec_invalid_type_payload(m: Seq<char>) -> PayloadV {
    PayloadV {
        data: None,
        errors: seq![
            ErrorRecordV {
                message: m,
                extensions: seq![("type"@, JsonValueV::Text("ValidationInvalidTypeVariable"@))],
            },
        ],
        extensions: Seq::empty(),
    }
}

/// The synthesized payload is classified under the invalid-type tag.
pub proof fn lemma_invalid_payload_tagged(m: Seq<char>)
    ensures
        payload_has_tag(spec_invalid_type_payload(m), "ValidationInvalidTypeVariable"@),
{
    let p = spec_invalid_type_payload(m);
    assert(p.errors[0].extensions.first() == ("type"@, JsonValueV::Text(
        "ValidationInvalidTypeVariable"@,
    )));
    assert(record_has_tag(p.errors[0], "ValidationInvalidTypeVariable"@));
}

/// The payload the host synthesizes when planning fails validation:
/// exactly [`spec_invalid_type_payload`] of the diagnostic message.
pub fn payload_from_invalid_type(message: &String) -> (r: Payload)
    ensures
        r@ == spec_invalid_type_payload(message@),
{
    let mut exts: Vec<(String, JsonValue)> = Vec::new();
    exts.push((String::from_str("type"), JsonValue::Text(String::from_str(invalid_type_tag()))));
    let rec = ErrorRecord { message: message.clone(), extensions: exts };
    let mut errors: Vec<ErrorRecord> = Vec::new();
    errors.push(rec);
    let r = Payload { data: None, errors, extensions: Vec::new() };
    proof {
        assert(r@.extensions =~= Seq::<(Seq<char>, JsonValueV)>::empty());
        assert(r@.errors[0].extensions =~= seq![
            ("type"@, JsonValueV::Text("ValidationInvalidTypeVariable"@)),
        ]);
        assert(r@.errors =~= spec_invalid_type_payload(message@).errors);
    }
    r
}

} // verus!
