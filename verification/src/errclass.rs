//! Classification of opaque stage errors.
//!
//! An inner stage hands failures up the chain as one opaque error type.
//! An interceptor that reacts to one specific failure narrows the
//! opaque error step by step — stage error, then cache layer, then
//! planner, then the validation leaf — and treats any step that does
//! not match as "not the error we are looking for", passing the
//! original error through unchanged.  No interceptor needs to know
//! every leaf kind.

use vstd::prelude::*;

verus! {

/// A validation failure found while checking a query or its variables
/// against the schema.
#[derive(Debug, PartialEq, Eq)]
pub enum SpecFailure {
    /// A value or field does not have the type the schema demands;
    /// carries the diagnostic message.
    InvalidType(String),
    /// The query text could not be parsed at all.
    ParseFailure(String),
}

/// Model of a [`SpecFailure`].
pub enum SpecFailureV {
    InvalidType(Seq<char>),
    ParseFailure(Seq<char>),
}

impl View for SpecFailure {
    type V = SpecFailureV;

    open spec fn view(&self) -> SpecFailureV {
        match self {
            SpecFailure::InvalidType(m) => SpecFailureV::InvalidType(m@),
            SpecFailure::ParseFailure(m) => SpecFailureV::ParseFailure(m@),
        }
    }
}

/// A failure of the query-planning stage.
#[derive(Debug, PartialEq, Eq)]
pub enum PlannerFailure {
    /// The query failed validation.
    Spec(SpecFailure),
    /// The planner itself gave up.
    Internal(String),
}

/// Model of a [`PlannerFailure`].
pub enum PlannerFailureV {
    Spec(SpecFailureV),
    Internal(Seq<char>),
}

impl View for PlannerFailure {
    type V = PlannerFailureV;

    open spec fn view(&self) -> PlannerFailureV {
        match self {
            PlannerFailure::Spec(s) => PlannerFailureV::Spec(s@),
            PlannerFailure::Internal(m) => PlannerFailureV::Internal(m@),
        }
    }
}

/// A failure surfacing through the planner's cache layer.
#[derive(Debug, PartialEq, Eq)]
pub enum CacheFailure {
    /// Computing the entry to cache failed; wraps the planner's error.
    Retrieval(PlannerFailure),
}

/// Model of a [`CacheFailure`].
pub enum CacheFailureV {
    Retrieval(PlannerFailureV),
}

impl View for CacheFailure {
    type V = CacheFailureV;

    open spec fn view(&self) -> CacheFailureV {
        match self {
            CacheFailure::Retrieval(p) => CacheFailureV::Retrieval(p@),
        }
    }
}

/// An opaque, type-erased error as it crosses stage boundaries.  The
/// pipeline's common error type does not enumerate every concrete
/// failure; it only distinguishes the broad origins.
#[derive(Debug, PartialEq, Eq)]
pub enum OpaqueError {
    /// The planning stage failed, through its cache layer.
    Cache(CacheFailure),
    /// The inner stage could not produce any response.
    Transport(String),
}

/// Model of an [`OpaqueError`].
pub enum OpaqueErrorV {
    Cache(CacheFailureV),
    Transport(Seq<char>),
}

impl View for OpaqueError {
    type V = OpaqueErrorV;

    open spec fn view(&self) -> OpaqueErrorV {
        match self {
            OpaqueError::Cache(c) => OpaqueErrorV::Cache(c@),
            OpaqueError::Transport(m) => OpaqueErrorV::Transport(m@),
        }
    }
}

/// The conventional `"type"` tag with which a payload's error record
/// names an invalid-type validation failure.
pub fn invalid_type_tag() -> (r: &'static str)
    ensures
        r@ == "ValidationInvalidTypeVariable"@,
{
    "ValidationInvalidTypeVariable"
}

/// The diagnostic message of an opaque error that narrows, step by
/// step, to an invalid-type validation failure; `None` for every
/// other error.
pub open spec fn spec_invalid_type_message(e: OpaqueErrorV) -> Option<Seq<char>> {
    match e {
        OpaqueErrorV::Cache(CacheFailureV::Retrieval(PlannerFailureV::Spec(
            SpecFailureV::InvalidType(m),
        ))) => Some(m),
        _ => None,
    }
}

/// Narrow an opaque error to the invalid-type leaf, if that is what it
/// wraps.  Each failed step means "not the error we are looking for":
/// the caller keeps the original error either way.
pub fn invalid_type_message<'a>(e: &'a OpaqueError) -> (r: Option<&'a String>)
    ensures
        match r {
            Some(m) => spec_invalid_type_message(e@) == Some(m@),
            None => spec_invalid_type_message(e@) is None,
        },
{
    match e {
        OpaqueError::Cache(CacheFailure::Retrieval(PlannerFailure::Spec(
            SpecFailure::InvalidType(m),
        ))) => Some(m),
        _ => None,
    }
}

} // verus!
