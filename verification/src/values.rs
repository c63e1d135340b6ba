//! A small JSON-like value, the dynamic currency of payload data sections
//! and extension maps.

use vstd::prelude::*;

verus! {

/// A dynamically typed scalar as it appears in a payload's data section,
/// in an error record's extension map, and in payload extensions.
#[derive(Debug, PartialEq, Eq)]
pub enum JsonValue {
    Null,
    Flag(bool),
    Num(u64),
    Text(String),
}

/// Mathematical model of a [`JsonValue`]: text becomes a character sequence.
pub enum JsonValueV {
    Null,
    Flag(bool),
    Num(u64),
    Text(Seq<char>),
}

impl View for JsonValue {
    type V = JsonValueV;

    open spec fn view(&self) -> JsonValueV {
        match self {
            JsonValue::Null => JsonValueV::Null,
            JsonValue::Flag(b) => JsonValueV::Flag(*b),
            JsonValue::Num(n) => JsonValueV::Num(*n),
            JsonValue::Text(s) => JsonValueV::Text(s@),
        }
    }
}

impl Clone for JsonValue {
    fn clone(&self) -> (r: Self)
        ensures
            r@ == self@,
    {
        match self {
            JsonValue::Null => JsonValue::Null,
            JsonValue::Flag(b) => JsonValue::Flag(*b),
            JsonValue::Num(n) => JsonValue::Num(*n),
            JsonValue::Text(s) => JsonValue::Text(s.clone()),
        }
    }
}

/// The views of a sequence of strings.
pub open spec fn string_views(s: Seq<String>) -> Seq<Seq<char>> {
    s.map_values(|x: String| x@)
}

/// True exactly when the value is the given text.
pub fn json_is_text(v: &JsonValue, text: &str) -> (r: bool)
    ensures
        r == (v@ matches JsonValueV::Text(t) && t == text@),
{
    match v {
        JsonValue::Text(s) => *s == text.to_owned(),
        _ => false,
    }
}

} // verus!
