//! Response payloads: the envelope a stage hands back, with an optional
//! data section, an ordered sequence of error records and an open-ended
//! extension map.  Error records conventionally name the kind of failure
//! under the `"type"` key of their extension map.

use vstd::prelude::*;
use crate::values::{JsonValue, JsonValueV, json_is_text};

verus! {

/// One error carried by a payload: a message and a free-form extension
/// map that, by convention, classifies the error under `"type"`.
#[derive(Debug, PartialEq, Eq)]
pub struct ErrorRecord {
    pub message: String,
    pub extensions: Vec<(String, JsonValue)>,
}

/// Model of an [`ErrorRecord`].
pub struct ErrorRecordV {
    pub message: Seq<char>,
    pub extensions: Seq<(Seq<char>, JsonValueV)>,
}

/// The bindings of an extension map, as key and value models.
pub open spec fn ext_views(s: Seq<(String, JsonValue)>) -> Seq<(Seq<char>, JsonValueV)> {
    s.map_values(|p: (String, JsonValue)| (p.0@, p.1@))
}

impl View for ErrorRecord {
    type V = ErrorRecordV;

    open spec fn view(&self) -> ErrorRecordV {
        ErrorRecordV { message: self.message@, extensions: ext_views(self.extensions@) }
    }
}

/// One payload of a response body.  The first payload of a stream is the
/// primary result; later ones are incremental fragments that this core
/// forwards without reinterpreting.
#[derive(Debug, PartialEq, Eq)]
pub struct Payload {
    pub data: Option<JsonValue>,
    pub errors: Vec<ErrorRecord>,
    pub extensions: Vec<(String, JsonValue)>,
}

/// Model of a [`Payload`].
pub struct PayloadV {
    pub data: Option<JsonValueV>,
    pub errors: Seq<ErrorRecordV>,
    pub extensions: Seq<(Seq<char>, JsonValueV)>,
}

impl View for Payload {
    type V = PayloadV;

    open spec fn view(&self) -> PayloadV {
        PayloadV {
            data: match &self.data {
                Some(v) => Some(v@),
                None => None,
            },
            errors: self.errors@.map_values(|e: ErrorRecord| e@),
            extensions: ext_views(self.extensions@),
        }
    }
}

/// Copy an extension map entry by entry.
fn clone_ext_entries(v: &Vec<(String, JsonValue)>) -> (r: Vec<(String, JsonValue)>)
    ensures
        ext_views(r@) == ext_views(v@),
{
    let mut out: Vec<(String, JsonValue)> = Vec::new();
    proof {
        assert(ext_views(out@) =~= ext_views(v@).take(0));
    }
    let mut i: usize = 0;
    while i < v.len()
        invariant
            i <= v.len(),
            ext_views(out@) =~= ext_views(v@).take(i as int),
        decreases v.len() - i,
    {
        let ghost pre = out@;
        out.push((v[i].0.clone(), v[i].1.clone()));
        proof {
            assert(ext_views(out@) =~= ext_views(pre).push(ext_views(v@)[i as int]));
            assert(ext_views(v@).take(i + 1) =~= ext_views(v@).take(i as int).push(
                ext_views(v@)[i as int],
            ));
        }
        i = i + 1;
    }
    proof {
        assert(ext_views(v@).take(v@.len() as int) =~= ext_views(v@));
    }
    out
}

impl Clone for ErrorRecord {
    fn clone(&self) -> (r: Self)
        ensures
            r@ == self@,
    {
        ErrorRecord {
            message: self.message.clone(),
            extensions: clone_ext_entries(&self.extensions),
        }
    }
}

impl Clone for Payload {
    fn clone(&self) -> (r: Self)
        ensures
            r@ == self@,
    {
        let data = match &self.data {
            Some(v) => Some(v.clone()),
            None => None,
        };
        let mut errors: Vec<ErrorRecord> = Vec::new();
        proof {
            assert(errors@.map_values(|e: ErrorRecord| e@) =~= self@.errors.take(0));
        }
        let mut i: usize = 0;
        while i < self.errors.len()
            invariant
                i <= self.errors.len(),
                errors@.map_values(|e: ErrorRecord| e@) =~= self@.errors.take(i as int),
            decreases self.errors.len() - i,
        {
            let ghost pre = errors@;
            errors.push(self.errors[i].clone());
            proof {
                assert(errors@.map_values(|e: ErrorRecord| e@) =~= pre.map_values(
                    |e: ErrorRecord| e@,
                ).push(self@.errors[i as int]));
                assert(self@.errors.take(i + 1) =~= self@.errors.take(i as int).push(
                    self@.errors[i as int],
                ));
            }
            i = i + 1;
        }
        proof {
            assert(self@.errors.take(self.errors@.len() as int) =~= self@.errors);
        }
        Payload { data, errors, extensions: clone_ext_entries(&self.extensions) }
    }
}

/// The value bound to `k` in an extension map: the first binding wins.
pub open spec fn ext_get(s: Seq<(Seq<char>, JsonValueV)>, k: Seq<char>) -> Option<JsonValueV>
    decreases s.len(),
{
    if s.len() == 0 {
        None
    } else if s.first().0 == k {
        Some(s.first().1)
    } else {
        ext_get(s.drop_first(), k)
    }
}

/// True when the record's extension map classifies it as `tag`, that is,
/// binds the text `tag` under `"type"`.
pub open spec fn record_has_tag(e: ErrorRecordV, tag: Seq<char>) -> bool {
    ext_get(e.extensions, "type"@) matches Some(JsonValueV::Text(t)) && t == tag
}

/// True when some error record of the payload is classified as `tag`.
pub open spec fn payload_has_tag(p: PayloadV, tag: Seq<char>) -> bool {
    exists|i: int| 0 <= i < p.errors.len() && record_has_tag(#[trigger] p.errors[i], tag)
}

/// The value an extension map binds to `key`, if any.
pub fn ext_lookup<'a>(exts: &'a Vec<(String, JsonValue)>, key: &str) -> (r: Option<&'a JsonValue>)
    ensures
        match r {
            Some(v) => ext_get(ext_views(exts@), key@) == Some(v@),
            None => ext_get(ext_views(exts@), key@) is None,
        },
{
    let k: String = key.to_owned();
    let ghost s = ext_views(exts@);
    proof {
        assert(s.skip(0) =~= s);
    }
    let mut i: usize = 0;
    while i < exts.len()
        invariant
            i <= exts.len(),
            k@ == key@,
            s == ext_views(exts@),
            ext_get(s, key@) == ext_get(s.skip(i as int), key@),
        decreases exts.len() - i,
    {
        proof {
            assert(s.skip(i as int).first() == s[i as int]);
            assert(s.skip(i as int).drop_first() =~= s.skip(i + 1));
        }
        if exts[i].0 == k {
            return Some(&exts[i].1);
        }
        i = i + 1;
    }
    proof {
        assert(s.skip(s.len() as int) =~= Seq::<(Seq<char>, JsonValueV)>::empty());
    }
    None
}

/// Whether the record is classified as `tag` by its extension map.
pub fn record_is_tagged(e: &ErrorRecord, tag: &str) -> (r: bool)
    ensures
        r == record_has_tag(e@, tag@),
{
    match ext_lookup(&e.extensions, "type") {
        Some(v) => json_is_text(v, tag),
        None => false,
    }
}

impl Payload {
    /// A payload carrying only a data section.
    pub fn from_data(data: JsonValue) -> (r: Payload)
        ensures
            r@.data == Some(data@),
            r@.errors.len() == 0,
            r@.extensions.len() == 0,
    {
        let r = Payload { data: Some(data), errors: Vec::new(), extensions: Vec::new() };
        proof {
            assert(r@.errors =~= Seq::<ErrorRecordV>::empty());
            assert(r@.extensions =~= Seq::<(Seq<char>, JsonValueV)>::empty());
        }
        r
    }

    /// Whether some error record of this payload is classified as `tag`.
    pub fn has_error_tagged(&self, tag: &str) -> (r: bool)
        ensures
            r == payload_has_tag(self@, tag@),
    {
        let mut i: usize = 0;
        while i < self.errors.len()
            invariant
                i <= self.errors.len(),
                forall|j: int| 0 <= j < i ==> !record_has_tag(#[trigger] self@.errors[j], tag@),
            decreases self.errors.len() - i,
        {
            if record_is_tagged(&self.errors[i], tag) {
                proof {
                    assert(record_has_tag(self@.errors[i as int], tag@));
                }
                return true;
            }
            i = i + 1;
        }
        false
    }
}

} // verus!
