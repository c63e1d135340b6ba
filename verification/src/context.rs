//! The per-request context: a dynamically typed key/value store through
//! which pipeline stages signal each other without being statically
//! coupled.
//!
//! The store is modelled as a map from key (character sequence) to a
//! tagged value.  `insert` is last-write-wins; typed reads of a key that
//! holds a value of another type fail with [`ContextError::TypeMismatch`]
//! rather than panicking; a missing key is an ordinary `None`.  The
//! read-modify-write [`Context::upsert_timing`] appends to a growing log
//! in one step, so interleaved appends to the same key lose nothing.

use vstd::prelude::*;

verus! {

/// How long one downstream service call took, by service name.
#[derive(Debug, PartialEq, Eq)]
pub struct Timing {
    pub service: String,
    pub millis: u64,
}

/// Model of a [`Timing`].
pub struct TimingV {
    pub service: Seq<char>,
    pub millis: u64,
}

impl View for Timing {
    type V = TimingV;

    open spec fn view(&self) -> TimingV {
        TimingV { service: self.service@, millis: self.millis }
    }
}

impl Clone for Timing {
    fn clone(&self) -> (r: Self)
        ensures
            r == *self,
    {
        Timing { service: self.service.clone(), millis: self.millis }
    }
}

/// A value stored in the context, with its run-time type tag.
#[derive(Debug, PartialEq, Eq)]
pub enum CtxValue {
    Flag(bool),
    Num(u64),
    Timings(Vec<Timing>),
}

/// Model of a [`CtxValue`].
pub enum CtxValueV {
    Flag(bool),
    Num(u64),
    Timings(Seq<TimingV>),
}

impl View for CtxValue {
    type V = CtxValueV;

    open spec fn view(&self) -> CtxValueV {
        match self {
            CtxValue::Flag(b) => CtxValueV::Flag(*b),
            CtxValue::Num(n) => CtxValueV::Num(*n),
            CtxValue::Timings(v) => CtxValueV::Timings(v@.map_values(|t: Timing| t@)),
        }
    }
}

/// Failure of a typed context access: the key is present but holds a
/// value of another type.
#[derive(Debug, Clone, Copy, PartialEq, Eq, Structural)]
pub enum ContextError {
    TypeMismatch,
}

/// Abstract state of a context: a finite map from key to tagged value.
pub type CtxMap = Map<Seq<char>, CtxValueV>;

/// The map described by a sequence of bindings, later bindings winning.
pub open spec fn bindings_map(s: Seq<(Seq<char>, CtxValueV)>) -> CtxMap
    decreases s.len(),
{
    if s.len() == 0 {
        Map::empty()
    } else {
        bindings_map(s.drop_last()).insert(s.last().0, s.last().1)
    }
}

/// The bindings of a sequence of entries, as key and value models.
pub open spec fn entry_views(s: Seq<(String, CtxValue)>) -> Seq<(Seq<char>, CtxValueV)> {
    s.map_values(|p: (String, CtxValue)| (p.0@, p.1@))
}

/// A binding sequence whose suffix from `i` on never mentions `k`
/// describes the same state at `k` as its prefix below `i`.
proof fn lemma_bindings_map_prefix(s: Seq<(Seq<char>, CtxValueV)>, k: Seq<char>, i: int)
    requires
        0 <= i <= s.len(),
        forall|j: int| i <= j < s.len() ==> (#[trigger] s[j]).0 != k,
    ensures
        bindings_map(s).contains_key(k) == bindings_map(s.take(i)).contains_key(k),
        bindings_map(s).contains_key(k) ==> bindings_map(s)[k] == bindings_map(s.take(i))[k],
    decreases s.len() - i,
{
    if i < s.len() {
        let s2 = s.drop_last();
        assert(s.last() == s[s.len() - 1]);
        lemma_bindings_map_prefix(s2, k, i);
        assert(s2.take(i) =~= s.take(i));
    } else {
        assert(s.take(i) =~= s);
    }
}

/// The shared per-request key/value store.
///
/// One store exists per inbound request; the pipeline threads it through
/// every stage and every payload-stream step, so a write made by an
/// inner stage is seen by everything that runs afterwards.
#[derive(Debug)]
pub struct Context {
    entries: Vec<(String, CtxValue)>,
}

impl View for Context {
    type V = CtxMap;

    closed spec fn view(&self) -> CtxMap {
        bindings_map(entry_views(self.entries@))
    }
}

/// State of a typed read of `k` expecting a number.
pub open spec fn spec_get_num(m: CtxMap, k: Seq<char>) -> Result<Option<u64>, ContextError> {
    if !m.contains_key(k) {
        Ok(None)
    } else {
        match m[k] {
            CtxValueV::Num(n) => Ok(Some(n)),
            _ => Err(ContextError::TypeMismatch),
        }
    }
}

/// State of a typed read of `k` expecting a flag.
pub open spec fn spec_get_flag(m: CtxMap, k: Seq<char>) -> Result<Option<bool>, ContextError> {
    if !m.contains_key(k) {
        Ok(None)
    } else {
        match m[k] {
            CtxValueV::Flag(b) => Ok(Some(b)),
            _ => Err(ContextError::TypeMismatch),
        }
    }
}

/// State of a typed read of `k` expecting a timing log.
pub open spec fn spec_get_timings(m: CtxMap, k: Seq<char>) -> Result<
    Option<Seq<TimingV>>,
    ContextError,
> {
    if !m.contains_key(k) {
        Ok(None)
    } else {
        match m[k] {
            CtxValueV::Timings(s) => Ok(Some(s)),
            _ => Err(ContextError::TypeMismatch),
        }
    }
}

/// One atomic read-modify-write appending `t` to the log under `k`:
/// an absent key starts a fresh log; a key of another type leaves the
/// map unchanged (the call reports the mismatch).
pub open spec fn upsert_step(m: CtxMap, k: Seq<char>, t: TimingV) -> CtxMap {
    if !m.contains_key(k) {
        m.insert(k, CtxValueV::Timings(seq![t]))
    } else {
        match m[k] {
            CtxValueV::Timings(s) => m.insert(k, CtxValueV::Timings(s.push(t))),
            _ => m,
        }
    }
}

impl Context {
    /// A fresh, empty store for a new inbound request.
    pub fn new() -> (r: Context)
        ensures
            r@ == Map::<Seq<char>, CtxValueV>::empty(),
    {
        Context { entries: Vec::new() }
    }

    /// The value under `key`, whatever its type, or `None` if absent.
    pub fn get_value(&self, key: &str) -> (r: Option<&CtxValue>)
        ensures
            match r {
                Some(v) => self@.contains_key(key@) && v@ == self@[key@],
                None => !self@.contains_key(key@),
            },
    {
        let k: String = key.to_owned();
        let ghost s = entry_views(self.entries@);
        let mut i: usize = self.entries.len();
        while i > 0
            invariant
                i <= self.entries.len(),
                k@ == key@,
                s == entry_views(self.entries@),
                forall|j: int| i <= j < s.len() ==> (#[trigger] s[j]).0 != key@,
            decreases i,
        {
            i = i - 1;
            if self.entries[i].0 == k {
                proof {
                    lemma_bindings_map_prefix(s, key@, i + 1);
                    assert(s.take(i + 1).drop_last() =~= s.take(i as int));
                    assert(s.take(i + 1).last() == s[i as int]);
                }
                return Some(&self.entries[i].1);
            }
        }
        proof {
            lemma_bindings_map_prefix(s, key@, 0);
            assert(s.take(0) =~= Seq::<(Seq<char>, CtxValueV)>::empty());
        }
        None
    }

    /// Typed read of a number; `Err` when the key holds another type.
    pub fn get_num(&self, key: &str) -> (r: Result<Option<u64>, ContextError>)
        ensures
            r == spec_get_num(self@, key@),
    {
        match self.get_value(key) {
            None => Ok(None),
            Some(CtxValue::Num(n)) => Ok(Some(*n)),
            Some(_) => Err(ContextError::TypeMismatch),
        }
    }

    /// Typed read of a flag; `Err` when the key holds another type.
    pub fn get_flag(&self, key: &str) -> (r: Result<Option<bool>, ContextError>)
        ensures
            r == spec_get_flag(self@, key@),
    {
        match self.get_value(key) {
            None => Ok(None),
            Some(CtxValue::Flag(b)) => Ok(Some(*b)),
            Some(_) => Err(ContextError::TypeMismatch),
        }
    }

    /// Typed read of the timing log; `Err` when the key holds another type.
    pub fn get_timings(&self, key: &str) -> (r: Result<Option<&Vec<Timing>>, ContextError>)
        ensures
            match r {
                Ok(Some(v)) => spec_get_timings(self@, key@)
                    == Ok::<_, ContextError>(Some(v@.map_values(|t: Timing| t@))),
                Ok(None) => spec_get_timings(self@, key@) == Ok::<Option<Seq<TimingV>>, ContextError>(None),
                Err(e) => spec_get_timings(self@, key@) == Err::<Option<Seq<TimingV>>, _>(e),
            },
    {
        match self.get_value(key) {
            None => Ok(None),
            Some(CtxValue::Timings(v)) => Ok(Some(v)),
            Some(_) => Err(ContextError::TypeMismatch),
        }
    }

    /// Store `value` under `key`, replacing whatever was there
    /// (last write wins).
    pub fn insert(&mut self, key: &str, value: CtxValue)
        ensures
            final(self)@ == old(self)@.insert(key@, value@),
    {
        let k: String = key.to_owned();
        let ghost v = value@;
        let ghost s0 = entry_views(self.entries@);
        self.entries.push((k, value));
        proof {
            let s1 = entry_views(self.entries@);
            assert(s1.drop_last() =~= s0);
            assert(s1.last() == (key@, v));
        }
    }

    /// Atomically append `t` to the timing log under `key`: the current
    /// log (empty if the key is absent) is read, extended and stored as
    /// one step, so no interleaved append is lost.
    pub fn upsert_timing(&mut self, key: &str, t: Timing) -> (r: Result<(), ContextError>)
        ensures
            final(self)@ == upsert_step(old(self)@, key@, t@),
            r is Ok <==> (!old(self)@.contains_key(key@)
                || old(self)@[key@] is Timings),
    {
        let log: Vec<Timing> = match self.get_value(key) {
            None => Vec::new(),
            Some(CtxValue::Timings(v)) => {
                let c = v.clone();
                proof {
                    assert forall|i: int| 0 <= i < v@.len() implies c@[i] == v@[i] by {
                        assert(cloned::<Timing>(v@[i], c@[i]));
                    }
                    assert(c@ =~= v@);
                }
                c
            },
            Some(_) => {
                return Err(ContextError::TypeMismatch);
            },
        };
        let ghost old_log = log@.map_values(|x: Timing| x@);
        let mut log = log;
        log.push(t);
        proof {
            assert(log@.map_values(|x: Timing| x@) =~= old_log.push(t@));
            if !old(self)@.contains_key(key@) {
                assert(old_log.push(t@) =~= seq![t@]);
            }
        }
        self.insert(key, CtxValue::Timings(log));
        Ok(())
    }
}

/// Law: write visibility.  A value one stage writes into the shared
/// context is observable by every typed read that runs after the
/// write — in particular by an outer stage's response transform running
/// after the inner call returns, and by a later payload-stream step.
pub proof fn lemma_write_visible(m: CtxMap, k: Seq<char>, n: u64)
    ensures
        spec_get_num(m.insert(k, CtxValueV::Num(n)), k) == Ok::<Option<u64>, ContextError>(
            Some(n),
        ),
{
}

/// The timing log recorded under `k`: the stored sequence, or empty when
/// the key is absent or holds another type.
pub open spec fn timing_log(m: CtxMap, k: Seq<char>) -> Seq<TimingV> {
    if m.contains_key(k) {
        match m[k] {
            CtxValueV::Timings(s) => s,
            _ => Seq::empty(),
        }
    } else {
        Seq::empty()
    }
}

/// The context state after a whole sequence of appends to the log
/// under `k`, each performed as one atomic step.
pub open spec fn apply_upserts(m: CtxMap, k: Seq<char>, ts: Seq<TimingV>) -> CtxMap
    decreases ts.len(),
{
    if ts.len() == 0 {
        m
    } else {
        apply_upserts(upsert_step(m, k, ts.first()), k, ts.drop_first())
    }
}

/// Law: appends accumulate.  When the key is absent or already holds a
/// log, a sequence of atomic appends leaves exactly the old log followed
/// by every appended entry, in order — no entry is lost, whatever the
/// interleaving that produced the sequence.
pub proof fn lemma_upserts_accumulate(m: CtxMap, k: Seq<char>, ts: Seq<TimingV>)
    requires
        !m.contains_key(k) || m[k] is Timings,
    ensures
        timing_log(apply_upserts(m, k, ts), k) == timing_log(m, k) + ts,
        forall|k2: Seq<char>| k2 != k ==> apply_upserts(m, k, ts).contains_key(k2)
            == m.contains_key(k2),
        forall|k2: Seq<char>| k2 != k && m.contains_key(k2)
            ==> apply_upserts(m, k, ts)[k2] == m[k2],
    decreases ts.len(),
{
    if ts.len() == 0 {
        assert(timing_log(m, k) + ts =~= timing_log(m, k));
    } else {
        let m1 = upsert_step(m, k, ts.first());
        assert(timing_log(m1, k) =~= timing_log(m, k).push(ts.first()));
        lemma_upserts_accumulate(m1, k, ts.drop_first());
        assert(apply_upserts(m, k, ts) == apply_upserts(m1, k, ts.drop_first()));
        assert(timing_log(m, k) + ts =~= timing_log(m1, k) + ts.drop_first());
        assert forall|k2: Seq<char>| k2 != k implies apply_upserts(m, k, ts).contains_key(k2)
            == m.contains_key(k2) by {
            assert(m1.contains_key(k2) == m.contains_key(k2));
        }
        assert forall|k2: Seq<char>| k2 != k && m.contains_key(k2) implies apply_upserts(
            m,
            k,
            ts,
        )[k2] == m[k2] by {
            assert(m1[k2] == m[k2]);
        }
    }
}

} // verus!
