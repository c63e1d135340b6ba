//! The plugin registry: an explicit value built at process startup and
//! handed to whatever assembles the pipeline — no ambient global
//! lookup.  Registration requires a (group, name) pair unique within
//! the process.

use vstd::prelude::*;

verus! {

/// Failure to register a plugin.
#[derive(Debug, Clone, Copy, PartialEq, Eq, Structural)]
pub enum RegistryError {
    /// The (group, name) pair is already taken.
    DuplicateName,
}

/// The registered (group, name) pairs, in registration order.
pub struct PluginRegistry {
    entries: Vec<(String, String)>,
}

/// The models of the registered pairs.
pub open spec fn pair_views(s: Seq<(String, String)>) -> Seq<(Seq<char>, Seq<char>)> {
    s.map_values(|p: (String, String)| (p.0@, p.1@))
}

impl View for PluginRegistry {
    type V = Seq<(Seq<char>, Seq<char>)>;

    closed spec fn view(&self) -> Seq<(Seq<char>, Seq<char>)> {
        pair_views(self.entries@)
    }
}

/// Whether the pair (g, n) is registered.
pub open spec fn spec_registered(s: Seq<(Seq<char>, Seq<char>)>, g: Seq<char>, n: Seq<char>) -> bool {
    exists|i: int| 0 <= i < s.len() && s[i] == (g, n)
}

impl PluginRegistry {
    /// An empty registry, ready for process startup to fill.
    pub fn new() -> (r: PluginRegistry)
        ensures
            r@ == Seq::<(Seq<char>, Seq<char>)>::empty(),
    {
        let r = PluginRegistry { entries: Vec::new() };
        proof {
            assert(r@ =~= Seq::<(Seq<char>, Seq<char>)>::empty());
        }
        r
    }

    /// Whether the pair (group, name) is registered.
    pub fn contains(&self, group: &str, name: &str) -> (r: bool)
        ensures
            r == spec_registered(self@, group@, name@),
    {
        let g: String = group.to_owned();
        let n: String = name.to_owned();
        let mut i: usize = 0;
        while i < self.entries.len()
            invariant
                i <= self.entries.len(),
                g@ == group@,
                n@ == name@,
                forall|j: int| 0 <= j < i ==> #[trigger] self@[j] != (group@, name@),
            decreases self.entries.len() - i,
        {
            if self.entries[i].0 == g && self.entries[i].1 == n {
                proof {
                    assert(self@[i as int] == (group@, name@));
                }
                return true;
            }
            i = i + 1;
        }
        false
    }

    /// Register the pair (group, name).  Succeeds, appending the pair,
    /// if and only if it is not yet taken; a duplicate leaves the
    /// registry unchanged.
    pub fn register(&mut self, group: &str, name: &str) -> (r: Result<(), RegistryError>)
        ensures
            match r {
                Ok(_) => !spec_registered(old(self)@, group@, name@) && final(self)@ == old(
                    self,
                )@.push((group@, name@)),
                Err(e) => spec_registered(old(self)@, group@, name@) && final(self)@ == old(self)@
                    && e == RegistryError::DuplicateName,
            },
    {
        if self.contains(group, name) {
            Err(RegistryError::DuplicateName)
        } else {
            let ghost pre = self.entries@;
            self.entries.push((group.to_owned(), name.to_owned()));
            proof {
                assert(self@ =~= pair_views(pre).push((group@, name@)));
            }
            Ok(())
        }
    }

    /// How many plugins are registered.
    pub fn len(&self) -> (r: usize)
        ensures
            r == self@.len(),
    {
        self.entries.len()
    }
}

} // verus!
