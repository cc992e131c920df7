//! The pool: at most one compiled matcher per pattern text, shared by every
//! handle for that text and given up when the last handle is released.

use crate::matcher::{
    byte_compiled, byte_pattern_compiles, byte_pattern_failure, matcher_pattern, CompileError,
    CompiledMatcher, Regex,
};
use crate::registry::{registry_entries, Registry, Slot};
use std::sync::Arc;
use vstd::prelude::*;

verus! {

/// What a pool holds for one pattern text.
pub struct Entry {
    /// The compiled matcher that every handle for the text shares.
    pub matcher: CompiledMatcher,
    /// The number of handles given out for the text and not yet released.
    pub owners: nat,
}

/// The entry that a stored slot stands for.
spec fn entry_of(slot: Slot) -> Entry {
    Entry { matcher: *slot.0, owners: slot.1 as nat }
}

/// The entry of a matcher that has just been stored: one owner.
pub open spec fn first_entry(matcher: CompiledMatcher) -> Entry {
    Entry { matcher, owners: 1 }
}

/// The state of a pool that holds nothing.
pub open spec fn vacant() -> Map<Seq<char>, Entry> {
    Map::empty()
}

/// A pool state is valid when it has finitely many entries, each stored under
/// the pattern text of its own matcher, each with a byte-compiled matcher and
/// each with at least one owner.
pub open spec fn valid(state: Map<Seq<char>, Entry>) -> bool {
    &&& state.dom().finite()
    &&& forall|text: Seq<char>| #[trigger]
        state.contains_key(text) ==> matcher_pattern(state[text].matcher) == text
            && byte_compiled(state[text].matcher) && state[text].owners >= 1
}

/// The number of unreleased handles for `text`; zero where there is no entry.
pub open spec fn owners_of(state: Map<Seq<char>, Entry>, text: Seq<char>) -> nat {
    if state.contains_key(text) {
        state[text].owners
    } else {
        0
    }
}

/// The state after a handle for `text` was asked for. An entry that exists
/// gains an owner and keeps its matcher. Without one, a matcher that was
/// compiled becomes a new entry with one owner; with none compiled, nothing
/// changes.
pub open spec fn admitted(
    state: Map<Seq<char>, Entry>,
    text: Seq<char>,
    compiled: Option<CompiledMatcher>,
) -> Map<Seq<char>, Entry> {
    if state.contains_key(text) {
        state.insert(text, Entry { matcher: state[text].matcher, owners: state[text].owners + 1 })
    } else {
        match compiled {
            Some(matcher) => state.insert(text, first_entry(matcher)),
            None => state,
        }
    }
}

/// The state after a handle for `text` was released. The entry loses an
/// owner; the last owner takes the entry with it. Without an entry nothing
/// changes.
pub open spec fn released(state: Map<Seq<char>, Entry>, text: Seq<char>) -> Map<Seq<char>, Entry> {
    if !state.contains_key(text) {
        state
    } else if state[text].owners <= 1 {
        state.remove(text)
    } else {
        state.insert(
            text,
            Entry { matcher: state[text].matcher, owners: (state[text].owners - 1) as nat },
        )
    }
}

/// A registry of compiled matchers, keyed by pattern text.
pub struct Pool {
    registry: Registry,
}

impl View for Pool {
    type V = Map<Seq<char>, Entry>;

    closed spec fn view(&self) -> Map<Seq<char>, Entry> {
        registry_entries(self.registry).map_values(|slot: Slot| entry_of(slot))
    }
}

impl Pool {
    /// The pool's state is valid.
    pub open spec fn wf(&self) -> bool {
        valid(self@)
    }

    /// The state has an entry exactly where the table has a slot, and the
    /// entry is what the slot stands for.
    proof fn lemma_view_follows_table(self)
        ensures
            self@.dom() =~= registry_entries(self.registry).dom(),
            forall|text: Seq<char>| #[trigger]
                self@.contains_key(text) ==> self@[text] == entry_of(
                    registry_entries(self.registry)[text],
                ),
    {
    }

    /// An empty pool.
    pub fn new() -> (pool: Pool)
        ensures
            pool.wf(),
            pool@ == vacant(),
    {
        let pool = Pool { registry: Registry::new() };
        proof {
            pool.lemma_view_follows_table();
            assert(pool@ =~= vacant());
        }
        pool
    }

    /// The number of pattern texts that have an entry.
    pub fn len(&self) -> (count: usize)
        ensures
            count == self@.len(),
    {
        proof {
            self.lemma_view_follows_table();
        }
        self.registry.len()
    }

    /// The number of unreleased handles for `pattern`.
    pub fn owners(&self, pattern: &str) -> (count: usize)
        ensures
            count == owners_of(self@, pattern@),
    {
        proof {
            self.lemma_view_follows_table();
        }
        match self.registry.get(pattern) {
            Some(slot) => slot.1,
            None => 0,
        }
    }

    /// Whether `pattern` has an entry.
    pub fn contains(&self, pattern: &str) -> (present: bool)
        ensures
            present == self@.contains_key(pattern@),
    {
        proof {
            self.lemma_view_follows_table();
        }
        self.registry.get(pattern).is_some()
    }

    /// Gives out one more handle for `pattern` if it has an entry.
    fn checkout(&mut self, pattern: &str) -> (shared: Option<Regex>)
        requires
            old(self).wf(),
            owners_of(old(self)@, pattern@) < usize::MAX,
        ensures
            final(self).wf(),
            final(self)@ == admitted(old(self)@, pattern@, None),
            match shared {
                Some(handle) => old(self)@.contains_key(pattern@) && handle@ == pattern@
                    && handle.matcher() == old(self)@[pattern@].matcher,
                None => !old(self)@.contains_key(pattern@),
            },
    {
        proof {
            self.lemma_view_follows_table();
        }
        let found = match self.registry.get(pattern) {
            Some(slot) => {
                let owners: usize = slot.1;
                Some((slot.0.clone(), owners))
            },
            None => None,
        };
        match found {
            Some((matcher, owners)) => {
                let handle = Regex::from_shared(matcher.clone());
                let _ = self.registry.insert(pattern.to_owned(), (matcher, owners + 1));
                proof {
                    self.lemma_view_follows_table();
                    assert(self@ =~= admitted(old(self)@, pattern@, None));
                }
                Some(handle)
            },
            None => None,
        }
    }

    /// Takes the outcome of a compilation into the pool. A matcher whose
    /// pattern text has an entry is dropped and that entry is shared; any
    /// other matcher is stored and a first handle to it is returned. A
    /// failure is handed on and the pool stays as it is.
    ///
    /// The matcher is to be byte-compiled, as every matcher is that
    /// `CompiledMatcher::compile` returns.
    pub fn register(&mut self, compiled: Result<CompiledMatcher, CompileError>) -> (result: Result<
        Regex,
        CompileError,
    >)
        requires
            old(self).wf(),
            compiled matches Ok(matcher) ==> byte_compiled(matcher),
            compiled matches Ok(matcher) ==> owners_of(old(self)@, matcher_pattern(matcher))
                < usize::MAX,
        ensures
            final(self).wf(),
            match compiled {
                Ok(matcher) => {
                    &&& final(self)@ == admitted(
                        old(self)@,
                        matcher_pattern(matcher),
                        Some(matcher),
                    )
                    &&& result is Ok
                    &&& result->Ok_0@ == matcher_pattern(matcher)
                    &&& result->Ok_0.matcher() == final(self)@[matcher_pattern(matcher)].matcher
                },
                Err(failure) => {
                    &&& final(self)@ == old(self)@
                    &&& result is Err
                    &&& result->Err_0 == failure
                },
            },
    {
        match compiled {
            Ok(matcher) => {
                match self.checkout(matcher.as_str()) {
                    Some(handle) => Ok(handle),
                    None => {
                        let text = matcher.as_str().to_owned();
                        let shared = Arc::new(matcher);
                        let handle = Regex::from_shared(shared.clone());
                        proof {
                            self.lemma_view_follows_table();
                        }
                        let _ = self.registry.insert(text, (shared, 1));
                        proof {
                            self.lemma_view_follows_table();
                            assert(self@ =~= admitted(
                                old(self)@,
                                matcher_pattern(matcher),
                                Some(matcher),
                            ));
                        }
                        Ok(handle)
                    },
                }
            },
            Err(failure) => Err(failure),
        }
    }

    /// Returns a handle for `pattern`. While an earlier handle for the same
    /// text is unreleased, the new one shares its matcher and nothing is
    /// compiled. Otherwise the text is compiled as a byte-oriented pattern:
    /// on success the matcher is stored and a first handle returned, on
    /// failure the pool is left as it was.
    ///
    /// The request succeeds exactly on the texts that compile, whatever the
    /// pool holds, and fails with the error that the text is rejected with.
    pub fn parse(&mut self, pattern: &str) -> (result: Result<Regex, CompileError>)
        requires
            old(self).wf(),
            owners_of(old(self)@, pattern@) < usize::MAX,
        ensures
            final(self).wf(),
            result is Ok <==> byte_pattern_compiles(pattern@),
            old(self)@.contains_key(pattern@) ==> result is Ok,
            match result {
                Ok(handle) => {
                    &&& handle@ == pattern@
                    &&& handle.matcher() == final(self)@[pattern@].matcher
                    &&& final(self)@ == admitted(old(self)@, pattern@, Some(handle.matcher()))
                },
                Err(failure) => {
                    &&& final(self)@ == old(self)@
                    &&& failure == byte_pattern_failure(pattern@)
                },
            },
    {
        // An entry answers the request; only without one is the text compiled.
        match self.checkout(pattern) {
            Some(handle) => Ok(handle),
            None => {
                let compiled = CompiledMatcher::compile(pattern);
                self.register(compiled)
            },
        }
    }

    /// Returns one more handle to the matcher that `handle` points to, if the
    /// pool has an entry for its pattern text.
    pub fn duplicate(&mut self, handle: &Regex) -> (copy: Option<Regex>)
        requires
            old(self).wf(),
            owners_of(old(self)@, handle@) < usize::MAX,
        ensures
            final(self).wf(),
            final(self)@ == admitted(old(self)@, handle@, None),
            match copy {
                Some(shared) => old(self)@.contains_key(handle@) && shared@ == handle@
                    && shared.matcher() == old(self)@[handle@].matcher,
                None => !old(self)@.contains_key(handle@),
            },
    {
        self.checkout(handle.as_str())
    }

    /// Takes a handle back. The entry for its pattern text loses one owner,
    /// and is removed when that was the last one: the pool's own reference
    /// to a matcher is not counted among the owners, so no entry outlives
    /// its handles. A handle whose pattern text has no entry is dropped and
    /// the pool stays as it is.
    pub fn release(&mut self, handle: Regex)
        requires
            old(self).wf(),
        ensures
            final(self).wf(),
            final(self)@ == released(old(self)@, handle@),
    {
        proof {
            self.lemma_view_follows_table();
        }
        let text = handle.as_str();
        let found = match self.registry.get(text) {
            Some(slot) => {
                let owners: usize = slot.1;
                Some((slot.0.clone(), owners))
            },
            None => None,
        };
        match found {
            Some((matcher, owners)) => {
                if owners <= 1 {
                    let _ = self.registry.remove(text);
                } else {
                    let _ = self.registry.insert(text.to_owned(), (matcher, owners - 1));
                }
                proof {
                    self.lemma_view_follows_table();
                    assert(self@ =~= released(old(self)@, handle@));
                }
            },
            None => {},
        }
    }
}

} // verus!
