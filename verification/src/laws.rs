//! What holds of every pool, whatever is asked of it and in whatever order.
//!
//! The laws speak of pool states and of the two transitions, `admitted` and
//! `released`, by which `Pool::parse`, `Pool::register`,
//! `Pool::duplicate` and `Pool::release` describe what they do.

use crate::matcher::{
    byte_compiled, byte_pattern_compiles, matcher_accepts, matcher_pattern, CompiledMatcher, Regex,
};
use crate::pool::{admitted, first_entry, owners_of, released, valid, Entry};
use vstd::prelude::*;

verus! {

/// The state after `count` handles for `text` were released, one after the other.
pub open spec fn released_times(state: Map<Seq<char>, Entry>, text: Seq<char>, count: nat) -> Map<
    Seq<char>,
    Entry,
>
    decreases count,
{
    if count == 0 {
        state
    } else {
        released_times(released(state, text), text, (count - 1) as nat)
    }
}

/// A request leaves a valid state valid, provided that what was compiled for
/// it, if anything, was byte-compiled from the text asked for.
pub proof fn lemma_admitted_is_valid(
    state: Map<Seq<char>, Entry>,
    text: Seq<char>,
    compiled: Option<CompiledMatcher>,
)
    requires
        valid(state),
        compiled matches Some(matcher) ==> matcher_pattern(matcher) == text && byte_compiled(
            matcher,
        ),
    ensures
        valid(admitted(state, text, compiled)),
{
}

/// A release leaves a valid state valid.
pub proof fn lemma_released_is_valid(state: Map<Seq<char>, Entry>, text: Seq<char>)
    requires
        valid(state),
    ensures
        valid(released(state, text)),
{
}

/// While a pattern text has an unreleased handle, two further requests for it
/// are both answered from the entry that is there: the matcher stored for the
/// text stays the one that the earlier handle shares, whatever was compiled
/// for either request.
pub proof fn lemma_dedup_identity(
    state: Map<Seq<char>, Entry>,
    text: Seq<char>,
    first: Option<CompiledMatcher>,
    second: Option<CompiledMatcher>,
)
    requires
        valid(state),
        state.contains_key(text),
    ensures
        admitted(state, text, first)[text].matcher == state[text].matcher,
        admitted(admitted(state, text, first), text, second)[text].matcher == state[text].matcher,
        owners_of(admitted(admitted(state, text, first), text, second), text) == owners_of(
            state,
            text,
        ) + 2,
        admitted(admitted(state, text, first), text, second).dom() == state.dom(),
{
    let once = admitted(state, text, first);
    let twice = admitted(once, text, second);
    assert(twice.dom() =~= state.dom());
}

/// An entry keeps its matcher for as long as it exists: no request and no
/// release, for its own text or for another, replaces it. It ceases to exist
/// exactly when its last owner is released.
pub proof fn lemma_entry_keeps_matcher(
    state: Map<Seq<char>, Entry>,
    text: Seq<char>,
    other: Seq<char>,
    compiled: Option<CompiledMatcher>,
)
    requires
        valid(state),
        state.contains_key(text),
    ensures
        admitted(state, other, compiled).contains_key(text),
        admitted(state, other, compiled)[text].matcher == state[text].matcher,
        released(state, other).contains_key(text) <==> other != text || state[text].owners > 1,
        released(state, other).contains_key(text) ==> released(state, other)[text].matcher
            == state[text].matcher,
{
}

/// Two handles for different pattern texts never point to one matcher.
pub proof fn lemma_distinct_handles(first: Regex, second: Regex)
    requires
        first@ != second@,
    ensures
        first.matcher() != second.matcher(),
{
}

/// The entries of two different pattern texts never hold one matcher.
pub proof fn lemma_distinct_entries(
    state: Map<Seq<char>, Entry>,
    first: Seq<char>,
    second: Seq<char>,
)
    requires
        valid(state),
        state.contains_key(first),
        state.contains_key(second),
        first != second,
    ensures
        state[first].matcher != state[second].matcher,
{
}

/// Releasing the handle that a request returned puts the pool back into the
/// state before the request: the same entries, the same owners, and so the
/// same size, however often the cycle is repeated.
pub proof fn lemma_release_undoes_request(
    state: Map<Seq<char>, Entry>,
    text: Seq<char>,
    compiled: Option<CompiledMatcher>,
)
    requires
        valid(state),
    ensures
        released(admitted(state, text, compiled), text) == state,
        released(admitted(state, text, compiled), text).len() == state.len(),
{
    assert(released(admitted(state, text, compiled), text) =~= state);
}

/// The state after a run of requests for `text`, each followed by the release
/// of the handle it returned. `outcomes` holds, for each request in turn,
/// what was compiled for it, if anything.
pub open spec fn cycled(
    state: Map<Seq<char>, Entry>,
    text: Seq<char>,
    outcomes: Seq<Option<CompiledMatcher>>,
) -> Map<Seq<char>, Entry>
    decreases outcomes.len(),
{
    if outcomes.len() == 0 {
        state
    } else {
        cycled(released(admitted(state, text, outcomes[0]), text), text, outcomes.drop_first())
    }
}

/// However many times a text is requested and its handle released, and
/// whether or not the requests succeed, the pool ends in the state it began
/// in: nothing accumulates.
pub proof fn lemma_cycles_leave_no_trace(
    state: Map<Seq<char>, Entry>,
    text: Seq<char>,
    outcomes: Seq<Option<CompiledMatcher>>,
)
    requires
        valid(state),
    ensures
        cycled(state, text, outcomes) == state,
    decreases outcomes.len(),
{
    if outcomes.len() > 0 {
        lemma_release_undoes_request(state, text, outcomes[0]);
        lemma_cycles_leave_no_trace(state, text, outcomes.drop_first());
    }
}

/// Once every handle for a pattern text has been released, the pool has no
/// entry for it, and every other entry is as it was.
pub proof fn lemma_reclaimed_after_last_release(state: Map<Seq<char>, Entry>, text: Seq<char>)
    requires
        valid(state),
    ensures
        !released_times(state, text, owners_of(state, text)).contains_key(text),
        released_times(state, text, owners_of(state, text)) == state.remove(text),
    decreases owners_of(state, text),
{
    let count = owners_of(state, text);
    if count == 0 {
        assert(state.remove(text) =~= state);
    } else {
        let next = released(state, text);
        lemma_released_is_valid(state, text);
        lemma_reclaimed_after_last_release(next, text);
        assert(owners_of(next, text) == count - 1);
        assert(next.remove(text) =~= state.remove(text));
    }
}

/// A text that has an entry compiles: a request for it succeeds while the
/// entry is there, and again after the entry was given up.
pub proof fn lemma_entry_text_compiles(state: Map<Seq<char>, Entry>, text: Seq<char>)
    requires
        valid(state),
        state.contains_key(text),
    ensures
        byte_pattern_compiles(text),
{
}

/// Two byte-compiled matchers of one pattern text answer alike on every
/// haystack, whether or not they are one matcher: what a handle matches
/// depends on its pattern text and the haystack alone.
pub proof fn lemma_one_text_one_answer(
    first: CompiledMatcher,
    second: CompiledMatcher,
    haystack: Seq<u8>,
)
    requires
        byte_compiled(first),
        byte_compiled(second),
        matcher_pattern(first) == matcher_pattern(second),
    ensures
        matcher_accepts(first, haystack) == matcher_accepts(second, haystack),
{
}

/// After the last release a new request finds no entry: the matcher compiled
/// for it becomes a new entry, and the request's handle is its only owner.
pub proof fn lemma_fresh_after_reclamation(
    state: Map<Seq<char>, Entry>,
    text: Seq<char>,
    compiled: CompiledMatcher,
)
    requires
        valid(state),
    ensures
        admitted(
            released_times(state, text, owners_of(state, text)),
            text,
            Some(compiled),
        ) == state.insert(text, first_entry(compiled)),
{
    lemma_reclaimed_after_last_release(state, text);
    assert(state.remove(text).insert(text, first_entry(compiled)) =~= state.insert(
        text,
        first_entry(compiled),
    ));
}

/// A request for a text that has no entry and does not compile changes
/// nothing: no entry appears and the size stays what it was.
pub proof fn lemma_failed_request_changes_nothing(state: Map<Seq<char>, Entry>, text: Seq<char>)
    requires
        !state.contains_key(text),
    ensures
        admitted(state, text, None) == state,
        admitted(state, text, None).len() == state.len(),
{
}

} // verus!
