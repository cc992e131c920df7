//! Compiled byte-oriented matchers and the handles that share them.
//!
//! Compilation and matching are done by the `regex` crate. What this module
//! assumes of it is stated on the items marked `external_body` below.

use std::sync::Arc;
use vstd::prelude::*;

verus! {

/// An immutable compiled form of one pattern: a `regex::bytes::Regex`.
#[verifier::external_body]
pub struct CompiledMatcher {
    inner: regex::bytes::Regex,
}

/// Why a pattern text could not be compiled.
#[derive(Debug, PartialEq, Eq)]
pub enum CompileError {
    /// The pattern text is not a valid pattern; the field is the diagnostic.
    Syntax(String),
    /// The compiled form would exceed the size limit given in the field, in bytes.
    CompiledTooBig(usize),
}

/// The pattern text that a compiled matcher was built from.
pub uninterp spec fn matcher_pattern(matcher: CompiledMatcher) -> Seq<char>;

/// Whether a compiled matcher finds a match anywhere in a haystack.
pub uninterp spec fn matcher_accepts(matcher: CompiledMatcher, haystack: Seq<u8>) -> bool;

/// Whether a pattern text compiles, with Unicode mode on or off. The compiler
/// bounds the size in bytes of what it builds, and that size depends on the
/// width of a pointer, so the width is part of the question.
pub uninterp spec fn pattern_compiles(pattern: Seq<char>, unicode: bool, pointer_bits: nat) -> bool;

/// The error that a pattern text which does not compile is rejected with.
pub uninterp spec fn pattern_failure(
    pattern: Seq<char>,
    unicode: bool,
    pointer_bits: nat,
) -> CompileError;

/// Whether a pattern text, compiled with Unicode mode on or off, finds a match
/// anywhere in a haystack.
pub uninterp spec fn pattern_accepts(pattern: Seq<char>, unicode: bool, haystack: Seq<u8>) -> bool;

/// Whether `pattern` compiles as a byte-oriented pattern on this machine.
pub open spec fn byte_pattern_compiles(pattern: Seq<char>) -> bool {
    pattern_compiles(pattern, false, usize::BITS as nat)
}

/// The error that `pattern` is rejected with as a byte-oriented pattern.
pub open spec fn byte_pattern_failure(pattern: Seq<char>) -> CompileError {
    pattern_failure(pattern, false, usize::BITS as nat)
}

/// Whether `pattern`, as a byte-oriented pattern, finds a match anywhere in
/// `haystack`: character classes and matching work on raw bytes, not on
/// decoded code points.
pub open spec fn byte_pattern_accepts(pattern: Seq<char>, haystack: Seq<u8>) -> bool {
    pattern_accepts(pattern, false, haystack)
}

/// A matcher is byte-compiled when it is what compiling its own pattern text
/// as a byte-oriented pattern gives: the text compiles, and the matcher
/// answers for every haystack as the text does.
pub open spec fn byte_compiled(matcher: CompiledMatcher) -> bool {
    &&& byte_pattern_compiles(matcher_pattern(matcher))
    &&& forall|haystack: Seq<u8>| #[trigger]
        matcher_accepts(matcher, haystack) == byte_pattern_accepts(
            matcher_pattern(matcher),
            haystack,
        )
}

/// Calls `std::sync::Arc::ptr_eq`.
///
/// Assumed: two pointers to one allocation hold one value.
#[verifier::external_body]
fn same_allocation(a: &Arc<CompiledMatcher>, b: &Arc<CompiledMatcher>) -> (same: bool)
    ensures
        same ==> *a == *b,
{
    Arc::ptr_eq(a, b)
}

impl CompiledMatcher {
    /// Builds a matcher with `regex::bytes::RegexBuilder`: `new` on the
    /// pattern, `unicode` with the given flag, then `build`. A `regex::Error`
    /// is handed on variant by variant.
    ///
    /// Assumed: whether the build succeeds, and the error where it does not,
    /// depend on the pattern text, the flag and the pointer width alone. A
    /// matcher that comes back reports the pattern text it was given, and
    /// what it matches depends on that text and the flag alone.
    #[verifier::external_body]
    fn build(pattern: &str, unicode: bool) -> (built: Result<CompiledMatcher, CompileError>)
        ensures
            built is Ok <==> pattern_compiles(pattern@, unicode, usize::BITS as nat),
            built matches Ok(matcher) ==> matcher_pattern(matcher) == pattern@,
            built matches Ok(matcher) ==> forall|haystack: Seq<u8>| #[trigger]
                matcher_accepts(matcher, haystack) == pattern_accepts(pattern@, unicode, haystack),
            built matches Err(failure) ==> failure == pattern_failure(
                pattern@,
                unicode,
                usize::BITS as nat,
            ),
    {
        match regex::bytes::RegexBuilder::new(pattern).unicode(unicode).build() {
            Ok(inner) => Ok(CompiledMatcher { inner }),
            Err(regex::Error::Syntax(diagnostic)) => Err(CompileError::Syntax(diagnostic)),
            Err(regex::Error::CompiledTooBig(limit)) => Err(CompileError::CompiledTooBig(limit)),
            Err(other) => Err(CompileError::Syntax(format!("{}", other))),
        }
    }

    /// Calls `regex::bytes::Regex::is_match`.
    ///
    /// Assumed: the answer depends on the matcher and the haystack alone.
    #[verifier::external_body]
    fn is_match(&self, haystack: &[u8]) -> (found: bool)
        ensures
            found == matcher_accepts(*self, haystack@),
    {
        self.inner.is_match(haystack)
    }

    /// Calls `regex::bytes::Regex::as_str`.
    ///
    /// Assumed: it returns the pattern text the matcher was built from.
    #[verifier::external_body]
    pub(crate) fn as_str(&self) -> (text: &str)
        ensures
            text@ == matcher_pattern(*self),
    {
        self.inner.as_str()
    }

    /// Compiles `pattern` as a byte-oriented pattern. It succeeds exactly on
    /// the texts that compile so; the matcher reports the text it was given
    /// and answers for every haystack as the text does.
    pub fn compile(pattern: &str) -> (compiled: Result<CompiledMatcher, CompileError>)
        ensures
            compiled is Ok <==> byte_pattern_compiles(pattern@),
            compiled matches Ok(matcher) ==> matcher_pattern(matcher) == pattern@ && byte_compiled(
                matcher,
            ),
            compiled matches Err(failure) ==> failure == byte_pattern_failure(pattern@),
    {
        CompiledMatcher::build(pattern, false)
    }
}

/// A handle to a compiled matcher. Handles for one pattern text that were
/// given out by one pool share one matcher.
///
/// A handle is counted by the pool that gave it out until it is handed to
/// `Pool::release`; one that is merely dropped stays counted, and its entry
/// stays in the pool.
pub struct Regex {
    matcher: Arc<CompiledMatcher>,
}

impl Regex {
    /// Every handle points to a byte-compiled matcher.
    #[verifier::type_invariant]
    spec fn points_to_byte_compiled(self) -> bool {
        byte_compiled(*self.matcher)
    }
}

impl View for Regex {
    type V = Seq<char>;

    /// The pattern text of the handle.
    open spec fn view(&self) -> Seq<char> {
        matcher_pattern(self.matcher())
    }
}

impl Regex {
    /// The compiled matcher behind the handle.
    pub closed spec fn matcher(&self) -> CompiledMatcher {
        *self.matcher
    }

    /// Whether the handle's pattern text, as a byte-oriented pattern, finds a
    /// match anywhere in `haystack`.
    pub open spec fn matches(&self, haystack: Seq<u8>) -> bool {
        byte_pattern_accepts(self@, haystack)
    }

    /// A handle to a matcher that is already shared.
    pub(crate) fn from_shared(matcher: Arc<CompiledMatcher>) -> (handle: Regex)
        requires
            byte_compiled(*matcher),
        ensures
            handle.matcher() == *matcher,
    {
        Regex { matcher }
    }

    /// Returns true if and only if the regex matches the bytes given. The
    /// answer depends on the pattern text and the bytes alone.
    pub fn is_match(&self, text: &[u8]) -> (found: bool)
        ensures
            found == self.matches(text@),
            found == matcher_accepts(self.matcher(), text@),
    {
        proof {
            use_type_invariant(self);
        }
        self.matcher.is_match(text)
    }

    /// Returns the pattern text of this regex, exactly as it was given.
    pub fn as_str(&self) -> (text: &str)
        ensures
            text@ == self@,
    {
        self.matcher.as_str()
    }

    /// Tells whether two handles point to one matcher in memory. Handles for
    /// which this holds have equal matchers, and so agree on every haystack.
    pub fn shares_matcher_with(&self, other: &Regex) -> (same: bool)
        ensures
            same ==> self.matcher() == other.matcher(),
    {
        same_allocation(&self.matcher, &other.matcher)
    }
}

} // verus!
