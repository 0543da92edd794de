//! Glob patterns, compiled and matched by the `globset` crate.

use crate::response::EndpointError;
use vstd::prelude::*;
use vstd::string::StringExecFns;

verus! {

#[verifier::external_type_specification]
#[verifier::external_body]
pub struct ExGlobSet(globset::GlobSet);

#[verifier::external_type_specification]
#[verifier::external_body]
pub struct ExGlobError(globset::Error);

/// The patterns of the globs that a `globset::GlobSet` was built from, in
/// the order in which they were given.
pub uninterp spec fn glob_set_patterns(set: globset::GlobSet) -> Seq<Seq<char>>;

/// Whether `globset` parses `pattern` as a glob and builds a set from it.
pub uninterp spec fn glob_compiles(pattern: Seq<char>) -> bool;

/// Whether a `globset::GlobSet` built from `patterns` matches `text`.
pub uninterp spec fn glob_set_matches(patterns: Seq<Seq<char>>, text: Seq<char>) -> bool;

/// Whether the glob `pattern` matches `text`: the answer of the set that
/// holds this one glob.
pub open spec fn glob_matches(pattern: Seq<char>, text: Seq<char>) -> bool {
    glob_set_matches(seq![pattern], text)
}

/// The most opening braces that a pattern may hold.
pub const MAX_OPEN_BRACES: usize = 256;

/// The test for an opening brace.
pub open spec fn is_open_brace() -> spec_fn(char) -> bool {
    |c: char| c == '{'
}

/// How many opening braces a pattern holds, each counted as it stands.
pub open spec fn open_braces(pattern: Seq<char>) -> nat {
    pattern.filter(is_open_brace()).len()
}

/// Whether a pattern can be compiled: it holds no more opening braces than
/// [`MAX_OPEN_BRACES`], and `globset` takes it.
pub open spec fn compiles(pattern: Seq<char>) -> bool {
    open_braces(pattern) <= MAX_OPEN_BRACES && glob_compiles(pattern)
}

/// Calls `globset::Glob::new` with default options and, on the glob that it
/// returns, `globset::GlobSet::new`. Trusted: the call succeeds exactly on
/// the patterns that `glob_compiles` names, and the set then holds this one
/// pattern. Which patterns those are is left to `globset`. `globset` walks
/// nested alternates by recursion, one level for each brace that is open, and
/// on some thousand levels the stack runs out; the bound on the braces keeps
/// the recursion shallow.
#[verifier::external_body]
fn build_glob_set(pattern: &str) -> (built: Result<globset::GlobSet, globset::Error>)
    requires
        open_braces(pattern@) <= MAX_OPEN_BRACES,
    ensures
        built is Ok <==> glob_compiles(pattern@),
        built matches Ok(set) ==> glob_set_patterns(set) == seq![pattern@],
{
    match globset::Glob::new(pattern) {
        Ok(glob) => globset::GlobSet::new([glob]),
        Err(error) => Err(error),
    }
}

/// Calls `globset::GlobSet::is_match`. Trusted: the answer depends on the
/// set's patterns and on the text alone, and is what `glob_set_matches`
/// names. The text is matched as it stands, the way `globset` matches a
/// path on the platform that the crate is built for.
#[verifier::external_body]
fn glob_set_is_match(set: &globset::GlobSet, text: &str) -> (hit: bool)
    ensures
        hit == glob_set_matches(glob_set_patterns(*set), text@),
{
    set.is_match(text)
}

/// Calls `to_string` on a `globset::Error`, which formats it by its
/// `Display`. Nothing is claimed of the text.
#[verifier::external_body]
fn glob_error_text(error: &globset::Error) -> (text: String) {
    error.to_string()
}

/// Whether a pattern holds no more opening braces than [`MAX_OPEN_BRACES`].
fn within_brace_limit(pattern: &str) -> (within: bool)
    ensures
        within == (open_braces(pattern@) <= MAX_OPEN_BRACES),
{
    let ghost all = pattern@;
    let ghost test = is_open_brace();
    let mut count: usize = 0;
    proof {
        reveal(Seq::filter);
        assert(all.take(0) =~= Seq::<char>::empty());
    }
    for c in iter: pattern.chars()
        invariant
            iter.seq() == all,
            all == pattern@,
            test == is_open_brace(),
            count == all.take(iter.index() as int).filter(test).len(),
            count <= MAX_OPEN_BRACES,
    {
        let ghost index = iter.index() as int;
        proof {
            assert(all.take(index + 1) =~= all.take(index).push(c));
            all.take(index).lemma_filter_push(c, test);
        }
        if c == '{' {
            if count == MAX_OPEN_BRACES {
                proof {
                    all.lemma_filter_take_len(test, index + 1);
                }
                return false;
            }
            count += 1;
        }
    }
    assert(all.take(all.len() as int) =~= all);
    true
}

/// A compiled glob pattern.
pub struct Matcher {
    pattern: String,
    set: globset::GlobSet,
}

impl View for Matcher {
    type V = Seq<char>;

    /// The pattern that the matcher was compiled from.
    closed spec fn view(&self) -> Seq<char> {
        self.pattern@
    }
}

impl Matcher {
    /// The compiled set holds exactly the pattern that the matcher shows.
    #[verifier::type_invariant]
    spec fn well_formed(&self) -> bool {
        &&& compiles(self.pattern@)
        &&& glob_set_patterns(self.set) == seq![self.pattern@]
    }

    /// Compiles `pattern`. Fails with [`EndpointError::Pattern`] exactly when
    /// the pattern is malformed or holds more than [`MAX_OPEN_BRACES`]
    /// opening braces.
    pub fn compile(pattern: &str) -> (compiled: Result<Matcher, EndpointError>)
        ensures
            match compiled {
                Ok(matcher) => compiles(pattern@) && matcher@ == pattern@,
                Err(error) => !compiles(pattern@) && error is Pattern,
            },
    {
        if !within_brace_limit(pattern) {
            return Err(EndpointError::Pattern(String::from_str("too many opening braces in glob")));
        }
        match build_glob_set(pattern) {
            Ok(set) => Ok(Matcher { pattern: pattern.to_owned(), set }),
            Err(error) => Err(EndpointError::Pattern(glob_error_text(&error))),
        }
    }

    /// The pattern that the matcher was compiled from. It is one that
    /// compiles.
    pub fn glob(&self) -> (pattern: &str)
        ensures
            pattern@ == self@,
            compiles(self@),
    {
        proof {
            use_type_invariant(self);
        }
        self.pattern.as_str()
    }

    /// Whether the pattern matches `text`. The text is taken as it stands:
    /// nothing is trimmed and no case is folded.
    pub fn is_match(&self, text: &str) -> (hit: bool)
        ensures
            hit == glob_matches(self@, text@),
    {
        proof {
            use_type_invariant(self);
        }
        glob_set_is_match(&self.set, text)
    }
}

} // verus!
