//! Source patterns. A pattern is compiled by the `glob` crate into a lazy
//! stream of matching paths; this module opens such streams and keeps each
//! one beside the text it was opened from. Walking a stream reads the file
//! system and is left to the caller.

use vstd::prelude::*;
use vstd::string::*;
use crate::error::ArchiveError;

verus! {

/// `glob::Paths`, the lazy stream of the paths that match one pattern.
/// Nothing of its inside is visible here.
#[verifier::external_type_specification]
#[verifier::external_body]
pub struct ExPaths(glob::Paths);

/// `glob::PatternError`, the reason why a pattern did not compile.
#[verifier::external_type_specification]
#[verifier::external_body]
pub struct ExPatternError(glob::PatternError);

/// `glob::GlobError`, which `glob::Paths` yields for a path it cannot read.
/// Declared because the stream's item type mentions it.
#[verifier::external_type_specification]
#[verifier::external_body]
pub struct ExGlobError(glob::GlobError);

/// `std::path::PathBuf`, which `glob::Paths` yields for a match. Declared
/// because the stream's item type mentions it.
#[verifier::external_type_specification]
#[verifier::external_body]
pub struct ExPathBuf(std::path::PathBuf);

/// Whether `glob::glob` compiles `pattern`, on the platform the library
/// is built for.
pub uninterp spec fn glob_accepts(pattern: Seq<char>) -> bool;

/// Calls `glob::glob`. Trusted: the call succeeds exactly for the patterns
/// that `glob_accepts` holds of. Nothing is claimed of the stream that it
/// returns.
///
/// `glob::glob` refuses a pattern for its syntax alone. It also asks the
/// file system whether the directory where the search starts is one; the
/// answer is kept inside the stream and has no part in the result here.
/// With `/` as the only separator the root that `glob` cuts off the
/// pattern is empty or `/`, so the cut cannot fail.
#[verifier::external_body]
fn open_glob(pattern: &str) -> (r: Result<glob::Paths, glob::PatternError>)
    ensures
        r is Ok <==> glob_accepts(pattern@),
{
    glob::glob(pattern)
}

/// One compiled source pattern: its text and the stream of its matches.
/// The two get together in `open` and nowhere else.
#[derive(Debug)]
pub struct Source {
    pattern: String,
    stream: glob::Paths,
}

impl Source {
    /// A source is seen as the text of its pattern. The stream is opaque
    /// and has no part in the view.
    pub closed spec fn view(&self) -> Seq<char> {
        self.pattern@
    }

    /// Compiles `pattern`. A pattern that `glob` refuses makes the
    /// directives malformed.
    pub fn open(pattern: &str) -> (r: Result<Source, ArchiveError>)
        ensures
            r is Ok <==> glob_accepts(pattern@),
            r matches Ok(source) ==> source@ == pattern@,
            r matches Err(e) ==> e == ArchiveError::MalformedDirectives,
    {
        match open_glob(pattern) {
            Ok(stream) => Ok(Source { pattern: String::from_str(pattern), stream }),
            Err(_) => Err(ArchiveError::MalformedDirectives),
        }
    }

    /// The text of the pattern.
    pub fn pattern(&self) -> (r: &str)
        ensures
            r@ == self@,
    {
        self.pattern.as_str()
    }

    /// Hands out the stream of matches, to be walked by the caller. What
    /// it yields depends on the file system; no contract speaks of it.
    pub fn into_stream(self) -> glob::Paths {
        self.stream
    }
}

/// The patterns that `glob` compiles, as a predicate.
pub open spec fn glob_patterns() -> spec_fn(Seq<char>) -> bool {
    |pattern: Seq<char>| glob_accepts(pattern)
}

/// The patterns of a group of sources, in order.
pub open spec fn patterns_of(group: Seq<Source>) -> Seq<Seq<char>> {
    Seq::new(group.len(), |i: int| group[i]@)
}

} // verus!
