//! Compiled glob patterns.
//!
//! A [`GlobPattern`] pairs a source pattern string with the matcher compiled
//! from exactly that string, so every matcher in a rule is derived from one
//! recorded source pattern.

use vstd::prelude::*;

verus! {

#[verifier::external_type_specification]
#[verifier::external_body]
pub struct ExGlobSet(globset::GlobSet);

#[verifier::external_type_specification]
#[verifier::external_body]
pub struct ExGlobsetError(globset::Error);

/// Whether glob compilation accepts `pattern`: the string parses as glob
/// syntax and its matcher compiles within the regex engine's size limit.
/// Both depend on the pattern string alone.
pub uninterp spec fn glob_ok(pattern: Seq<char>) -> bool;

/// Whether the matcher compiled from `pattern` accepts `path`. Matching
/// depends on the pattern and the path alone.
pub uninterp spec fn glob_match(pattern: Seq<char>, path: Seq<char>) -> bool;

/// A glob matcher together with the source pattern it was compiled from.
/// The source string is retained for diagnostics only.
#[derive(Debug)]
pub struct GlobPattern {
    source: String,
    matcher: globset::GlobSet,
}

impl GlobPattern {
    /// The source pattern this matcher was compiled from.
    pub closed spec fn pattern(&self) -> Seq<char> {
        self.source@
    }

    /// Relies on globset::Glob::new and globset::GlobSetBuilder::build:
    /// parsing and matcher compilation succeed or fail on the pattern string
    /// alone (default options), and the returned one-pattern set is compiled
    /// from exactly that pattern. `build` reports a matcher over the regex
    /// engine's size limit as an error; nothing on this path panics.
    #[verifier::external_body]
    pub fn compile(source: &str) -> (r: Result<GlobPattern, globset::Error>)
        ensures
            r is Ok <==> glob_ok(source@),
            r matches Ok(p) ==> p.pattern() == source@,
    {
        let glob = match globset::Glob::new(source) {
            Ok(g) => g,
            Err(e) => return Err(e),
        };
        let mut builder = globset::GlobSetBuilder::new();
        builder.add(glob);
        match builder.build() {
            Ok(set) => Ok(GlobPattern { source: source.to_owned(), matcher: set }),
            Err(e) => Err(e),
        }
    }

    /// Relies on globset::GlobSet::is_match on a one-pattern set: the result
    /// is a function of the pattern the set was compiled from and of the path
    /// alone. `compile`, the only constructor, built `matcher` from `source`.
    #[verifier::external_body]
    pub fn is_match(&self, path: &str) -> (r: bool)
        ensures
            r == glob_match(self.pattern(), path@),
    {
        self.matcher.is_match(path)
    }

    /// The recorded source pattern string.
    pub fn source_str(&self) -> (r: &str)
        ensures
            r@ == self.pattern(),
    {
        self.source.as_str()
    }
}

} // verus!
