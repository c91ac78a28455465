//! The errors that can abort settings resolution.
//!
//! All of them are fatal: resolution is all-or-nothing, and no partially
//! configured value escapes.

use vstd::prelude::*;

verus! {

/// The kind of advanced rule an error arose in.
#[derive(Clone, Copy, Debug, PartialEq, Eq, Structural)]
pub enum RuleKind {
    Headers,
    Rewrites,
    Redirects,
}

/// A fatal settings-resolution error.
#[derive(Clone, Debug, PartialEq, Eq)]
pub enum ConfigError {
    /// The config-file path names an existing file but could not be
    /// canonicalized; `cause` is the underlying failure's text.
    PathResolutionError { cause: String },
    /// The config file is present but malformed or uses unsupported option
    /// shapes; `cause` is the decoder's failure text.
    FileDecodeError { cause: String },
    /// A declared pattern string failed to compile into a matcher; carries
    /// the rule kind and the literal offending pattern.
    GlobCompileError { kind: RuleKind, pattern: String },
    /// A declared redirect status code lies outside the legal range 100-999;
    /// carries the offending value.
    StatusCodeError { code: u16 },
}

} // verus!
