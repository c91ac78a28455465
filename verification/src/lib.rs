//! Resolution of a file server's runtime configuration.
//!
//! The crate merges invocation-time options with an optional structured
//! configuration file into one immutable [`Settings`] value, and compiles the
//! file's pattern-based routing rules (custom headers, rewrites, redirects)
//! into ready-to-match runtime rules.

pub mod errors;
pub mod file;
pub mod general;
pub mod pattern;
pub mod rules;
pub mod status;

pub use errors::ConfigError;
pub use errors::RuleKind;
pub use general::General;
pub use pattern::GlobPattern;
pub use rules::Advanced;
pub use rules::Headers;
pub use rules::Redirects;
pub use rules::Rewrites;
pub use status::StatusCode;

use general::general_resolved;
use general::or_empty;
use rules::advanced_compiled;
use rules::advanced_err;
use rules::advanced_ok;
use rules::compile_advanced;
use vstd::prelude::*;

verus! {

/// Outcome of locating and decoding the optional configuration file,
/// established by the caller before settings resolution runs.
///
/// A path that does not name an existing regular file is `Absent`: a stale
/// or missing path reference never blocks startup.
pub enum FileLoadOutcome {
    /// No config-file path was supplied, or the path is not an existing
    /// regular file.
    Absent,
    /// The path names an existing file but could not be canonicalized;
    /// `cause` is the underlying failure's text.
    ResolveFailed { cause: String },
    /// The file exists but the decoder could not produce a document; `cause`
    /// is the decoder's failure text.
    DecodeFailed { cause: String },
    /// The file was found at the canonicalized `path` and decoded into
    /// `file`.
    Loaded { path: String, file: file::Settings },
}

/// The full resolved server options: general options merged from both
/// sources, plus the compiled advanced rules. Immutable once assembled.
#[derive(Debug)]
pub struct Settings {
    /// General server options.
    pub general: General,
    /// Advanced server options.
    pub advanced: Option<Advanced>,
}

/// The advanced section, when the document has one, compiles in full.
pub open spec fn file_ok(f: file::Settings) -> bool {
    f.advanced matches Some(a) ==> advanced_ok(a)
}

impl Settings {
    /// Converges the invocation options and the decoded config file into one
    /// settings value.
    ///
    /// With no usable file the invocation options stand alone and the
    /// advanced rules are absent. A failure to canonicalize the path or to
    /// decode the document is fatal, as is any advanced-rule compilation
    /// failure: no partially resolved settings value escapes.
    pub fn get(opts: General, outcome: FileLoadOutcome) -> (r: Result<Settings, ConfigError>)
        ensures
            outcome is Absent ==> (r matches Ok(s) && s.general == opts && s.advanced is None),
            outcome matches FileLoadOutcome::ResolveFailed { cause } ==> (r matches Err(e)
                && e == (ConfigError::PathResolutionError { cause })),
            outcome matches FileLoadOutcome::DecodeFailed { cause } ==> (r matches Err(e) && e == (
            ConfigError::FileDecodeError { cause })),
            outcome matches FileLoadOutcome::Loaded { path, file } ==> {
                &&& (r is Ok <==> file_ok(file))
                &&& (r matches Ok(s) ==> {
                    &&& general_resolved(opts, or_empty(file.general), Some(path), s.general)
                    &&& (s.advanced is Some <==> file.advanced is Some)
                    &&& (file.advanced matches Some(a) ==> s.advanced matches Some(ca)
                        && advanced_compiled(a, ca))
                })
                &&& (r matches Err(e) ==> file.advanced matches Some(a) && advanced_err(a, e))
            },
    {
        match outcome {
            FileLoadOutcome::Absent => Ok(Settings { general: opts, advanced: None }),
            FileLoadOutcome::ResolveFailed { cause } => Err(
                ConfigError::PathResolutionError { cause },
            ),
            FileLoadOutcome::DecodeFailed { cause } => Err(ConfigError::FileDecodeError { cause }),
            FileLoadOutcome::Loaded { path, file } => {
                let mut base = opts;
                base.config_file = Some(path);
                let resolved = base.resolve(file.general);
                let advanced = match file.advanced {
                    None => None,
                    Some(a) => match compile_advanced(a) {
                        Ok(ca) => Some(ca),
                        Err(e) => {
                            return Err(e);
                        },
                    },
                };
                Ok(Settings { general: resolved, advanced })
            },
        }
    }
}

} // verus!
