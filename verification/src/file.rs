//! The decoded configuration-file document.
//!
//! These types hold, as plain values, what an external decoder produces from
//! the configuration file: an optional `general` section whose fields mirror
//! the invocation options one-to-one (each individually optional), and an
//! optional `advanced` section with up to three optional ordered rule lists.

use vstd::prelude::*;

verus! {

/// A log verbosity level as declared in the file's general section.
#[derive(Clone, Copy, Debug, PartialEq, Eq, Structural)]
pub enum LogLevel {
    Error,
    Warn,
    Info,
    Debug,
    Trace,
}

impl LogLevel {
    /// The lowercase textual name of this level, the one representation both
    /// configuration sources converge to.
    pub open spec fn spec_name(&self) -> Seq<char> {
        match self {
            LogLevel::Error => "error"@,
            LogLevel::Warn => "warn"@,
            LogLevel::Info => "info"@,
            LogLevel::Debug => "debug"@,
            LogLevel::Trace => "trace"@,
        }
    }

    /// The lowercase textual name of this level.
    pub fn name(&self) -> (r: String)
        ensures
            r@ == self.spec_name(),
    {
        match self {
            LogLevel::Error => "error".to_owned(),
            LogLevel::Warn => "warn".to_owned(),
            LogLevel::Info => "info".to_owned(),
            LogLevel::Debug => "debug".to_owned(),
            LogLevel::Trace => "trace".to_owned(),
        }
    }
}

/// One custom header: a name and a raw value payload.
#[derive(Clone, Debug, PartialEq, Eq)]
pub struct HeaderEntry {
    pub name: String,
    pub value: String,
}

/// The names of a header mapping are pairwise distinct, as the decoder
/// guarantees of every mapping it produces.
pub open spec fn header_names_unique(hs: Seq<HeaderEntry>) -> bool {
    forall|i: int, j: int| 0 <= i < j < hs.len() ==> hs[i].name@ != hs[j].name@
}

/// The file's `general` section: every invocation option, individually
/// optional. An absent field keeps the invocation default.
pub struct General {
    pub host: Option<String>,
    pub port: Option<u16>,
    pub root: Option<String>,
    pub log_level: Option<LogLevel>,
    pub cache_control_headers: Option<bool>,
    pub compression: Option<bool>,
    pub page404: Option<String>,
    pub page50x: Option<String>,
    pub http2: Option<bool>,
    pub http2_tls_cert: Option<String>,
    pub http2_tls_key: Option<String>,
    pub security_headers: Option<bool>,
    pub cors_allow_origins: Option<String>,
    pub cors_allow_headers: Option<String>,
    pub directory_listing: Option<bool>,
    pub directory_listing_order: Option<u8>,
    pub basic_auth: Option<String>,
    pub fd: Option<usize>,
    pub threads_multiplier: Option<usize>,
    pub grace_period: Option<u8>,
    pub page_fallback: Option<String>,
    pub log_remote_address: Option<bool>,
    pub redirect_trailing_slash: Option<bool>,
}

impl General {
    /// A section that sets no field: resolving against it keeps every
    /// invocation default.
    pub open spec fn spec_empty() -> General {
        General {
            host: None,
            port: None,
            root: None,
            log_level: None,
            cache_control_headers: None,
            compression: None,
            page404: None,
            page50x: None,
            http2: None,
            http2_tls_cert: None,
            http2_tls_key: None,
            security_headers: None,
            cors_allow_origins: None,
            cors_allow_headers: None,
            directory_listing: None,
            directory_listing_order: None,
            basic_auth: None,
            fd: None,
            threads_multiplier: None,
            grace_period: None,
            page_fallback: None,
            log_remote_address: None,
            redirect_trailing_slash: None,
        }
    }

    /// Builds the section that sets no field.
    pub fn empty() -> (r: General)
        ensures
            r == Self::spec_empty(),
    {
        General {
            host: None,
            port: None,
            root: None,
            log_level: None,
            cache_control_headers: None,
            compression: None,
            page404: None,
            page50x: None,
            http2: None,
            http2_tls_cert: None,
            http2_tls_key: None,
            security_headers: None,
            cors_allow_origins: None,
            cors_allow_headers: None,
            directory_listing: None,
            directory_listing_order: None,
            basic_auth: None,
            fd: None,
            threads_multiplier: None,
            grace_period: None,
            page_fallback: None,
            log_remote_address: None,
            redirect_trailing_slash: None,
        }
    }
}

/// A declared custom-headers rule: a source pattern string and the headers
/// to apply on paths it matches (names unique, guaranteed by the decoder).
pub struct Headers {
    pub source: String,
    pub headers: Vec<HeaderEntry>,
}

impl Headers {
    /// A declared rule is well formed when its header names are unique.
    pub open spec fn wf(&self) -> bool {
        header_names_unique(self.headers@)
    }
}

/// A declared rewrite rule: a source pattern string and a destination path.
pub struct Rewrites {
    pub source: String,
    pub destination: String,
}

/// A declared redirect rule: a source pattern string, a destination path,
/// and the numeric redirection status code.
pub struct Redirects {
    pub source: String,
    pub destination: String,
    pub kind: u16,
}

/// The file's `advanced` section: three independent optional ordered rule
/// lists. An absent list means no rules of that kind.
pub struct Advanced {
    pub headers: Option<Vec<Headers>>,
    pub rewrites: Option<Vec<Rewrites>>,
    pub redirects: Option<Vec<Redirects>>,
}

/// The whole decoded document: both sections optional.
pub struct Settings {
    pub general: Option<General>,
    pub advanced: Option<Advanced>,
}

} // verus!
