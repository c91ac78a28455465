//! The general server options and their resolver.
//!
//! [`General::resolve`] merges a fully populated invocation-time options
//! value with the file's optional `general` section, field by field: a field
//! the file sets replaces the default wholesale, a field the file omits keeps
//! the default. The merge is pure and total; it never fails.

use vstd::prelude::*;

use crate::file;

verus! {

/// One process's effective general server options, fully populated.
#[derive(Debug)]
pub struct General {
    /// Host address to bind.
    pub host: String,
    /// Port to bind.
    pub port: u16,
    /// Content root directory path.
    pub root: String,
    /// Log verbosity level, as its lowercase textual name.
    pub log_level: String,
    /// The resolved config-file path, when one was used.
    pub config_file: Option<String>,
    /// Whether to emit cache-control headers.
    pub cache_control_headers: bool,
    /// Whether to compress responses.
    pub compression: bool,
    /// Custom 404 error-page path.
    pub page404: String,
    /// Custom 50x error-page path.
    pub page50x: String,
    /// Whether to serve HTTP/2 with TLS.
    pub http2: bool,
    /// TLS certificate path, when HTTP/2 is enabled.
    pub http2_tls_cert: Option<String>,
    /// TLS key path, when HTTP/2 is enabled.
    pub http2_tls_key: Option<String>,
    /// Whether to emit security headers.
    pub security_headers: bool,
    /// CORS allowed origins.
    pub cors_allow_origins: String,
    /// CORS allowed headers.
    pub cors_allow_headers: String,
    /// Whether to list directories.
    pub directory_listing: bool,
    /// Sort order for directory listings.
    pub directory_listing_order: u8,
    /// Basic-auth credential string.
    pub basic_auth: String,
    /// Inherited socket file descriptor, when the listener is inherited.
    pub fd: Option<usize>,
    /// Worker thread multiplier.
    pub threads_multiplier: usize,
    /// Shutdown grace period in seconds.
    pub grace_period: u8,
    /// SPA fallback page path.
    pub page_fallback: Option<String>,
    /// Whether to log the remote address.
    pub log_remote_address: bool,
    /// Whether to redirect requests with a trailing slash.
    pub redirect_trailing_slash: bool,
}

/// The file's value when it sets one, else the invocation default.
pub open spec fn pick<T>(from_file: Option<T>, default: T) -> T {
    match from_file {
        Some(v) => v,
        None => default,
    }
}

/// For optional options: the file's value when it sets one, else the
/// invocation default (which may itself be absent).
pub open spec fn pick_opt<T>(from_file: Option<T>, default: Option<T>) -> Option<T> {
    match from_file {
        Some(v) => Some(v),
        None => default,
    }
}

/// The file's general section, or the section that sets nothing when the
/// file has none.
pub open spec fn or_empty(file: Option<file::General>) -> file::General {
    match file {
        Some(g) => g,
        None => file::General::spec_empty(),
    }
}

/// Field-independent override-if-present semantics: `r` holds, for every
/// field, the file's value where the section `g` sets one and the default
/// from `d` where it does not. The adopted log level is normalized to its
/// lowercase textual name; `cfg` is the resolved config-file path, which the
/// file section never overrides.
pub open spec fn general_resolved(
    d: General,
    g: file::General,
    cfg: Option<String>,
    r: General,
) -> bool {
    &&& r.host == pick(g.host, d.host)
    &&& r.port == pick(g.port, d.port)
    &&& r.root == pick(g.root, d.root)
    &&& (g.log_level matches Some(l) ==> r.log_level@ == l.spec_name())
    &&& (g.log_level is None ==> r.log_level == d.log_level)
    &&& r.config_file == cfg
    &&& r.cache_control_headers == pick(g.cache_control_headers, d.cache_control_headers)
    &&& r.compression == pick(g.compression, d.compression)
    &&& r.page404 == pick(g.page404, d.page404)
    &&& r.page50x == pick(g.page50x, d.page50x)
    &&& r.http2 == pick(g.http2, d.http2)
    &&& r.http2_tls_cert == pick_opt(g.http2_tls_cert, d.http2_tls_cert)
    &&& r.http2_tls_key == pick_opt(g.http2_tls_key, d.http2_tls_key)
    &&& r.security_headers == pick(g.security_headers, d.security_headers)
    &&& r.cors_allow_origins == pick(g.cors_allow_origins, d.cors_allow_origins)
    &&& r.cors_allow_headers == pick(g.cors_allow_headers, d.cors_allow_headers)
    &&& r.directory_listing == pick(g.directory_listing, d.directory_listing)
    &&& r.directory_listing_order == pick(g.directory_listing_order, d.directory_listing_order)
    &&& r.basic_auth == pick(g.basic_auth, d.basic_auth)
    &&& r.fd == pick_opt(g.fd, d.fd)
    &&& r.threads_multiplier == pick(g.threads_multiplier, d.threads_multiplier)
    &&& r.grace_period == pick(g.grace_period, d.grace_period)
    &&& r.page_fallback == pick_opt(g.page_fallback, d.page_fallback)
    &&& r.log_remote_address == pick(g.log_remote_address, d.log_remote_address)
    &&& r.redirect_trailing_slash == pick(g.redirect_trailing_slash, d.redirect_trailing_slash)
}

impl General {
    /// Merges these invocation defaults with the file's optional general
    /// section: every field the section sets replaces the default wholesale,
    /// every field it omits keeps the default. The config-file path is never
    /// taken from the section.
    pub fn resolve(self, file: Option<file::General>) -> (r: General)
        ensures
            general_resolved(self, or_empty(file), self.config_file, r),
    {
        match file {
            None => self,
            Some(g) => General {
                host: match g.host {
                    Some(v) => v,
                    None => self.host,
                },
                port: match g.port {
                    Some(v) => v,
                    None => self.port,
                },
                root: match g.root {
                    Some(v) => v,
                    None => self.root,
                },
                log_level: match g.log_level {
                    Some(l) => l.name(),
                    None => self.log_level,
                },
                config_file: self.config_file,
                cache_control_headers: match g.cache_control_headers {
                    Some(v) => v,
                    None => self.cache_control_headers,
                },
                compression: match g.compression {
                    Some(v) => v,
                    None => self.compression,
                },
                page404: match g.page404 {
                    Some(v) => v,
                    None => self.page404,
                },
                page50x: match g.page50x {
                    Some(v) => v,
                    None => self.page50x,
                },
                http2: match g.http2 {
                    Some(v) => v,
                    None => self.http2,
                },
                http2_tls_cert: match g.http2_tls_cert {
                    Some(v) => Some(v),
                    None => self.http2_tls_cert,
                },
                http2_tls_key: match g.http2_tls_key {
                    Some(v) => Some(v),
                    None => self.http2_tls_key,
                },
                security_headers: match g.security_headers {
                    Some(v) => v,
                    None => self.security_headers,
                },
                cors_allow_origins: match g.cors_allow_origins {
                    Some(v) => v,
                    None => self.cors_allow_origins,
                },
                cors_allow_headers: match g.cors_allow_headers {
                    Some(v) => v,
                    None => self.cors_allow_headers,
                },
                directory_listing: match g.directory_listing {
                    Some(v) => v,
                    None => self.directory_listing,
                },
                directory_listing_order: match g.directory_listing_order {
                    Some(v) => v,
                    None => self.directory_listing_order,
                },
                basic_auth: match g.basic_auth {
                    Some(v) => v,
                    None => self.basic_auth,
                },
                fd: match g.fd {
                    Some(v) => Some(v),
                    None => self.fd,
                },
                threads_multiplier: match g.threads_multiplier {
                    Some(v) => v,
                    None => self.threads_multiplier,
                },
                grace_period: match g.grace_period {
                    Some(v) => v,
                    None => self.grace_period,
                },
                page_fallback: match g.page_fallback {
                    Some(v) => Some(v),
                    None => self.page_fallback,
                },
                log_remote_address: match g.log_remote_address {
                    Some(v) => v,
                    None => self.log_remote_address,
                },
                redirect_trailing_slash: match g.redirect_trailing_slash {
                    Some(v) => v,
                    None => self.redirect_trailing_slash,
                },
            },
        }
    }
}

} // verus!
