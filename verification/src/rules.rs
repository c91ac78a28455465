//! The advanced rules compiler.
//!
//! Each declared rule list is compiled independently, in declaration order:
//! every source pattern string is compiled into a matcher, and a redirect's
//! status code is validated against the legal numeric range. The first
//! failing entry aborts the whole compilation; no partial list escapes.

use vstd::prelude::*;

use crate::errors::ConfigError;
use crate::errors::RuleKind;
use crate::file;
use crate::file::HeaderEntry;
use crate::pattern::GlobPattern;
use crate::pattern::glob_ok;
use crate::status::StatusCode;

verus! {

/// A compiled custom-headers rule: the pattern matcher and the headers to
/// apply on paths it matches.
#[derive(Debug)]
pub struct Headers {
    /// Source pattern glob matcher.
    pub source: GlobPattern,
    /// The custom headers, names unique.
    pub headers: Vec<HeaderEntry>,
}

impl Headers {
    /// A compiled rule is well formed when its header names are unique.
    pub open spec fn wf(&self) -> bool {
        crate::file::header_names_unique(self.headers@)
    }
}

/// A compiled rewrite rule: the pattern matcher and the destination path.
#[derive(Debug)]
pub struct Rewrites {
    /// Source pattern glob matcher.
    pub source: GlobPattern,
    /// Destination path.
    pub destination: String,
}

/// A compiled redirect rule: the pattern matcher, the destination path, and
/// the validated redirection status code.
#[derive(Debug)]
pub struct Redirects {
    /// Source pattern glob matcher.
    pub source: GlobPattern,
    /// Destination path.
    pub destination: String,
    /// Redirection status code, conventionally 301 (Moved Permanently) or
    /// 302 (Found), though any legal code is retained.
    pub kind: StatusCode,
}

/// The compiled advanced options: three independent optional ordered rule
/// lists. An absent list means the file declared no rules of that kind.
#[derive(Debug)]
pub struct Advanced {
    pub headers: Option<Vec<Headers>>,
    pub rewrites: Option<Vec<Rewrites>>,
    pub redirects: Option<Vec<Redirects>>,
}

/// Every declared headers entry has a compilable source pattern.
pub open spec fn headers_all_ok(s: Seq<file::Headers>) -> bool {
    forall|i: int| 0 <= i < s.len() ==> glob_ok(#[trigger] s[i].source@)
}

/// Every declared rewrites entry has a compilable source pattern.
pub open spec fn rewrites_all_ok(s: Seq<file::Rewrites>) -> bool {
    forall|i: int| 0 <= i < s.len() ==> glob_ok(#[trigger] s[i].source@)
}

/// A declared redirects entry compiles: its pattern is compilable and its
/// status code is legal.
pub open spec fn redirect_ok(e: file::Redirects) -> bool {
    glob_ok(e.source@) && StatusCode::valid_code(e.kind)
}

/// Every declared redirects entry compiles.
pub open spec fn redirects_all_ok(s: Seq<file::Redirects>) -> bool {
    forall|i: int| 0 <= i < s.len() ==> redirect_ok(#[trigger] s[i])
}

/// `out` is the compiled form of the declared list `src`: same length, same
/// order, each matcher compiled from exactly its entry's source pattern, each
/// payload carried over unchanged, and header-name uniqueness preserved.
pub open spec fn headers_compiled(src: Seq<file::Headers>, out: Seq<Headers>) -> bool {
    &&& out.len() == src.len()
    &&& forall|i: int|
        0 <= i < src.len() ==> {
            &&& (#[trigger] out[i]).source.pattern() == src[i].source@
            &&& out[i].headers == src[i].headers
            &&& (src[i].wf() ==> out[i].wf())
        }
}

/// `out` is the compiled form of the declared rewrite list `src`, order and
/// payloads preserved.
pub open spec fn rewrites_compiled(src: Seq<file::Rewrites>, out: Seq<Rewrites>) -> bool {
    &&& out.len() == src.len()
    &&& forall|i: int|
        0 <= i < src.len() ==> {
            &&& (#[trigger] out[i]).source.pattern() == src[i].source@
            &&& out[i].destination == src[i].destination
        }
}

/// `out` is the compiled form of the declared redirect list `src`, order and
/// payloads preserved and each status code retained exactly.
pub open spec fn redirects_compiled(src: Seq<file::Redirects>, out: Seq<Redirects>) -> bool {
    &&& out.len() == src.len()
    &&& forall|i: int|
        0 <= i < src.len() ==> {
            &&& (#[trigger] out[i]).source.pattern() == src[i].source@
            &&& out[i].destination == src[i].destination
            &&& out[i].kind.spec_as_u16() == src[i].kind
        }
}

/// `e` is the error for the first headers entry, in declaration order, whose
/// pattern does not compile: it names the headers rule kind and the literal
/// offending pattern.
pub open spec fn headers_err(s: Seq<file::Headers>, e: ConfigError) -> bool {
    exists|i: int|
        {
            &&& 0 <= i < s.len()
            &&& !glob_ok(#[trigger] s[i].source@)
            &&& (forall|j: int| 0 <= j < i ==> glob_ok(#[trigger] s[j].source@))
            &&& (e matches ConfigError::GlobCompileError { kind, pattern } && kind
                == RuleKind::Headers && pattern@ == s[i].source@)
        }
}

/// `e` is the error for the first rewrites entry whose pattern does not
/// compile.
pub open spec fn rewrites_err(s: Seq<file::Rewrites>, e: ConfigError) -> bool {
    exists|i: int|
        {
            &&& 0 <= i < s.len()
            &&& !glob_ok(#[trigger] s[i].source@)
            &&& (forall|j: int| 0 <= j < i ==> glob_ok(#[trigger] s[j].source@))
            &&& (e matches ConfigError::GlobCompileError { kind, pattern } && kind
                == RuleKind::Rewrites && pattern@ == s[i].source@)
        }
}

/// `e` is the error for the first redirects entry that does not compile: a
/// pattern failure names the redirects rule kind and the pattern, and an
/// out-of-range status code (checked only when the pattern compiles) names
/// the offending value.
pub open spec fn redirects_err(s: Seq<file::Redirects>, e: ConfigError) -> bool {
    exists|i: int|
        {
            &&& 0 <= i < s.len()
            &&& !redirect_ok(#[trigger] s[i])
            &&& (forall|j: int| 0 <= j < i ==> redirect_ok(#[trigger] s[j]))
            &&& if !glob_ok(s[i].source@) {
                e matches ConfigError::GlobCompileError { kind, pattern } && kind
                    == RuleKind::Redirects && pattern@ == s[i].source@
            } else {
                e matches ConfigError::StatusCodeError { code } && code == s[i].kind
            }
        }
}

/// Compiles the declared custom-headers rules, in declaration order.
#[verifier::loop_isolation(false)]
pub fn compile_headers(entries: Vec<file::Headers>) -> (r: Result<Vec<Headers>, ConfigError>)
    ensures
        r is Ok <==> headers_all_ok(entries@),
        r matches Ok(v) ==> headers_compiled(entries@, v@),
        r matches Err(e) ==> headers_err(entries@, e),
{
    let ghost orig = entries@;
    let mut rest = entries;
    let mut out: Vec<Headers> = Vec::new();
    while rest.len() > 0
        invariant
            out@.len() + rest@.len() == orig.len(),
            forall|k: int| 0 <= k < rest@.len() ==> #[trigger] rest@[k] == orig[out@.len() + k],
            forall|i: int| 0 <= i < out@.len() ==> glob_ok(#[trigger] orig[i].source@),
            forall|i: int|
                0 <= i < out@.len() ==> {
                    &&& (#[trigger] out@[i]).source.pattern() == orig[i].source@
                    &&& out@[i].headers == orig[i].headers
                },
        decreases rest@.len(),
    {
        let e = rest.remove(0);
        match GlobPattern::compile(e.source.as_str()) {
            Ok(p) => {
                out.push(Headers { source: p, headers: e.headers });
            },
            Err(_) => {
                let err = ConfigError::GlobCompileError {
                    kind: RuleKind::Headers,
                    pattern: e.source,
                };
                return Err(err);
            },
        }
    }
    Ok(out)
}

/// Compiles the declared rewrite rules, in declaration order.
#[verifier::loop_isolation(false)]
pub fn compile_rewrites(entries: Vec<file::Rewrites>) -> (r: Result<Vec<Rewrites>, ConfigError>)
    ensures
        r is Ok <==> rewrites_all_ok(entries@),
        r matches Ok(v) ==> rewrites_compiled(entries@, v@),
        r matches Err(e) ==> rewrites_err(entries@, e),
{
    let ghost orig = entries@;
    let mut rest = entries;
    let mut out: Vec<Rewrites> = Vec::new();
    while rest.len() > 0
        invariant
            out@.len() + rest@.len() == orig.len(),
            forall|k: int| 0 <= k < rest@.len() ==> #[trigger] rest@[k] == orig[out@.len() + k],
            forall|i: int| 0 <= i < out@.len() ==> glob_ok(#[trigger] orig[i].source@),
            forall|i: int|
                0 <= i < out@.len() ==> {
                    &&& (#[trigger] out@[i]).source.pattern() == orig[i].source@
                    &&& out@[i].destination == orig[i].destination
                },
        decreases rest@.len(),
    {
        let e = rest.remove(0);
        match GlobPattern::compile(e.source.as_str()) {
            Ok(p) => {
                out.push(Rewrites { source: p, destination: e.destination });
            },
            Err(_) => {
                let err = ConfigError::GlobCompileError {
                    kind: RuleKind::Rewrites,
                    pattern: e.source,
                };
                return Err(err);
            },
        }
    }
    Ok(out)
}

/// Compiles the declared redirect rules, in declaration order, additionally
/// validating each status code against the legal range.
#[verifier::loop_isolation(false)]
pub fn compile_redirects(entries: Vec<file::Redirects>) -> (r: Result<Vec<Redirects>, ConfigError>)
    ensures
        r is Ok <==> redirects_all_ok(entries@),
        r matches Ok(v) ==> redirects_compiled(entries@, v@),
        r matches Err(e) ==> redirects_err(entries@, e),
{
    let ghost orig = entries@;
    let mut rest = entries;
    let mut out: Vec<Redirects> = Vec::new();
    while rest.len() > 0
        invariant
            out@.len() + rest@.len() == orig.len(),
            forall|k: int| 0 <= k < rest@.len() ==> #[trigger] rest@[k] == orig[out@.len() + k],
            forall|i: int| 0 <= i < out@.len() ==> redirect_ok(#[trigger] orig[i]),
            forall|i: int|
                0 <= i < out@.len() ==> {
                    &&& (#[trigger] out@[i]).source.pattern() == orig[i].source@
                    &&& out@[i].destination == orig[i].destination
                    &&& out@[i].kind.spec_as_u16() == orig[i].kind
                },
        decreases rest@.len(),
    {
        let e = rest.remove(0);
        match GlobPattern::compile(e.source.as_str()) {
            Ok(p) => {
                match StatusCode::from_u16(e.kind) {
                    Some(code) => {
                        out.push(
                            Redirects { source: p, destination: e.destination, kind: code },
                        );
                    },
                    None => {
                        let err = ConfigError::StatusCodeError { code: e.kind };
                        return Err(err);
                    },
                }
            },
            Err(_) => {
                let err = ConfigError::GlobCompileError {
                    kind: RuleKind::Redirects,
                    pattern: e.source,
                };
                return Err(err);
            },
        }
    }
    Ok(out)
}

/// Every rule list the advanced section declares compiles in full.
pub open spec fn advanced_ok(a: file::Advanced) -> bool {
    &&& (a.headers matches Some(hs) ==> headers_all_ok(hs@))
    &&& (a.rewrites matches Some(rs) ==> rewrites_all_ok(rs@))
    &&& (a.redirects matches Some(ds) ==> redirects_all_ok(ds@))
}

/// `out` compiles the advanced section `src`: a declared list yields a
/// compiled list, an absent list stays absent, per kind independently.
pub open spec fn advanced_compiled(src: file::Advanced, out: Advanced) -> bool {
    &&& (out.headers is Some <==> src.headers is Some)
    &&& (out.rewrites is Some <==> src.rewrites is Some)
    &&& (out.redirects is Some <==> src.redirects is Some)
    &&& (src.headers matches Some(hs) ==> out.headers matches Some(ho) && headers_compiled(
        hs@,
        ho@,
    ))
    &&& (src.rewrites matches Some(rs) ==> out.rewrites matches Some(ro) && rewrites_compiled(
        rs@,
        ro@,
    ))
    &&& (src.redirects matches Some(ds) ==> out.redirects matches Some(dos) && redirects_compiled(
        ds@,
        dos@,
    ))
}

/// `e` is the error of the first rule kind that fails, kinds checked in the
/// order headers, rewrites, redirects.
pub open spec fn advanced_err(src: file::Advanced, e: ConfigError) -> bool {
    ||| (src.headers matches Some(hs) && headers_err(hs@, e))
    ||| {
        &&& (src.headers matches Some(hs) ==> headers_all_ok(hs@))
        &&& (src.rewrites matches Some(rs) && rewrites_err(rs@, e))
    }
    ||| {
        &&& (src.headers matches Some(hs) ==> headers_all_ok(hs@))
        &&& (src.rewrites matches Some(rs) ==> rewrites_all_ok(rs@))
        &&& (src.redirects matches Some(ds) && redirects_err(ds@, e))
    }
}

/// Compiles the whole advanced section: each declared rule list in
/// declaration order, kinds in the order headers, rewrites, redirects. The
/// first failure aborts compilation; on success every matcher derives from
/// its recorded source pattern and every payload is carried over unchanged.
pub fn compile_advanced(advanced: file::Advanced) -> (r: Result<Advanced, ConfigError>)
    ensures
        r is Ok <==> advanced_ok(advanced),
        r matches Ok(a) ==> advanced_compiled(advanced, a),
        r matches Err(e) ==> advanced_err(advanced, e),
{
    let headers = match advanced.headers {
        None => None,
        Some(hs) => match compile_headers(hs) {
            Ok(v) => Some(v),
            Err(e) => {
                return Err(e);
            },
        },
    };
    let rewrites = match advanced.rewrites {
        None => None,
        Some(rs) => match compile_rewrites(rs) {
            Ok(v) => Some(v),
            Err(e) => {
                return Err(e);
            },
        },
    };
    let redirects = match advanced.redirects {
        None => None,
        Some(ds) => match compile_redirects(ds) {
            Ok(v) => Some(v),
            Err(e) => {
                return Err(e);
            },
        },
    };
    Ok(Advanced { headers, rewrites, redirects })
}

} // verus!
