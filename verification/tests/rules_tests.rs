use server_settings::rules::compile_advanced;
use server_settings::rules::compile_headers;
use server_settings::rules::compile_redirects;
use server_settings::rules::compile_rewrites;
use server_settings::ConfigError;
use server_settings::RuleKind;
use server_settings::StatusCode;

fn header_entry(name: &str, value: &str) -> server_settings::file::HeaderEntry {
    server_settings::file::HeaderEntry { name: name.to_string(), value: value.to_string() }
}

#[test]
fn rewrite_pattern_matches_and_rejects() {
    let entries = vec![server_settings::file::Rewrites {
        source: "css/*.css".to_string(),
        destination: "/dest".to_string(),
    }];
    let rules = compile_rewrites(entries).expect("pattern must compile");
    assert_eq!(rules.len(), 1);
    assert!(rules[0].source.is_match("css/app.css"));
    assert!(!rules[0].source.is_match("js/app.js"));
    assert_eq!(rules[0].source.source_str(), "css/*.css");
    assert_eq!(rules[0].destination, "/dest");
}

#[test]
fn redirect_status_301_retained() {
    let entries = vec![server_settings::file::Redirects {
        source: "/old".to_string(),
        destination: "/new".to_string(),
        kind: 301,
    }];
    let rules = compile_redirects(entries).expect("301 is a legal status code");
    assert_eq!(rules.len(), 1);
    assert_eq!(rules[0].kind.as_u16(), 301);
    assert_eq!(rules[0].destination, "/new");
}

#[test]
fn redirect_status_50_rejected() {
    let entries = vec![server_settings::file::Redirects {
        source: "/old".to_string(),
        destination: "/new".to_string(),
        kind: 50,
    }];
    let err = compile_redirects(entries).expect_err("50 lies under the legal range");
    assert_eq!(err, ConfigError::StatusCodeError { code: 50 });
}

#[test]
fn redirect_status_range_boundaries() {
    assert!(StatusCode::from_u16(100).is_some());
    assert!(StatusCode::from_u16(999).is_some());
    assert!(StatusCode::from_u16(99).is_none());
    assert!(StatusCode::from_u16(1000).is_none());
    assert_eq!(StatusCode::from_u16(302).unwrap().as_u16(), 302);
}

#[test]
fn malformed_glob_fails_headers_kind() {
    let entries = vec![server_settings::file::Headers {
        source: "a[".to_string(),
        headers: vec![header_entry("x-custom", "1")],
    }];
    let err = compile_headers(entries).expect_err("unterminated class must not compile");
    assert_eq!(
        err,
        ConfigError::GlobCompileError { kind: RuleKind::Headers, pattern: "a[".to_string() }
    );
}

#[test]
fn malformed_glob_fails_rewrites_kind() {
    let entries = vec![server_settings::file::Rewrites {
        source: "a[".to_string(),
        destination: "/dest".to_string(),
    }];
    let err = compile_rewrites(entries).expect_err("unterminated class must not compile");
    assert_eq!(
        err,
        ConfigError::GlobCompileError { kind: RuleKind::Rewrites, pattern: "a[".to_string() }
    );
}

#[test]
fn malformed_glob_fails_redirects_kind() {
    let entries = vec![server_settings::file::Redirects {
        source: "a[".to_string(),
        destination: "/dest".to_string(),
        kind: 301,
    }];
    let err = compile_redirects(entries).expect_err("unterminated class must not compile");
    assert_eq!(
        err,
        ConfigError::GlobCompileError { kind: RuleKind::Redirects, pattern: "a[".to_string() }
    );
}

#[test]
fn first_failing_entry_wins() {
    let entries = vec![
        server_settings::file::Rewrites { source: "ok/*".to_string(), destination: "/a".to_string() },
        server_settings::file::Rewrites { source: "bad[".to_string(), destination: "/b".to_string() },
        server_settings::file::Rewrites { source: "worse[".to_string(), destination: "/c".to_string() },
    ];
    let err = compile_rewrites(entries).expect_err("second entry must abort compilation");
    assert_eq!(
        err,
        ConfigError::GlobCompileError { kind: RuleKind::Rewrites, pattern: "bad[".to_string() }
    );
}

#[test]
fn glob_failure_checked_before_status_code() {
    let entries = vec![server_settings::file::Redirects {
        source: "bad[".to_string(),
        destination: "/new".to_string(),
        kind: 50,
    }];
    let err = compile_redirects(entries).expect_err("entry must not compile");
    assert_eq!(
        err,
        ConfigError::GlobCompileError { kind: RuleKind::Redirects, pattern: "bad[".to_string() }
    );
}

#[test]
fn rule_order_matches_declaration_order() {
    let headers = vec![
        server_settings::file::Headers { source: "a/*".to_string(), headers: vec![header_entry("h1", "1")] },
        server_settings::file::Headers { source: "b/*".to_string(), headers: vec![header_entry("h2", "2")] },
        server_settings::file::Headers { source: "c/*".to_string(), headers: vec![header_entry("h3", "3")] },
    ];
    let compiled = compile_headers(headers).expect("all patterns compile");
    let sources: Vec<&str> = compiled.iter().map(|r| r.source.source_str()).collect();
    assert_eq!(sources, vec!["a/*", "b/*", "c/*"]);

    let rewrites = vec![
        server_settings::file::Rewrites { source: "x/*".to_string(), destination: "/x".to_string() },
        server_settings::file::Rewrites { source: "y/*".to_string(), destination: "/y".to_string() },
    ];
    let compiled = compile_rewrites(rewrites).expect("all patterns compile");
    assert_eq!(compiled[0].source.source_str(), "x/*");
    assert_eq!(compiled[1].source.source_str(), "y/*");

    let redirects = vec![
        server_settings::file::Redirects { source: "/p".to_string(), destination: "/q".to_string(), kind: 301 },
        server_settings::file::Redirects { source: "/r".to_string(), destination: "/s".to_string(), kind: 302 },
    ];
    let compiled = compile_redirects(redirects).expect("all entries compile");
    assert_eq!(compiled[0].source.source_str(), "/p");
    assert_eq!(compiled[0].kind.as_u16(), 301);
    assert_eq!(compiled[1].source.source_str(), "/r");
    assert_eq!(compiled[1].kind.as_u16(), 302);
}

#[test]
fn header_payload_carried_over() {
    let entries = vec![server_settings::file::Headers {
        source: "**/*.html".to_string(),
        headers: vec![header_entry("cache-control", "no-store"), header_entry("x-app", "demo")],
    }];
    let compiled = compile_headers(entries).expect("pattern compiles");
    assert_eq!(compiled[0].headers.len(), 2);
    assert_eq!(compiled[0].headers[0].name, "cache-control");
    assert_eq!(compiled[0].headers[0].value, "no-store");
    assert_eq!(compiled[0].headers[1].name, "x-app");
    assert_eq!(compiled[0].headers[1].value, "demo");
}

#[test]
fn advanced_section_compiles_per_kind() {
    let advanced = server_settings::file::Advanced {
        headers: None,
        rewrites: Some(vec![server_settings::file::Rewrites {
            source: "assets/**".to_string(),
            destination: "/static".to_string(),
        }]),
        redirects: Some(vec![server_settings::file::Redirects {
            source: "/old".to_string(),
            destination: "/new".to_string(),
            kind: 302,
        }]),
    };
    let compiled = compile_advanced(advanced).expect("both declared lists compile");
    assert!(compiled.headers.is_none());
    let rewrites = compiled.rewrites.expect("declared list must be present");
    assert_eq!(rewrites.len(), 1);
    assert!(rewrites[0].source.is_match("assets/img/logo.png"));
    let redirects = compiled.redirects.expect("declared list must be present");
    assert_eq!(redirects[0].kind.as_u16(), 302);
}

#[test]
fn empty_declared_list_stays_present_and_empty() {
    let advanced = server_settings::file::Advanced {
        headers: Some(vec![]),
        rewrites: None,
        redirects: None,
    };
    let compiled = compile_advanced(advanced).expect("nothing to compile");
    let headers = compiled.headers.expect("a declared empty list stays declared");
    assert!(headers.is_empty());
    assert!(compiled.rewrites.is_none());
    assert!(compiled.redirects.is_none());
}

#[test]
fn oversized_pattern_fails_compilation_without_panic() {
    // parses as glob syntax, but the compiled matcher exceeds the regex
    // engine's size limit: compilation must report an error, not abort
    let source = "[ab]".repeat(500_000);
    let entries = vec![server_settings::file::Rewrites {
        source: source.clone(),
        destination: "/dest".to_string(),
    }];
    let err = compile_rewrites(entries).expect_err("the matcher is over the size limit");
    assert_eq!(err, ConfigError::GlobCompileError { kind: RuleKind::Rewrites, pattern: source });
}
