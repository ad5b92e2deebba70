use lumina::host::HostCommand;
use lumina::reachability::classify;
use lumina::reachability::error_view_url;
use lumina::reachability::probe_and_correct;
use lumina::reachability::should_probe;
use lumina::reachability::ProbeLedger;
use lumina::reachability::ProbeOutcome;
use lumina::reachability::Reachability;
use lumina::reachability::PROBE_TIMEOUT_SECS;
use lumina::registry::SurfaceKind;
use lumina::registry::SurfaceRegistry;

fn registry_with_live(label: &str) -> SurfaceRegistry {
    let mut registry = SurfaceRegistry::new();
    assert!(registry.reserve(label, SurfaceKind::Tab));
    assert!(registry.commit(label));
    registry
}

#[test]
fn probe_timeout_is_ten_seconds() {
    assert_eq!(PROBE_TIMEOUT_SECS, 10);
}

#[test]
fn outcomes_are_classified() {
    assert_eq!(classify(ProbeOutcome::Responded { status: 200 }), Reachability::Reachable);
    assert_eq!(classify(ProbeOutcome::Responded { status: 404 }), Reachability::Reachable);
    assert_eq!(classify(ProbeOutcome::Responded { status: 500 }), Reachability::Reachable);
    assert_eq!(classify(ProbeOutcome::ConnectFailed), Reachability::Unreachable);
    assert_eq!(classify(ProbeOutcome::TimedOut), Reachability::Unreachable);
    assert_eq!(classify(ProbeOutcome::BodyFailed), Reachability::Unreachable);
    assert_eq!(classify(ProbeOutcome::NotSent), Reachability::Undetermined);
}

#[test]
fn error_view_address_is_percent_encoded() {
    assert_eq!(
        error_view_url("https://example.com/a b?x=1&y='2'", "connection refused (os error 111)"),
        "tauri://localhost/error.html?url=https%3A%2F%2Fexample.com%2Fa%20b%3Fx%3D1%26y%3D%272%27&err=connection%20refused%20%28os%20error%20111%29"
    );
    assert_eq!(error_view_url("", ""), "tauri://localhost/error.html?url=&err=");
    assert_eq!(
        error_view_url("AZaz09-._~", "\u{e9}\u{20ac}"),
        "tauri://localhost/error.html?url=AZaz09-._~&err=%C3%A9%E2%82%AC"
    );
}

#[test]
fn refused_connection_gets_one_correction() {
    let registry = registry_with_live("a");
    let correction = probe_and_correct(
        &registry,
        "a",
        "http://127.0.0.1:9/",
        ProbeOutcome::ConnectFailed,
        "connection refused",
    );
    assert_eq!(
        correction,
        Some(HostCommand::Evaluate {
            label: "a".to_string(),
            script: "window.location.replace('tauri://localhost/error.html?url=http%3A%2F%2F127.0.0.1%3A9%2F&err=connection%20refused')".to_string(),
        })
    );
}

#[test]
fn not_found_page_gets_no_correction() {
    let registry = registry_with_live("a");
    let correction = probe_and_correct(
        &registry,
        "a",
        "http://example.com/missing",
        ProbeOutcome::Responded { status: 404 },
        "",
    );
    assert_eq!(correction, None);
}

#[test]
fn timeout_and_broken_body_get_a_correction() {
    let registry = registry_with_live("a");
    for outcome in [ProbeOutcome::TimedOut, ProbeOutcome::BodyFailed] {
        let correction =
            probe_and_correct(&registry, "a", "https://example.com", outcome, "slow");
        assert!(matches!(correction, Some(HostCommand::Evaluate { .. })));
    }
    assert_eq!(
        probe_and_correct(&registry, "a", "https://example.com", ProbeOutcome::NotSent, "bad"),
        None
    );
}

#[test]
fn closed_tab_gets_no_correction() {
    let mut registry = registry_with_live("a");
    assert!(registry.close("a").is_some());
    assert_eq!(
        probe_and_correct(&registry, "a", "https://example.com", ProbeOutcome::ConnectFailed, "x"),
        None
    );
    assert!(registry.reserve("b", SurfaceKind::Tab));
    assert_eq!(
        probe_and_correct(&registry, "b", "https://example.com", ProbeOutcome::ConnectFailed, "x"),
        None
    );
}

#[test]
fn exempt_addresses_get_no_correction() {
    let registry = registry_with_live("a");
    for url in
        ["lumina-app://localhost/x", "lumina://x", "tauri://localhost/", "file:///a", "about:blank", "data:,x"]
    {
        assert!(!should_probe(url));
        assert_eq!(probe_and_correct(&registry, "a", url, ProbeOutcome::ConnectFailed, "x"), None);
    }
    assert!(should_probe("https://example.com"));
}

#[test]
fn one_address_is_probed_once_at_a_time() {
    let mut ledger = ProbeLedger::new();
    assert!(ledger.begin("a", "https://example.com"));
    assert!(!ledger.begin("a", "https://example.com"));
    assert!(ledger.begin("b", "https://example.com"));
    assert!(ledger.begin("a", "https://example.org"));
    ledger.settle("a", "https://example.com");
    assert!(!ledger.begin("b", "https://example.com"));
    assert!(!ledger.begin("a", "https://example.org"));
    assert!(ledger.begin("a", "https://example.com"));
    ledger.settle("zzz", "https://example.com");
    assert!(!ledger.begin("a", "https://example.com"));
}

#[test]
fn exempt_addresses_are_never_let_through() {
    let mut ledger = ProbeLedger::new();
    for url in ["lumina-app://localhost/x", "lumina://x", "tauri://localhost/", "file:///a", "about:blank", "data:,x"] {
        assert!(!ledger.begin("a", url), "{}", url);
        ledger.settle("a", url);
        assert!(!ledger.begin("a", url), "{}", url);
    }
}
