use lumina::host::HostCommand;
use lumina::host::LifecycleEvent;
use lumina::host::TabNavigationPayload;
use lumina::navigation::is_internal_url;
use lumina::navigation::is_probe_exempt_url;
use lumina::navigation::navigate;
use lumina::navigation::normalize_url;
use lumina::navigation::on_navigation_attempt;
use lumina::registry::resolve_with_retry;
use lumina::registry::RetryPolicy;
use lumina::registry::RetryStep;
use lumina::registry::SurfaceKind;
use lumina::registry::SurfaceRegistry;
use lumina::text::chars_of;
use lumina::text::includes;
use lumina::text::matches_at;
use lumina::text::replace_all;
use lumina::text::starts_with;
use lumina::text::string_of;

fn replace(s: &str, from: &str, to: &str) -> String {
    string_of(&replace_all(&chars_of(s), &chars_of(from), &chars_of(to)))
}

#[test]
fn short_scheme_is_rewritten() {
    assert_eq!(normalize_url("lumina://history"), "lumina-app://localhost/history");
    assert_eq!(normalize_url("lumina://"), "lumina-app://localhost/");
}

#[test]
fn only_the_beginning_of_an_address_is_rewritten() {
    assert_eq!(
        normalize_url("lumina://store?next=lumina://settings"),
        "lumina-app://localhost/store?next=lumina://settings"
    );
    assert_eq!(
        normalize_url("lumina-app://store?next=lumina-app://settings"),
        "lumina-app://localhost/store?next=lumina-app://settings"
    );
}

#[test]
fn app_scheme_without_host_gets_the_host() {
    assert_eq!(normalize_url("lumina-app://settings"), "lumina-app://localhost/settings");
    assert_eq!(normalize_url("lumina-app://"), "lumina-app://localhost/");
    assert_eq!(normalize_url("lumina-app://localhosts"), "lumina-app://localhost/localhosts");
}

#[test]
fn canonical_address_stays() {
    assert_eq!(normalize_url("lumina-app://localhost/history"), "lumina-app://localhost/history");
    assert_eq!(normalize_url("lumina-app://localhost/"), "lumina-app://localhost/");
    assert_eq!(normalize_url("lumina-app://localhost"), "lumina-app://localhost");
    assert_eq!(normalize_url("lumina://localhost/history"), "lumina-app://localhost/history");
    assert_eq!(normalize_url("lumina://localhost"), "lumina-app://localhost");
    assert_eq!(
        normalize_url("lumina-app://a?b=lumina-app://localhost/c"),
        "lumina-app://localhost/a?b=lumina-app://localhost/c"
    );
}

#[test]
fn other_addresses_stay() {
    assert_eq!(normalize_url("https://example.com/a?b=c"), "https://example.com/a?b=c");
    assert_eq!(normalize_url(""), "");
    assert_eq!(normalize_url("x lumina://y"), "x lumina://y");
    assert_eq!(normalize_url("https://\u{e9}t\u{e9}.example/"), "https://\u{e9}t\u{e9}.example/");
}

#[test]
fn normalizing_twice_is_normalizing_once() {
    for url in [
        "lumina://history",
        "lumina-app://settings",
        "lumina-app://localhost/x",
        "https://example.com",
        "lumina://a?b=lumina://c",
        "lumina-app://localhost",
        "lumina://localhost",
        "lumina-app://a?b=lumina-app://localhost/c",
        "lumina-app://",
    ] {
        let once = normalize_url(url);
        assert_eq!(normalize_url(&once), once);
    }
}

#[test]
fn text_search_and_replace() {
    assert!(starts_with(&chars_of("abcdef"), &chars_of("abc")));
    assert!(!starts_with(&chars_of("abcdef"), &chars_of("bcd")));
    assert!(!starts_with(&chars_of("ab"), &chars_of("abc")));
    assert!(!starts_with(&chars_of("abc"), &chars_of("")));
    assert!(matches_at(&chars_of("abcdef"), 3, &chars_of("def")));
    assert!(!matches_at(&chars_of("abcdef"), 4, &chars_of("def")));
    assert!(!matches_at(&chars_of("abcdef"), usize::MAX, &chars_of("a")));
    assert!(includes(&chars_of("abcdef"), &chars_of("cde")));
    assert!(!includes(&chars_of("abcdef"), &chars_of("ce")));
    assert!(!includes(&chars_of("abcdef"), &chars_of("")));
    assert_eq!(replace("aaaa", "aa", "b"), "bb");
    assert_eq!(replace("aaa", "aa", "b"), "ba");
    assert_eq!(replace("abcabc", "bc", "xyz"), "axyzaxyz");
    assert_eq!(replace("abc", "", "x"), "abc");
    assert_eq!(replace("abc", "abcd", "x"), "abc");
    assert_eq!(replace("", "a", "x"), "");
    assert_eq!(replace("a\u{1F600}b", "\u{1F600}", "-"), "a-b");
    assert_eq!(string_of(&chars_of("h\u{e9}llo")), "h\u{e9}llo");
}

#[test]
fn internal_addresses_are_told_apart() {
    assert!(is_internal_url("lumina-app://localhost/history"));
    assert!(is_internal_url("lumina-app:anything"));
    assert!(!is_internal_url("lumina://history"));
    assert!(!is_internal_url("https://lumina-app://x"));
    assert!(!is_internal_url("LUMINA-APP://localhost/"));
}

#[test]
fn exempt_addresses_are_told_apart() {
    for url in [
        "lumina-app://localhost/x",
        "lumina://x",
        "tauri://localhost/index.html",
        "file:///tmp/a.html",
        "about:blank",
        "data:text/html,hi",
    ] {
        assert!(is_probe_exempt_url(url), "{}", url);
    }
    for url in ["https://example.com", "http://file://x", "", "about", "ftp://a"] {
        assert!(!is_probe_exempt_url(url), "{}", url);
    }
}

#[test]
fn outside_navigation_is_allowed_announced_and_probed() {
    let decision = on_navigation_attempt("tab-1", "https://example.com/");
    assert!(decision.allow);
    assert_eq!(decision.url, "https://example.com/");
    assert_eq!(
        decision.commands,
        vec![
            HostCommand::Emit {
                event: LifecycleEvent::TabNavigation(TabNavigationPayload {
                    label: "tab-1".to_string(),
                    url: "https://example.com/".to_string(),
                }),
            },
            HostCommand::Probe {
                label: "tab-1".to_string(),
                url: "https://example.com/".to_string()
            },
        ]
    );
}

#[test]
fn internal_navigation_is_allowed_and_silent() {
    let decision = on_navigation_attempt("tab-1", "lumina://history");
    assert!(decision.allow);
    assert_eq!(decision.url, "lumina-app://localhost/history");
    assert!(decision.commands.is_empty());
    let canonical = on_navigation_attempt("tab-1", "lumina-app://localhost/settings");
    assert!(canonical.allow);
    assert!(canonical.commands.is_empty());
}

fn registry_with_live(label: &str) -> SurfaceRegistry {
    let mut registry = SurfaceRegistry::new();
    assert!(registry.reserve(label, SurfaceKind::Tab));
    assert!(registry.commit(label));
    registry
}

#[test]
fn navigate_sends_a_live_surface_and_probes_the_address() {
    let registry = registry_with_live("a");
    assert_eq!(
        navigate(&registry, "a", "https://example.com/x"),
        vec![
            HostCommand::Focus { label: "a".to_string() },
            HostCommand::Evaluate {
                label: "a".to_string(),
                script: "window.location.assign('https://example.com/x')".to_string(),
            },
            HostCommand::Probe {
                label: "a".to_string(),
                url: "https://example.com/x".to_string()
            },
        ]
    );
}

#[test]
fn navigate_to_a_page_of_the_application_is_not_probed() {
    let registry = registry_with_live("a");
    for (raw, canonical) in [
        ("lumina://history", "lumina-app://localhost/history"),
        ("lumina-app://settings", "lumina-app://localhost/settings"),
        ("lumina-app://localhost/store", "lumina-app://localhost/store"),
        ("lumina-app:store", "lumina-app:store"),
    ] {
        assert_eq!(
            navigate(&registry, "a", raw),
            vec![
                HostCommand::Focus { label: "a".to_string() },
                HostCommand::Evaluate {
                    label: "a".to_string(),
                    script: format!("window.location.assign('{}')", canonical),
                },
            ],
            "{}",
            raw
        );
    }
}

#[test]
fn navigate_ignores_what_does_not_resolve() {
    let mut registry = registry_with_live("a");
    assert!(navigate(&registry, "b", "https://example.com").is_empty());
    assert!(registry.reserve("c", SurfaceKind::Tab));
    assert!(navigate(&registry, "c", "https://example.com").is_empty());
}

#[test]
fn default_retry_policy() {
    assert_eq!(RetryPolicy::default(), RetryPolicy { attempts: 10, interval_ms: 100 });
}

#[test]
fn retry_finds_waits_and_gives_up() {
    let mut registry = registry_with_live("a");
    assert!(registry.reserve("b", SurfaceKind::Tab));
    let policy = RetryPolicy::default();
    assert_eq!(resolve_with_retry(&registry, "a", policy, 0), RetryStep::Found);
    assert_eq!(resolve_with_retry(&registry, "a", policy, 9), RetryStep::Found);
    assert_eq!(resolve_with_retry(&registry, "a", policy, 10), RetryStep::GiveUp);
    assert_eq!(resolve_with_retry(&registry, "b", policy, 0), RetryStep::Wait { millis: 100 });
    assert_eq!(resolve_with_retry(&registry, "b", policy, 8), RetryStep::Wait { millis: 100 });
    assert_eq!(resolve_with_retry(&registry, "b", policy, 9), RetryStep::GiveUp);
    assert_eq!(resolve_with_retry(&registry, "b", policy, u32::MAX), RetryStep::GiveUp);
    let none = RetryPolicy { attempts: 0, interval_ms: 5 };
    assert_eq!(resolve_with_retry(&registry, "a", none, 0), RetryStep::GiveUp);
}

#[test]
fn retry_polls_at_most_as_often_as_the_policy_says() {
    let registry = SurfaceRegistry::new();
    let policy = RetryPolicy { attempts: 4, interval_ms: 7 };
    let mut failed: u32 = 0;
    let mut polls: u32 = 0;
    let mut waited: u64 = 0;
    loop {
        polls += 1;
        match resolve_with_retry(&registry, "late", policy, failed) {
            RetryStep::Wait { millis } => {
                waited += millis;
                failed += 1;
            }
            RetryStep::GiveUp => break,
            RetryStep::Found => panic!("nothing is registered"),
        }
    }
    assert_eq!(polls, 4);
    assert_eq!(waited, 21);
}

#[test]
fn retry_finds_a_surface_that_arrives_late() {
    let mut registry = SurfaceRegistry::new();
    assert!(registry.reserve("late", SurfaceKind::Tab));
    let policy = RetryPolicy::default();
    assert_eq!(resolve_with_retry(&registry, "late", policy, 0), RetryStep::Wait { millis: 100 });
    assert!(registry.commit("late"));
    assert_eq!(resolve_with_retry(&registry, "late", policy, 1), RetryStep::Found);
}
