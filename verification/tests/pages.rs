use lumina::filter::decide_after_engine;
use lumina::filter::precheck;
use lumina::filter::AdblockStats;
use lumina::filter::AdblockStatsPayload;
use lumina::filter::Precheck;
use lumina::host::HostCommand;
use lumina::host::LifecycleEvent;
use lumina::host::TabUpdatedPayload;
use lumina::internal::escape_for_script;
use lumina::internal::force_internal_navigate;
use lumina::internal::install_id;
use lumina::internal::internal_path_of;
use lumina::internal::page_for;
use lumina::internal::parse_internal_uri;
use lumina::internal::route;
use lumina::internal::InternalPage;
use lumina::internal::InternalPath;
use lumina::internal::InternalRoute;
use lumina::navigation::update_tab_info;
use lumina::registry::SurfaceKind;
use lumina::registry::SurfaceRegistry;
use lumina::text::chars_of;
use lumina::text::find;
use lumina::text::slice;
use lumina::text::string_of;
use lumina::text::strip_prefix;
use lumina::text::trim_end;
use lumina::text::trim_start;

fn s(text: &str) -> String {
    text.to_string()
}

fn path(path: &str, query: &str) -> InternalPath {
    InternalPath { path: s(path), query: s(query) }
}

#[test]
fn text_trimming_and_finding() {
    assert_eq!(string_of(&trim_start(&chars_of("///a/b/"), '/')), "a/b/");
    assert_eq!(string_of(&trim_start(&chars_of("///"), '/')), "");
    assert_eq!(string_of(&trim_start(&chars_of(""), '/')), "");
    assert_eq!(string_of(&trim_end(&chars_of("/a/b///"), '/')), "/a/b");
    assert_eq!(string_of(&trim_end(&chars_of("//"), '/')), "");
    assert_eq!(string_of(&strip_prefix(&chars_of("localhost/x"), &chars_of("localhost"))), "/x");
    assert_eq!(string_of(&strip_prefix(&chars_of("local"), &chars_of("localhost"))), "local");
    assert_eq!(find(&chars_of("a?b?c"), &chars_of("?")), Some(1));
    assert_eq!(find(&chars_of("abcabc"), &chars_of("ca")), Some(2));
    assert_eq!(find(&chars_of("abc"), &chars_of("x")), None);
    assert_eq!(find(&chars_of("abc"), &chars_of("")), None);
    assert_eq!(string_of(&slice(&chars_of("abcdef"), 2, 4)), "cd");
    assert_eq!(string_of(&slice(&chars_of("abcdef"), 6, 6)), "");
}

#[test]
fn pages_by_path() {
    assert_eq!(page_for("history"), InternalPage::History);
    assert_eq!(page_for("downloads"), InternalPage::Downloads);
    assert_eq!(page_for("favorites"), InternalPage::Favorites);
    assert_eq!(page_for("bookmarks"), InternalPage::Favorites);
    assert_eq!(page_for("store"), InternalPage::Store);
    assert_eq!(page_for("settings"), InternalPage::Settings);
    assert_eq!(page_for("network"), InternalPage::Network);
    assert_eq!(page_for(""), InternalPage::NotFound);
    assert_eq!(page_for("History"), InternalPage::NotFound);
    assert_eq!(page_for("history/x"), InternalPage::NotFound);
}

#[test]
fn internal_addresses_are_read_leniently() {
    for uri in [
        "lumina-app://localhost/history",
        "lumina-app://history",
        "lumina-app:history",
        "lumina-app:///history/",
        "lumina-app://localhost//history//",
        "lumina-app://localhosthistory",
    ] {
        assert_eq!(parse_internal_uri(uri), path("history", ""), "{}", uri);
    }
    assert_eq!(parse_internal_uri("lumina-app://localhost/"), path("", ""));
    assert_eq!(parse_internal_uri("lumina-app://localhost"), path("", ""));
    assert_eq!(parse_internal_uri("history"), path("history", ""));
}

#[test]
fn query_is_split_off() {
    assert_eq!(
        parse_internal_uri("lumina-app://localhost/install?id=night-owl"),
        path("install", "?id=night-owl")
    );
    assert_eq!(parse_internal_uri("lumina-app://store/#top"), path("store", "#top"));
    assert_eq!(parse_internal_uri("lumina-app://store#a?b"), path("store#a", "?b"));
    assert_eq!(parse_internal_uri("lumina-app://a/b/?x#y"), path("a/b", "?x#y"));
}

#[test]
fn only_application_addresses_have_an_internal_path() {
    assert_eq!(internal_path_of("lumina://settings"), Some(path("settings", "")));
    assert_eq!(internal_path_of("lumina://localhost/settings/?a"), Some(path("settings", "?a")));
    assert_eq!(internal_path_of("lumina-app://localhost/store"), Some(path("store", "")));
    assert_eq!(internal_path_of("https://example.com/history"), None);
    assert_eq!(internal_path_of("lumina-app:store"), None);
    assert_eq!(internal_path_of(""), None);
}

#[test]
fn install_id_is_read_from_the_query() {
    assert_eq!(install_id("?id=night-owl"), "night-owl");
    assert_eq!(install_id("?id=adshield&x=1"), "adshield");
    assert_eq!(install_id("?x=1&id=a&id=b"), "a");
    assert_eq!(install_id("?id="), "");
    assert_eq!(install_id("?x=1"), "unknown");
    assert_eq!(install_id(""), "unknown");
    assert_eq!(install_id("?paid=7"), "7");
}

#[test]
fn requests_are_routed() {
    assert_eq!(
        route("lumina-app://install?id=init-script"),
        InternalRoute::Install { id: s("init-script") }
    );
    assert_eq!(route("lumina-app://localhost/install/"), InternalRoute::Install { id: s("unknown") });
    assert_eq!(
        route("lumina-app://localhost/history"),
        InternalRoute::Page { page: InternalPage::History, path: s("history") }
    );
    assert_eq!(
        route("lumina-app://localhost/nowhere?x"),
        InternalRoute::Page { page: InternalPage::NotFound, path: s("nowhere") }
    );
}

#[test]
fn page_text_is_escaped_for_a_script() {
    assert_eq!(escape_for_script("a'b"), "a\\'b");
    assert_eq!(escape_for_script("a\\b"), "a\\\\b");
    assert_eq!(escape_for_script("a\nb\r\nc"), "a\\nb\\nc");
    assert_eq!(escape_for_script("\\'"), "\\\\\\'");
    assert_eq!(escape_for_script(""), "");
}

fn registry_with_live(label: &str) -> SurfaceRegistry {
    let mut registry = SurfaceRegistry::new();
    assert!(registry.reserve(label, SurfaceKind::Tab));
    assert!(registry.commit(label));
    registry
}

#[test]
fn page_is_written_into_a_live_surface() {
    let registry = registry_with_live("a");
    assert_eq!(
        force_internal_navigate(&registry, "a", "lumina://history", Some(s("<p class='x'>\n</p>"))),
        vec![
            HostCommand::Focus { label: s("a") },
            HostCommand::Evaluate {
                label: s("a"),
                script: s("window.stop(); document.open(); document.write('<p class=\\'x\\'>\\n</p>'); document.close(); try { history.pushState(null, '', 'lumina-app://localhost/history'); } catch(e) { console.warn('PushState failed (likely origin mismatch), but content loaded:', e); }"),
            },
        ]
    );
}

#[test]
fn surface_is_sent_on_where_there_is_no_page() {
    let registry = registry_with_live("a");
    assert_eq!(
        force_internal_navigate(&registry, "a", "https://example.com", None),
        vec![
            HostCommand::Focus { label: s("a") },
            HostCommand::Evaluate {
                label: s("a"),
                script: s("window.location.replace('https://example.com')"),
            },
        ]
    );
    assert!(force_internal_navigate(&registry, "b", "https://example.com", None).is_empty());
    assert!(force_internal_navigate(&registry, "b", "lumina://x", Some(s("x"))).is_empty());
}

#[test]
fn requests_to_the_application_pass() {
    assert_eq!(precheck("lumina://history", None), Precheck::Allow);
    assert_eq!(precheck("lumina-app://localhost/doubleclick.net", None), Precheck::Allow);
    assert_eq!(precheck("lumina:x", Some("anything")), Precheck::Allow);
}

#[test]
fn advertising_networks_never_pass() {
    for name in [
        "admatic.com.tr",
        "doubleclick.net",
        "googlesyndication.com",
        "adnxs.com",
        "smartadserver.com",
        "criteo.com",
        "rubiconproject.com",
        "pubmatic.com",
    ] {
        let url = format!("https://cdn.{}/ad.js", name);
        assert_eq!(precheck(&url, Some("https://www.google.com/")), Precheck::Block, "{}", name);
        assert_eq!(precheck(&url, None), Precheck::Block, "{}", name);
    }
}

#[test]
fn trusted_sites_pass() {
    for referer in [
        "https://gemini.google.com/app",
        "https://accounts.google.com/",
        "https://www.google.com/search",
        "https://www.youtube.com/watch",
        "https://www.transfermarkt.com.tr/",
    ] {
        assert_eq!(precheck("https://taboola.com/x.js", Some(referer)), Precheck::Allow);
    }
}

#[test]
fn everything_else_goes_to_the_engine() {
    assert_eq!(precheck("https://taboola.com/x.js", None), Precheck::AskEngine);
    assert_eq!(precheck("https://example.com/", Some("https://example.org/")), Precheck::AskEngine);
    assert_eq!(precheck("", Some("")), Precheck::AskEngine);
    assert_eq!(precheck("https://lumina://x", None), Precheck::AskEngine);
}

#[test]
fn engine_and_host_list_decide() {
    assert!(decide_after_engine("https://example.com/", Some(true)));
    assert!(!decide_after_engine("https://example.com/", Some(false)));
    assert!(!decide_after_engine("https://example.com/", None));
    for name in [
        "doubleclick.net",
        "googleadservices.com",
        "googlesyndication.com",
        "adnxs.com",
        "rubiconproject.com",
        "taboola.com",
        "outbrain.com",
        "amazon-adsystem.com",
        "adservice.google.com",
        "moatads.com",
        "criteo.com",
        "pubmatic.com",
        "openx.net",
        "smartadserver.com",
    ] {
        let url = format!("https://x.{}/y", name);
        assert!(decide_after_engine(&url, Some(false)), "{}", name);
        assert!(decide_after_engine(&url, None), "{}", name);
    }
}

#[test]
fn blocked_requests_are_counted_by_surface() {
    let mut stats = AdblockStats::new();
    assert_eq!(stats.blocked_count("a"), 0);
    assert_eq!(stats.record("a"), AdblockStatsPayload { label: s("a"), blocked_count: 1 });
    assert_eq!(stats.record("a"), AdblockStatsPayload { label: s("a"), blocked_count: 2 });
    assert_eq!(stats.record("b"), AdblockStatsPayload { label: s("b"), blocked_count: 1 });
    assert_eq!(stats.record("a"), AdblockStatsPayload { label: s("a"), blocked_count: 3 });
    assert_eq!(stats.blocked_count("a"), 3);
    assert_eq!(stats.blocked_count("b"), 1);
    assert_eq!(stats.blocked_count("c"), 0);
}

#[test]
fn tab_info_reaches_the_listeners_and_the_history() {
    let update = update_tab_info(s("a"), Some(s("Title")), Some(s("icon")), Some(s("https://e.com")));
    assert_eq!(update.history_title, Some((s("https://e.com"), s("Title"))));
    assert_eq!(
        update.event,
        LifecycleEvent::TabUpdated(TabUpdatedPayload {
            label: s("a"),
            title: Some(s("Title")),
            favicon: Some(s("icon")),
        })
    );
}

#[test]
fn tab_info_of_host_pages_stays_out_of_the_history() {
    for url in ["tauri://localhost/index.html", "about:blank"] {
        let update = update_tab_info(s("a"), Some(s("T")), None, Some(s(url)));
        assert_eq!(update.history_title, None);
        assert_eq!(
            update.event,
            LifecycleEvent::TabUpdated(TabUpdatedPayload {
                label: s("a"),
                title: Some(s("T")),
                favicon: None
            })
        );
    }
    assert_eq!(update_tab_info(s("a"), None, None, Some(s("https://e.com"))).history_title, None);
    assert_eq!(update_tab_info(s("a"), Some(s("T")), None, None).history_title, None);
}
