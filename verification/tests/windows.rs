use lumina::commands::clean_page;
use lumina::commands::evaluate;
use lumina::commands::go_back;
use lumina::commands::go_forward;
use lumina::commands::install_pwa;
use lumina::commands::refresh;
use lumina::commands::toggle_reader_mode;
use lumina::downloads::advance;
use lumina::downloads::download_file_name;
use lumina::downloads::plan_transfer;
use lumina::downloads::range_header;
use lumina::downloads::save_is_due;
use lumina::downloads::TransferPlan;
use lumina::host::HostCommand;
use lumina::registry::SurfaceKind;
use lumina::registry::SurfaceRegistry;
use lumina::registry::Visibility;
use lumina::scripts::get_pwa_install_script;
use lumina::scripts::CLEAN_PAGE_SCRIPT;
use lumina::scripts::READER_MODE_SCRIPT;
use lumina::text::chars_of;
use lumina::text::decimal_of;
use lumina::text::decimal_of_u64;
use lumina::text::last_segment_of;
use lumina::text::string_of;
use lumina::windows::flash_label;
use lumina::windows::flash_label_at;
use lumina::windows::is_listed_window;
use lumina::windows::pwa_label;
use lumina::windows::pwa_url_from_args;
use lumina::windows::sanitize_pwa_label;

fn s(text: &str) -> String {
    text.to_string()
}

#[test]
fn numbers_are_written_in_decimal() {
    for n in [0i64, 1, 9, 10, 11, 99, 100, 12345, -1, -10, -987, i64::MAX, i64::MIN, i64::MIN + 1] {
        assert_eq!(decimal_of(n), n.to_string());
    }
    for n in [0u64, 7, 10, 1_000_000, u64::MAX] {
        assert_eq!(decimal_of_u64(n), n.to_string());
    }
}

#[test]
fn last_segment_follows_the_last_slash() {
    assert_eq!(string_of(&last_segment_of(&chars_of("a/b/c.zip"))), "c.zip");
    assert_eq!(string_of(&last_segment_of(&chars_of("a/b/"))), "");
    assert_eq!(string_of(&last_segment_of(&chars_of("plain"))), "plain");
    assert_eq!(string_of(&last_segment_of(&chars_of(""))), "");
    assert_eq!(string_of(&last_segment_of(&chars_of("/"))), "");
}

#[test]
fn standalone_window_is_labelled_after_the_host() {
    assert_eq!(sanitize_pwa_label("https://www.example.com/app?x=1"), "pwa-www-example-com");
    assert_eq!(sanitize_pwa_label("https://127.0.0.1:8080/"), "pwa-127-0-0-1");
    assert_eq!(sanitize_pwa_label("https://EXAMPLE.com"), "pwa-example-com");
    assert_eq!(pwa_label(Some(s("a_b.c")), 5), "pwa-a-b-c");
    assert_eq!(pwa_label(Some(s("\u{e7}ay.example")), 5), "pwa-\u{e7}ay-example");
    assert_eq!(pwa_label(Some(s("")), 5), "pwa-");
}

#[test]
fn standalone_window_without_host_is_labelled_after_the_moment() {
    assert_eq!(pwa_label(None, 1_700_000_000_000_000), "pwa-1700000000000000");
    assert_eq!(pwa_label(None, -3), "pwa--3");
    for url in ["not an address", "data:text/plain,x", ""] {
        let label = sanitize_pwa_label(url);
        let digits = label.strip_prefix("pwa-").unwrap();
        assert!(digits.parse::<i64>().unwrap() > 1_600_000_000_000_000, "{}", label);
    }
}

#[test]
fn flash_window_is_labelled_after_the_moment() {
    assert_eq!(flash_label_at(42), "flash-42");
    let label = flash_label();
    let digits = label.strip_prefix("flash-").unwrap();
    assert!(digits.parse::<i64>().unwrap() > 1_600_000_000_000_000);
}

#[test]
fn main_and_flash_windows_are_not_listed() {
    assert!(!is_listed_window("main"));
    assert!(!is_listed_window("flash-1"));
    assert!(!is_listed_window("flash-"));
    assert!(is_listed_window("pwa-example-com"));
    assert!(is_listed_window("mainly"));
    assert!(is_listed_window("flash"));
    assert!(is_listed_window(""));
}

#[test]
fn standalone_address_is_read_from_the_arguments() {
    let args = vec![s("lumina"), s("--pwa-url=\"https://example.com/\""), s("--other")];
    assert_eq!(pwa_url_from_args(&args), Some(s("https://example.com/")));
    let two = vec![s("--pwa-url=https://a.example"), s("--pwa-url=https://b.example")];
    assert_eq!(pwa_url_from_args(&two), Some(s("https://b.example")));
    let odd = vec![s("--pwa-url=x--pwa-url=y\"z")];
    assert_eq!(pwa_url_from_args(&odd), Some(s("xyz")));
    assert_eq!(pwa_url_from_args(&vec![s("x--pwa-url=y")]), None);
    assert_eq!(pwa_url_from_args(&vec![]), None);
    assert_eq!(pwa_url_from_args(&vec![s("--pwa-url=")]), Some(s("")));
}

#[test]
fn download_is_named_after_its_address() {
    assert_eq!(download_file_name("https://example.com/files/a.zip"), "a.zip");
    assert_eq!(download_file_name("https://example.com/files/"), "downloaded_file");
    assert_eq!(download_file_name(""), "downloaded_file");
    assert_eq!(download_file_name("a.zip"), "a.zip");
}

#[test]
fn range_header_asks_for_the_rest() {
    assert_eq!(range_header(0), None);
    assert_eq!(range_header(1), Some(s("bytes=1-")));
    assert_eq!(range_header(1048576), Some(s("bytes=1048576-")));
}

#[test]
fn transfer_goes_on_only_after_partial_content() {
    assert_eq!(
        plan_transfer(206, Some(900), 100),
        TransferPlan { append: true, downloaded: 100, total_size: 1000 }
    );
    assert_eq!(
        plan_transfer(200, Some(1000), 100),
        TransferPlan { append: false, downloaded: 0, total_size: 1100 }
    );
    assert_eq!(
        plan_transfer(200, None, 0),
        TransferPlan { append: false, downloaded: 0, total_size: 0 }
    );
    assert_eq!(
        plan_transfer(206, Some(u64::MAX), 1),
        TransferPlan { append: true, downloaded: 1, total_size: u64::MAX }
    );
}

#[test]
fn progress_adds_up() {
    assert_eq!(advance(10, 5), 15);
    assert_eq!(advance(u64::MAX - 1, 5), u64::MAX);
    assert!(!save_is_due(5));
    assert!(save_is_due(6));
}

fn registry() -> SurfaceRegistry {
    let mut registry = SurfaceRegistry::new();
    assert!(registry.reserve("main", SurfaceKind::Primary));
    assert!(registry.commit("main"));
    assert!(registry.reserve("a", SurfaceKind::Tab));
    assert!(registry.commit("a"));
    assert!(registry.reserve("b", SurfaceKind::Tab));
    assert!(registry.reserve("c", SurfaceKind::Ephemeral));
    assert!(registry.commit("c"));
    assert!(registry.set_visibility("a", Visibility::Visible).is_some());
    registry
}

#[test]
fn history_steps_and_reload() {
    let registry = registry();
    assert_eq!(
        go_back(&registry, "a"),
        Some(HostCommand::Evaluate { label: s("a"), script: s("window.history.back()") })
    );
    assert_eq!(
        go_forward(&registry, "a"),
        Some(HostCommand::Evaluate { label: s("a"), script: s("window.history.forward()") })
    );
    assert_eq!(refresh(&registry, "a"), Some(HostCommand::Reload { label: s("a") }));
    assert_eq!(go_back(&registry, "b"), None);
    assert_eq!(go_forward(&registry, "zzz"), None);
    assert_eq!(refresh(&registry, "b"), None);
    assert_eq!(evaluate(&registry, "b", s("1")), None);
    assert_eq!(
        evaluate(&registry, "c", s("1")),
        Some(HostCommand::Evaluate { label: s("c"), script: s("1") })
    );
}

#[test]
fn reader_mode_runs_its_script() {
    let registry = registry();
    assert_eq!(
        toggle_reader_mode(&registry, "a"),
        Some(HostCommand::Evaluate { label: s("a"), script: s(READER_MODE_SCRIPT) })
    );
    assert!(READER_MODE_SCRIPT.contains("window.__readerModeActive = true;"));
    assert_eq!(toggle_reader_mode(&registry, "nope"), None);
}

#[test]
fn installation_script_carries_the_icon() {
    let with = get_pwa_install_script(Some(s("https://e.com/i.png")));
    assert!(with.contains("var knownIconUrl = 'https://e.com/i.png';"));
    let without = get_pwa_install_script(None);
    assert!(without.contains("var knownIconUrl = null;"));
    assert!(without.contains("if (window.deferredPrompt) {"));
    assert!(!without.contains("{{"));
    let registry = registry();
    assert_eq!(
        install_pwa(&registry, "a", None),
        Some(HostCommand::Evaluate { label: s("a"), script: without })
    );
    assert_eq!(install_pwa(&registry, "b", None), None);
}

#[test]
fn every_page_is_cleaned() {
    let registry = registry();
    assert_eq!(
        clean_page(&registry),
        vec![
            HostCommand::Evaluate { label: s("a"), script: s(CLEAN_PAGE_SCRIPT) },
            HostCommand::Evaluate { label: s("c"), script: s(CLEAN_PAGE_SCRIPT) },
        ]
    );
    assert!(CLEAN_PAGE_SCRIPT.contains("Lumina Clean Page: Removed "));
    assert!(clean_page(&SurfaceRegistry::new()).is_empty());
}
