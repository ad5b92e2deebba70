use lumina::data::AppData;
use lumina::data::AppDataStore;
use lumina::data::AppSettings;
use lumina::data::FavoriteItem;
use lumina::data::HistoryItem;
use lumina::data::DATA_FILE_NAME;
use lumina::data::HISTORY_LIMIT;
use lumina::downloads::DownloadItem;
use lumina::downloads::DownloadManager;
use lumina::downloads::DOWNLOADS_FILE_NAME;
use lumina::history_manager::CookieItem;
use lumina::history_manager::ZoomLevel;
use lumina::history_manager::DEFAULT_ZOOM;
use lumina::scripts::get_lumina_stealth_script;
use lumina::scripts::get_pwa_init_script;
use lumina::scripts::get_tab_init_script;
use lumina::scripts::STEALTH_SCRIPT;
use lumina::store::install_toast;
use lumina::store::mark_installed;
use lumina::store::StoreItem;
use lumina::store::ToastPayload;

fn s(text: &str) -> String {
    text.to_string()
}

fn fresh() -> AppDataStore {
    AppDataStore::new(s("/tmp/browser_data.json"), None)
}

#[test]
fn fresh_store_holds_the_defaults() {
    let store = fresh();
    assert_eq!(store.file_path, "/tmp/browser_data.json");
    assert!(store.data.history.is_empty());
    assert!(store.data.favorites.is_empty());
    assert_eq!(
        store.data.settings,
        AppSettings {
            homepage: s("https://www.google.com"),
            search_engine: s("google"),
            theme: s("dark"),
            accent_color: s("#3b82f6"),
            vertical_tabs: false,
            rounded_corners: true,
        }
    );
    assert_eq!(store.data, AppData::default());
    assert_eq!(DATA_FILE_NAME, "browser_data.json");
}

#[test]
fn store_keeps_what_was_read() {
    let stored = AppData {
        history: vec![HistoryItem { url: s("u"), title: s("t"), timestamp: 7 }],
        favorites: vec![FavoriteItem { url: s("f"), title: s("g") }],
        settings: AppSettings::default(),
    };
    let store = AppDataStore::new(s("p"), Some(stored.clone_for_test()));
    assert_eq!(store.data, stored);
}

trait CloneForTest {
    fn clone_for_test(&self) -> Self;
}

impl CloneForTest for AppData {
    fn clone_for_test(&self) -> Self {
        AppData {
            history: self.history.clone(),
            favorites: self.favorites.clone(),
            settings: self.settings.clone(),
        }
    }
}

#[test]
fn visits_go_to_the_front() {
    let mut store = fresh();
    store.add_history_at(s("a"), s("A"), 1);
    store.add_history_at(s("b"), s("B"), 2);
    assert_eq!(
        store.data.history,
        vec![
            HistoryItem { url: s("b"), title: s("B"), timestamp: 2 },
            HistoryItem { url: s("a"), title: s("A"), timestamp: 1 },
        ]
    );
}

#[test]
fn repeated_visit_moves_to_the_front() {
    let mut store = fresh();
    store.add_history_at(s("a"), s("A"), 1);
    store.add_history_at(s("b"), s("B"), 2);
    store.add_history_at(s("a"), s("A again"), 3);
    assert_eq!(
        store.data.history,
        vec![
            HistoryItem { url: s("a"), title: s("A again"), timestamp: 3 },
            HistoryItem { url: s("b"), title: s("B"), timestamp: 2 },
        ]
    );
}

#[test]
fn only_the_first_older_entry_is_dropped() {
    let stored = AppData {
        history: vec![
            HistoryItem { url: s("a"), title: s("1"), timestamp: 1 },
            HistoryItem { url: s("b"), title: s("2"), timestamp: 2 },
            HistoryItem { url: s("a"), title: s("3"), timestamp: 3 },
        ],
        favorites: vec![],
        settings: AppSettings::default(),
    };
    let mut store = AppDataStore::new(s("p"), Some(stored));
    store.add_history_at(s("a"), s("new"), 9);
    assert_eq!(
        store.data.history,
        vec![
            HistoryItem { url: s("a"), title: s("new"), timestamp: 9 },
            HistoryItem { url: s("b"), title: s("2"), timestamp: 2 },
            HistoryItem { url: s("a"), title: s("3"), timestamp: 3 },
        ]
    );
}

#[test]
fn history_is_cut_at_the_limit() {
    let mut store = fresh();
    for i in 0..150i64 {
        store.add_history_at(format!("u{}", i), s("t"), i);
    }
    assert_eq!(HISTORY_LIMIT, 100);
    assert_eq!(store.data.history.len(), 100);
    assert_eq!(store.data.history[0].url, "u149");
    assert_eq!(store.data.history[99].url, "u50");
    store.add_history_at(s("u50"), s("t"), 200);
    assert_eq!(store.data.history.len(), 100);
    assert_eq!(store.data.history[0].url, "u50");
    assert_eq!(store.data.history[99].url, "u51");
}

#[test]
fn visit_now_carries_the_clock() {
    let mut store = fresh();
    store.add_favorite(s("f"), s("F"));
    store.add_history(s("a"), s("A"));
    assert_eq!(store.data.history.len(), 1);
    assert_eq!(store.data.history[0].url, "a");
    assert_eq!(store.data.history[0].title, "A");
    assert!(store.data.history[0].timestamp > 1_600_000_000);
    assert_eq!(store.data.favorites.len(), 1);
}

#[test]
fn favorite_is_added_once() {
    let mut store = fresh();
    store.add_favorite(s("a"), s("A"));
    store.add_favorite(s("b"), s("B"));
    store.add_favorite(s("a"), s("other title"));
    assert_eq!(
        store.data.favorites,
        vec![
            FavoriteItem { url: s("a"), title: s("A") },
            FavoriteItem { url: s("b"), title: s("B") },
        ]
    );
}

#[test]
fn favorite_is_removed() {
    let mut store = fresh();
    store.add_favorite(s("a"), s("A"));
    store.add_favorite(s("b"), s("B"));
    store.remove_favorite(s("a"));
    assert_eq!(store.data.favorites, vec![FavoriteItem { url: s("b"), title: s("B") }]);
    store.remove_favorite(s("zzz"));
    assert_eq!(store.data.favorites.len(), 1);
    store.remove_favorite(s("b"));
    assert!(store.data.favorites.is_empty());
}

#[test]
fn settings_are_replaced() {
    let mut store = fresh();
    store.add_favorite(s("a"), s("A"));
    store.update_settings(s("https://h"), s("bing"), s("light"), s("#000000"), true, false);
    assert_eq!(
        store.data.settings,
        AppSettings {
            homepage: s("https://h"),
            search_engine: s("bing"),
            theme: s("light"),
            accent_color: s("#000000"),
            vertical_tabs: true,
            rounded_corners: false,
        }
    );
    assert_eq!(store.data.favorites.len(), 1);
}

fn download(url: &str, status: &str) -> DownloadItem {
    DownloadItem {
        url: s(url),
        file_name: s("f"),
        total_size: 0,
        downloaded_size: 0,
        path: s("/d/f"),
        status: s(status),
        added_at: 5,
    }
}

#[test]
fn download_manager_starts_empty() {
    let manager = DownloadManager::new(s("/app"), None);
    assert!(manager.get_downloads().is_empty());
    assert_eq!(manager.app_dir(), "/app");
    assert_eq!(DOWNLOADS_FILE_NAME, "downloads.json");
}

#[test]
fn download_manager_holds_what_was_read() {
    let stored = vec![download("a", "completed"), download("b", "paused")];
    let manager = DownloadManager::new(s("/app"), Some(stored));
    assert_eq!(manager.get_downloads(), vec![download("a", "completed"), download("b", "paused")]);
    assert_eq!(manager.app_dir(), "/app");
    let empty = DownloadManager::new(s("/app"), Some(vec![]));
    assert!(empty.get_downloads().is_empty());
}

#[test]
fn download_manager_keeps_one_entry_per_address_of_what_was_read() {
    let stored = vec![download("a", "failed"), download("b", "paused"), download("a", "completed")];
    let manager = DownloadManager::new(s("/app"), Some(stored));
    assert_eq!(manager.get_downloads(), vec![download("a", "completed"), download("b", "paused")]);
}

#[test]
fn started_download_has_no_size_yet() {
    assert_eq!(
        DownloadItem::started(s("u"), s("f"), s("/d/f"), 12, 99),
        DownloadItem {
            url: s("u"),
            file_name: s("f"),
            total_size: 0,
            downloaded_size: 12,
            path: s("/d/f"),
            status: s("downloading"),
            added_at: 99,
        }
    );
}

#[test]
fn downloads_are_listed_once_per_address() {
    let mut manager = DownloadManager::new(s("/app"), None);
    manager.insert(download("a", "downloading"));
    manager.insert(download("b", "downloading"));
    manager.insert(download("a", "paused"));
    assert_eq!(manager.get_downloads(), vec![download("a", "paused"), download("b", "downloading")]);
    assert_eq!(manager.get("a"), Some(download("a", "paused")));
    assert_eq!(manager.get("c"), None);
}

#[test]
fn download_status_and_progress_are_updated() {
    let mut manager = DownloadManager::new(s("/app"), None);
    manager.insert(download("a", "downloading"));
    manager.insert(download("b", "downloading"));
    manager.update_progress("b", 10, 40);
    manager.update_status("b", "completed");
    manager.update_status("zzz", "failed");
    manager.update_progress("zzz", 1, 2);
    let mut done = download("b", "completed");
    done.downloaded_size = 10;
    done.total_size = 40;
    assert_eq!(manager.get_downloads(), vec![download("a", "downloading"), done]);
}

fn module(id: &str, installed: bool) -> StoreItem {
    StoreItem {
        id: s(id),
        title: s("T"),
        author: s("A"),
        description: s("D"),
        icon: s("I"),
        version: s("1"),
        tags: vec![s("x"), s("y")],
        verified: true,
        installed,
        coming_soon: false,
    }
}

#[test]
fn first_module_with_the_id_is_marked() {
    let mut items = vec![module("a", false), module("b", false), module("b", false)];
    assert!(mark_installed(&mut items, "b"));
    assert_eq!(items, vec![module("a", false), module("b", true), module("b", false)]);
    assert!(mark_installed(&mut items, "b"));
    assert_eq!(items, vec![module("a", false), module("b", true), module("b", false)]);
}

#[test]
fn unknown_module_marks_nothing() {
    let mut items = vec![module("a", false)];
    assert!(!mark_installed(&mut items, "zzz"));
    assert_eq!(items, vec![module("a", false)]);
    let mut none: Vec<StoreItem> = vec![];
    assert!(!mark_installed(&mut none, "a"));
}

#[test]
fn install_notices() {
    assert_eq!(
        install_toast("night-owl", true),
        ToastPayload { message: s("Modül başarıyla kuruldu: night-owl"), level: s("success") }
    );
    assert_eq!(
        install_toast("night-owl", false),
        ToastPayload { message: s("Kurulum başarısız: night-owl"), level: s("error") }
    );
}

#[test]
fn cookie_without_a_path_belongs_to_the_root() {
    let cookie = CookieItem::new(s("d"), s("n"), s("v"), Some(5), None, true, false);
    assert_eq!(
        cookie,
        CookieItem {
            domain: s("d"),
            name: s("n"),
            value: s("v"),
            expires: Some(5),
            path: s("/"),
            secure: true,
            http_only: false,
        }
    );
    let other = CookieItem::new(s("d"), s("n"), s("v"), None, Some(s("/a")), false, true);
    assert_eq!(other.path, "/a");
    assert_eq!(other.expires, None);
}

#[test]
fn cookie_lives_until_its_end() {
    let cookie = CookieItem::new(s("d"), s("n"), s("v"), Some(5), None, false, false);
    assert!(cookie.is_live_at(4));
    assert!(!cookie.is_live_at(5));
    assert!(!cookie.is_live_at(6));
    let lasting = CookieItem::new(s("d"), s("n"), s("v"), None, None, false, false);
    assert!(lasting.is_live_at(i64::MAX));
}

#[test]
fn zoom_defaults_to_a_hundred() {
    assert_eq!(DEFAULT_ZOOM, 100);
    assert_eq!(ZoomLevel::resolve(s("d"), None), ZoomLevel { domain: s("d"), zoom: 100 });
    assert_eq!(ZoomLevel::resolve(s("d"), Some(125)), ZoomLevel { domain: s("d"), zoom: 125 });
}

#[test]
fn stealth_script_is_the_constant() {
    let script = get_lumina_stealth_script();
    assert_eq!(script, STEALTH_SCRIPT);
    assert!(script.contains("Lumina Stealth Protocol: Activated on "));
    assert!(script.trim_start().starts_with("(function() {"));
    assert!(script.trim_end().ends_with("})();"));
}

#[test]
fn pwa_script_carries_label_and_key() {
    let script = get_pwa_init_script("pwa-example-com", "k3y");
    assert!(script.contains("window.__TAB_LABEL__ = \"pwa-example-com\";"));
    assert!(script.contains("window.__TAURI_INVOKE_KEY__ = \"k3y\";"));
    assert!(script.contains("function invoke(cmd, args) {"));
    assert!(!script.contains("{{"));
    assert!(script.contains("var noOp = function(res) {};"));
    assert_eq!(script.matches("pwa-example-com").count(), 1);
    assert_eq!(script.matches("k3y").count(), 1);
}

#[test]
fn tab_script_starts_with_the_stealth_script() {
    let script = get_tab_init_script("tab-1", "k3y");
    let head = format!("{}\n", STEALTH_SCRIPT);
    assert!(script.starts_with(&head));
    let rest = &script[head.len()..];
    assert!(rest.contains("window.__TAB_LABEL__ = \"tab-1\";"));
    assert!(rest.contains("window.__TAURI_INVOKE_KEY__ = \"k3y\";"));
    assert!(!rest.contains("{{"));
}
