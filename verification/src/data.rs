//! The user's data that lives in one file: the short history, the favorites
//! and the settings.
//!
//! Reading and writing the file is the caller's part. The store holds the
//! data between the two and keeps the rules: a visit goes to the front of the
//! history and takes the place of the address's older entry, the history
//! never grows beyond [`HISTORY_LIMIT`] entries, and a favorite is not added
//! twice.

use vstd::prelude::*;
use vstd::string::StringExecFns;
use crate::clock::unix_now;

verus! {

/// The most entries that the short history keeps.
pub const HISTORY_LIMIT: usize = 100;

/// The name of the file that holds the data, inside the application's
/// directory.
pub const DATA_FILE_NAME: &'static str = "browser_data.json";

/// One visit in the short history.
#[derive(Debug, PartialEq, Eq)]
pub struct HistoryItem {
    pub url: String,
    pub title: String,
    pub timestamp: i64,
}

/// A [`HistoryItem`] over sequences of characters.
pub struct HistoryItemModel {
    pub url: Seq<char>,
    pub title: Seq<char>,
    pub timestamp: i64,
}

impl View for HistoryItem {
    type V = HistoryItemModel;

    open spec fn view(&self) -> HistoryItemModel {
        HistoryItemModel { url: self.url@, title: self.title@, timestamp: self.timestamp }
    }
}

impl Clone for HistoryItem {
    fn clone(&self) -> (copy: Self)
        ensures
            copy@ == self@,
    {
        HistoryItem {
            url: self.url.clone(),
            title: self.title.clone(),
            timestamp: self.timestamp,
        }
    }
}

/// One favorite.
#[derive(Debug, PartialEq, Eq)]
pub struct FavoriteItem {
    pub url: String,
    pub title: String,
}

/// A [`FavoriteItem`] over sequences of characters.
pub struct FavoriteItemModel {
    pub url: Seq<char>,
    pub title: Seq<char>,
}

impl View for FavoriteItem {
    type V = FavoriteItemModel;

    open spec fn view(&self) -> FavoriteItemModel {
        FavoriteItemModel { url: self.url@, title: self.title@ }
    }
}

impl Clone for FavoriteItem {
    fn clone(&self) -> (copy: Self)
        ensures
            copy@ == self@,
    {
        FavoriteItem { url: self.url.clone(), title: self.title.clone() }
    }
}

/// What the user has chosen.
#[derive(Debug, PartialEq, Eq)]
pub struct AppSettings {
    pub homepage: String,
    /// `google`, `bing` or `duckduckgo`.
    pub search_engine: String,
    /// `dark`, `light` or `system`.
    pub theme: String,
    /// A colour in hexadecimal, such as `#3b82f6`.
    pub accent_color: String,
    pub vertical_tabs: bool,
    pub rounded_corners: bool,
}

/// [`AppSettings`] over sequences of characters.
pub struct AppSettingsModel {
    pub homepage: Seq<char>,
    pub search_engine: Seq<char>,
    pub theme: Seq<char>,
    pub accent_color: Seq<char>,
    pub vertical_tabs: bool,
    pub rounded_corners: bool,
}

impl View for AppSettings {
    type V = AppSettingsModel;

    open spec fn view(&self) -> AppSettingsModel {
        AppSettingsModel {
            homepage: self.homepage@,
            search_engine: self.search_engine@,
            theme: self.theme@,
            accent_color: self.accent_color@,
            vertical_tabs: self.vertical_tabs,
            rounded_corners: self.rounded_corners,
        }
    }
}

/// The settings of a fresh installation.
pub open spec fn default_settings() -> AppSettingsModel {
    AppSettingsModel {
        homepage: "https://www.google.com"@,
        search_engine: "google"@,
        theme: "dark"@,
        accent_color: "#3b82f6"@,
        vertical_tabs: false,
        rounded_corners: true,
    }
}

impl Default for AppSettings {
    fn default() -> (settings: Self)
        ensures
            settings@ == default_settings(),
    {
        AppSettings {
            homepage: String::from_str("https://www.google.com"),
            search_engine: String::from_str("google"),
            theme: String::from_str("dark"),
            accent_color: String::from_str("#3b82f6"),
            vertical_tabs: false,
            rounded_corners: true,
        }
    }
}

impl Clone for AppSettings {
    fn clone(&self) -> (copy: Self)
        ensures
            copy@ == self@,
    {
        AppSettings {
            homepage: self.homepage.clone(),
            search_engine: self.search_engine.clone(),
            theme: self.theme.clone(),
            accent_color: self.accent_color.clone(),
            vertical_tabs: self.vertical_tabs,
            rounded_corners: self.rounded_corners,
        }
    }
}

/// Everything that the data file holds.
#[derive(Debug, PartialEq, Eq)]
pub struct AppData {
    pub history: Vec<HistoryItem>,
    pub favorites: Vec<FavoriteItem>,
    pub settings: AppSettings,
}

/// [`AppData`] over sequences.
pub struct AppDataModel {
    pub history: Seq<HistoryItemModel>,
    pub favorites: Seq<FavoriteItemModel>,
    pub settings: AppSettingsModel,
}

impl View for AppData {
    type V = AppDataModel;

    open spec fn view(&self) -> AppDataModel {
        AppDataModel {
            history: self.history@.map_values(|item: HistoryItem| item@),
            favorites: self.favorites@.map_values(|item: FavoriteItem| item@),
            settings: self.settings@,
        }
    }
}

/// The data of a fresh installation: nothing visited, nothing marked, and the
/// default settings.
pub open spec fn default_data() -> AppDataModel {
    AppDataModel { history: Seq::empty(), favorites: Seq::empty(), settings: default_settings() }
}

impl Default for AppData {
    fn default() -> (data: Self)
        ensures
            data@ == default_data(),
    {
        let data = AppData {
            history: Vec::new(),
            favorites: Vec::new(),
            settings: AppSettings::default(),
        };
        assert(data@.history =~= Seq::<HistoryItemModel>::empty());
        assert(data@.favorites =~= Seq::<FavoriteItemModel>::empty());
        data
    }
}

/// `i` is the first place of `urls` that holds `url`.
pub open spec fn is_first_place(urls: Seq<Seq<char>>, url: Seq<char>, i: int) -> bool {
    &&& 0 <= i < urls.len()
    &&& urls[i] == url
    &&& forall|j: int| 0 <= j < i ==> urls[j] != url
}

/// The first place of `urls` that holds `url`, if it occurs at all.
pub open spec fn first_place(urls: Seq<Seq<char>>, url: Seq<char>) -> Option<int> {
    if exists|i: int| is_first_place(urls, url, i) {
        Some(choose|i: int| is_first_place(urls, url, i))
    } else {
        None
    }
}

/// The addresses of a history, in order.
pub open spec fn history_urls(history: Seq<HistoryItemModel>) -> Seq<Seq<char>> {
    history.map_values(|item: HistoryItemModel| item.url)
}

/// The addresses of the favorites, in order.
pub open spec fn favorite_urls(favorites: Seq<FavoriteItemModel>) -> Seq<Seq<char>> {
    favorites.map_values(|item: FavoriteItemModel| item.url)
}

/// The history after a visit: the first older entry of the same address is
/// dropped, the visit goes to the front, and what lies beyond the limit is
/// cut off.
pub open spec fn history_after_visit(
    history: Seq<HistoryItemModel>,
    url: Seq<char>,
    title: Seq<char>,
    timestamp: i64,
) -> Seq<HistoryItemModel> {
    let thinned = match first_place(history_urls(history), url) {
        Some(i) => history.remove(i),
        None => history,
    };
    let grown = seq![HistoryItemModel { url, title, timestamp }] + thinned;
    if grown.len() > HISTORY_LIMIT {
        grown.take(HISTORY_LIMIT as int)
    } else {
        grown
    }
}

/// The favorites after one was added: unchanged where the address is marked
/// already, and else longer by the new one at the end.
pub open spec fn favorites_after_add(
    favorites: Seq<FavoriteItemModel>,
    url: Seq<char>,
    title: Seq<char>,
) -> Seq<FavoriteItemModel> {
    if first_place(favorite_urls(favorites), url) is Some {
        favorites
    } else {
        favorites.push(FavoriteItemModel { url, title })
    }
}

/// The favorites after an address was unmarked: the first entry of that
/// address is gone.
pub open spec fn favorites_after_remove(
    favorites: Seq<FavoriteItemModel>,
    url: Seq<char>,
) -> Seq<FavoriteItemModel> {
    match first_place(favorite_urls(favorites), url) {
        Some(i) => favorites.remove(i),
        None => favorites,
    }
}

/// The first place that holds an address is the same whoever finds it.
pub proof fn lemma_first_place_is(urls: Seq<Seq<char>>, url: Seq<char>, i: int)
    requires
        is_first_place(urls, url, i),
    ensures
        first_place(urls, url) == Some(i),
{
    let k = choose|k: int| is_first_place(urls, url, k);
    assert(is_first_place(urls, url, k));
    if k < i {
        assert(urls[k] != url);
    }
    if i < k {
        assert(urls[i] != url);
    }
}

/// An address that no place holds has no first place.
pub proof fn lemma_first_place_none(urls: Seq<Seq<char>>, url: Seq<char>)
    requires
        forall|j: int| 0 <= j < urls.len() ==> urls[j] != url,
    ensures
        first_place(urls, url) is None,
{
    if exists|i: int| is_first_place(urls, url, i) {
        let k = choose|k: int| is_first_place(urls, url, k);
        assert(urls[k] == url);
    }
}

/// The store of the user's data.
#[derive(Debug, PartialEq, Eq)]
pub struct AppDataStore {
    pub data: AppData,
    /// Where the data is kept on disk.
    pub file_path: String,
}

impl AppDataStore {
    /// A store for the file at `file_path`, holding what was read from it, or
    /// the data of a fresh installation where nothing could be read.
    pub fn new(file_path: String, stored: Option<AppData>) -> (store: Self)
        ensures
            store.file_path@ == file_path@,
            store.data@ == match stored {
                Some(data) => data@,
                None => default_data(),
            },
    {
        let data = match stored {
            Some(data) => data,
            None => AppData::default(),
        };
        AppDataStore { data, file_path }
    }

    fn history_position(&self, url: &String) -> (place: Option<usize>)
        ensures
            match place {
                Some(i) => first_place(history_urls(self.data@.history), url@) == Some(i as int)
                    && i < self.data.history@.len(),
                None => first_place(history_urls(self.data@.history), url@) is None,
            },
    {
        let ghost urls = history_urls(self.data@.history);
        let mut i: usize = 0;
        while i < self.data.history.len()
            invariant
                i <= self.data.history.len(),
                urls == history_urls(self.data@.history),
                forall|j: int| 0 <= j < i ==> urls[j] != url@,
            decreases self.data.history.len() - i,
        {
            if self.data.history[i].url == *url {
                proof {
                    assert(urls[i as int] == url@);
                    lemma_first_place_is(urls, url@, i as int);
                }
                return Some(i);
            }
            i += 1;
        }
        proof {
            lemma_first_place_none(urls, url@);
        }
        None
    }

    fn favorite_position(&self, url: &String) -> (place: Option<usize>)
        ensures
            match place {
                Some(i) => first_place(favorite_urls(self.data@.favorites), url@) == Some(i as int)
                    && i < self.data.favorites@.len(),
                None => first_place(favorite_urls(self.data@.favorites), url@) is None,
            },
    {
        let ghost urls = favorite_urls(self.data@.favorites);
        let mut i: usize = 0;
        while i < self.data.favorites.len()
            invariant
                i <= self.data.favorites.len(),
                urls == favorite_urls(self.data@.favorites),
                forall|j: int| 0 <= j < i ==> urls[j] != url@,
            decreases self.data.favorites.len() - i,
        {
            if self.data.favorites[i].url == *url {
                proof {
                    assert(urls[i as int] == url@);
                    lemma_first_place_is(urls, url@, i as int);
                }
                return Some(i);
            }
            i += 1;
        }
        proof {
            lemma_first_place_none(urls, url@);
        }
        None
    }

    /// Records a visit that happened at `timestamp`.
    ///
    /// The first older entry of the same address is dropped and the visit
    /// goes to the front; the history is cut to [`HISTORY_LIMIT`] entries.
    pub fn add_history_at(&mut self, url: String, title: String, timestamp: i64)
        ensures
            final(self).data@.history == history_after_visit(
                old(self).data@.history,
                url@,
                title@,
                timestamp,
            ),
            final(self).data@.favorites == old(self).data@.favorites,
            final(self).data@.settings == old(self).data@.settings,
            final(self).file_path@ == old(self).file_path@,
            final(self).data@.history.len() <= HISTORY_LIMIT,
            final(self).data@.history.len() > 0,
            final(self).data@.history[0] == (HistoryItemModel { url: url@, title: title@, timestamp }),
    {
        let ghost before = self.data@.history;
        let ghost favorites = self.data@.favorites;
        match self.history_position(&url) {
            Some(i) => {
                self.data.history.remove(i);
                assert(self.data@.history =~= before.remove(i as int));
            },
            None => {},
        }
        let ghost thinned = self.data@.history;
        self.data.history.insert(0, HistoryItem { url, title, timestamp });
        let ghost grown = self.data@.history;
        assert(grown =~= seq![HistoryItemModel { url: url@, title: title@, timestamp }] + thinned);
        if self.data.history.len() > HISTORY_LIMIT {
            self.data.history.truncate(HISTORY_LIMIT);
            assert(self.data@.history =~= grown.take(HISTORY_LIMIT as int));
        }
        assert(self.data@.favorites =~= favorites);
    }

    /// Records a visit that happens now.
    ///
    /// The entry carries the time of the clock; everything else is as
    /// [`AppDataStore::add_history_at`] says.
    pub fn add_history(&mut self, url: String, title: String)
        ensures
            exists|timestamp: i64|
                final(self).data@.history == #[trigger] history_after_visit(
                    old(self).data@.history,
                    url@,
                    title@,
                    timestamp,
                ),
            final(self).data@.favorites == old(self).data@.favorites,
            final(self).data@.settings == old(self).data@.settings,
            final(self).file_path@ == old(self).file_path@,
            final(self).data@.history.len() <= HISTORY_LIMIT,
            final(self).data@.history.len() > 0,
            final(self).data@.history[0].url == url@,
            final(self).data@.history[0].title == title@,
    {
        let timestamp = unix_now();
        self.add_history_at(url, title, timestamp);
    }

    /// Marks an address as a favorite, unless it is one already.
    pub fn add_favorite(&mut self, url: String, title: String)
        ensures
            final(self).data@.favorites == favorites_after_add(
                old(self).data@.favorites,
                url@,
                title@,
            ),
            final(self).data@.history == old(self).data@.history,
            final(self).data@.settings == old(self).data@.settings,
            final(self).file_path@ == old(self).file_path@,
    {
        let ghost before = self.data@.favorites;
        let ghost history = self.data@.history;
        if self.favorite_position(&url).is_none() {
            self.data.favorites.push(FavoriteItem { url, title });
            assert(self.data@.favorites =~= before.push(
                FavoriteItemModel { url: url@, title: title@ },
            ));
        }
        assert(self.data@.history =~= history);
    }

    /// Takes the first favorite of an address away; an address that is no
    /// favorite changes nothing.
    pub fn remove_favorite(&mut self, url: String)
        ensures
            final(self).data@.favorites == favorites_after_remove(old(self).data@.favorites, url@),
            final(self).data@.history == old(self).data@.history,
            final(self).data@.settings == old(self).data@.settings,
            final(self).file_path@ == old(self).file_path@,
    {
        let ghost before = self.data@.favorites;
        let ghost history = self.data@.history;
        match self.favorite_position(&url) {
            Some(i) => {
                self.data.favorites.remove(i);
                assert(self.data@.favorites =~= before.remove(i as int));
            },
            None => {},
        }
        assert(self.data@.history =~= history);
    }

    /// Replaces the settings.
    pub fn update_settings(
        &mut self,
        homepage: String,
        search_engine: String,
        theme: String,
        accent_color: String,
        vertical_tabs: bool,
        rounded_corners: bool,
    )
        ensures
            final(self).data@.settings == (AppSettingsModel {
                homepage: homepage@,
                search_engine: search_engine@,
                theme: theme@,
                accent_color: accent_color@,
                vertical_tabs,
                rounded_corners,
            }),
            final(self).data@.history == old(self).data@.history,
            final(self).data@.favorites == old(self).data@.favorites,
            final(self).file_path@ == old(self).file_path@,
    {
        self.data.settings.homepage = homepage;
        self.data.settings.search_engine = search_engine;
        self.data.settings.theme = theme;
        self.data.settings.accent_color = accent_color;
        self.data.settings.vertical_tabs = vertical_tabs;
        self.data.settings.rounded_corners = rounded_corners;
    }
}

/// A favorite that was added is not added again: the second time changes
/// nothing.
pub proof fn lemma_add_favorite_twice(
    favorites: Seq<FavoriteItemModel>,
    url: Seq<char>,
    title: Seq<char>,
    again: Seq<char>,
)
    ensures
        favorites_after_add(favorites_after_add(favorites, url, title), url, again)
            == favorites_after_add(favorites, url, title),
{
    let once = favorites_after_add(favorites, url, title);
    let urls = favorite_urls(once);
    if first_place(favorite_urls(favorites), url) is Some {
    } else {
        let n = favorites.len() as int;
        assert(urls[n] == url);
        lemma_some_place_has_first(urls, url, n);
    }
}

/// An address that some place holds has a first place.
pub proof fn lemma_some_place_has_first(urls: Seq<Seq<char>>, url: Seq<char>, i: int)
    requires
        0 <= i < urls.len(),
        urls[i] == url,
    ensures
        first_place(urls, url) is Some,
    decreases i,
{
    if exists|j: int| 0 <= j < i && urls[j] == url {
        let j = choose|j: int| 0 <= j < i && urls[j] == url;
        lemma_some_place_has_first(urls, url, j);
    } else {
        assert(is_first_place(urls, url, i));
    }
}

} // verus!
