//! The records of the browsing database: visits, cookies, form entries, web
//! storage and zoom levels.
//!
//! The database itself is the caller's. These are the rows that go in and
//! come out, and the values that stand in for what a row leaves open.

use vstd::prelude::*;
use vstd::string::StringExecFns;

verus! {

/// The zoom of a domain that has none recorded, in percent.
pub const DEFAULT_ZOOM: i32 = 100;

/// The path of a cookie that names none.
pub open spec fn default_cookie_path() -> Seq<char> {
    "/"@
}

/// One address of the history, with how often and when it was last visited.
#[derive(Debug, PartialEq, Eq)]
pub struct HistoryItem {
    pub url: String,
    pub title: String,
    pub visit_count: i64,
    pub last_visit: i64,
}

/// A [`HistoryItem`] over sequences of characters.
pub struct HistoryItemModel {
    pub url: Seq<char>,
    pub title: Seq<char>,
    pub visit_count: i64,
    pub last_visit: i64,
}

impl View for HistoryItem {
    type V = HistoryItemModel;

    open spec fn view(&self) -> HistoryItemModel {
        HistoryItemModel {
            url: self.url@,
            title: self.title@,
            visit_count: self.visit_count,
            last_visit: self.last_visit,
        }
    }
}

impl Clone for HistoryItem {
    fn clone(&self) -> (copy: Self)
        ensures
            copy@ == self@,
    {
        HistoryItem {
            url: self.url.clone(),
            title: self.title.clone(),
            visit_count: self.visit_count,
            last_visit: self.last_visit,
        }
    }
}

/// One cookie.
#[derive(Debug, PartialEq, Eq)]
pub struct CookieItem {
    pub domain: String,
    pub name: String,
    pub value: String,
    /// When the cookie ends, in seconds since 1970; a cookie without an end
    /// lasts.
    pub expires: Option<i64>,
    pub path: String,
    pub secure: bool,
    pub http_only: bool,
}

/// A [`CookieItem`] over sequences of characters.
pub struct CookieItemModel {
    pub domain: Seq<char>,
    pub name: Seq<char>,
    pub value: Seq<char>,
    pub expires: Option<i64>,
    pub path: Seq<char>,
    pub secure: bool,
    pub http_only: bool,
}

impl View for CookieItem {
    type V = CookieItemModel;

    open spec fn view(&self) -> CookieItemModel {
        CookieItemModel {
            domain: self.domain@,
            name: self.name@,
            value: self.value@,
            expires: self.expires,
            path: self.path@,
            secure: self.secure,
            http_only: self.http_only,
        }
    }
}

impl Clone for CookieItem {
    fn clone(&self) -> (copy: Self)
        ensures
            copy@ == self@,
    {
        CookieItem {
            domain: self.domain.clone(),
            name: self.name.clone(),
            value: self.value.clone(),
            expires: self.expires,
            path: self.path.clone(),
            secure: self.secure,
            http_only: self.http_only,
        }
    }
}

impl CookieItem {
    /// The cookie to store for what a page has set: a cookie that names no
    /// path belongs to the root.
    pub fn new(
        domain: String,
        name: String,
        value: String,
        expires: Option<i64>,
        path: Option<String>,
        secure: bool,
        http_only: bool,
    ) -> (cookie: Self)
        ensures
            cookie@ == (CookieItemModel {
                domain: domain@,
                name: name@,
                value: value@,
                expires,
                path: match path {
                    Some(p) => p@,
                    None => default_cookie_path(),
                },
                secure,
                http_only,
            }),
    {
        let path = match path {
            Some(p) => p,
            None => String::from_str("/"),
        };
        CookieItem { domain, name, value, expires, path, secure, http_only }
    }

    /// Tells whether the cookie still holds at the time `now`: it has no end,
    /// or its end lies after `now`.
    pub fn is_live_at(&self, now: i64) -> (live: bool)
        ensures
            live == match self.expires {
                Some(end) => end > now,
                None => true,
            },
    {
        match self.expires {
            Some(end) => end > now,
            None => true,
        }
    }
}

/// One value that a form field was filled with.
#[derive(Debug, PartialEq, Eq)]
pub struct FormDataItem {
    pub field_name: String,
    pub field_value: String,
    pub domain: String,
    pub last_used: i64,
    pub use_count: i64,
}

/// A [`FormDataItem`] over sequences of characters.
pub struct FormDataItemModel {
    pub field_name: Seq<char>,
    pub field_value: Seq<char>,
    pub domain: Seq<char>,
    pub last_used: i64,
    pub use_count: i64,
}

impl View for FormDataItem {
    type V = FormDataItemModel;

    open spec fn view(&self) -> FormDataItemModel {
        FormDataItemModel {
            field_name: self.field_name@,
            field_value: self.field_value@,
            domain: self.domain@,
            last_used: self.last_used,
            use_count: self.use_count,
        }
    }
}

impl Clone for FormDataItem {
    fn clone(&self) -> (copy: Self)
        ensures
            copy@ == self@,
    {
        FormDataItem {
            field_name: self.field_name.clone(),
            field_value: self.field_value.clone(),
            domain: self.domain.clone(),
            last_used: self.last_used,
            use_count: self.use_count,
        }
    }
}

/// One entry of a page's storage.
#[derive(Debug, PartialEq, Eq)]
pub struct WebStorageItem {
    pub domain: String,
    pub key: String,
    pub value: String,
    /// `localStorage` or `sessionStorage`.
    pub storage_type: String,
}

/// A [`WebStorageItem`] over sequences of characters.
pub struct WebStorageItemModel {
    pub domain: Seq<char>,
    pub key: Seq<char>,
    pub value: Seq<char>,
    pub storage_type: Seq<char>,
}

impl View for WebStorageItem {
    type V = WebStorageItemModel;

    open spec fn view(&self) -> WebStorageItemModel {
        WebStorageItemModel {
            domain: self.domain@,
            key: self.key@,
            value: self.value@,
            storage_type: self.storage_type@,
        }
    }
}

impl Clone for WebStorageItem {
    fn clone(&self) -> (copy: Self)
        ensures
            copy@ == self@,
    {
        WebStorageItem {
            domain: self.domain.clone(),
            key: self.key.clone(),
            value: self.value.clone(),
            storage_type: self.storage_type.clone(),
        }
    }
}

/// The zoom of one domain, in percent.
#[derive(Debug, PartialEq, Eq)]
pub struct ZoomLevel {
    pub domain: String,
    pub zoom: i32,
}

/// A [`ZoomLevel`] over sequences of characters.
pub struct ZoomLevelModel {
    pub domain: Seq<char>,
    pub zoom: i32,
}

impl View for ZoomLevel {
    type V = ZoomLevelModel;

    open spec fn view(&self) -> ZoomLevelModel {
        ZoomLevelModel { domain: self.domain@, zoom: self.zoom }
    }
}

impl Clone for ZoomLevel {
    fn clone(&self) -> (copy: Self)
        ensures
            copy@ == self@,
    {
        ZoomLevel { domain: self.domain.clone(), zoom: self.zoom }
    }
}

impl ZoomLevel {
    /// The zoom of `domain`, given what the database holds for it: the
    /// recorded zoom, or [`DEFAULT_ZOOM`] where none is recorded.
    pub fn resolve(domain: String, recorded: Option<i32>) -> (level: Self)
        ensures
            level@ == (ZoomLevelModel {
                domain: domain@,
                zoom: match recorded {
                    Some(zoom) => zoom,
                    None => DEFAULT_ZOOM,
                },
            }),
    {
        let zoom = match recorded {
            Some(zoom) => zoom,
            None => DEFAULT_ZOOM,
        };
        ZoomLevel { domain, zoom }
    }
}

} // verus!
