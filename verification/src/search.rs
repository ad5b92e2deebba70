//! What the address bar searches: the history, or the favorites for a query
//! that begins with `@b`.

use vstd::prelude::*;
use crate::clock::unix_now;
use crate::data::FavoriteItem;
use crate::data::FavoriteItemModel;
use crate::history_manager::HistoryItem;
use crate::history_manager::HistoryItemModel;
use crate::text::begins_with;
use crate::text::chars_of;
use crate::text::holds;
use crate::text::holds_text;
use crate::text::lowercase;
use crate::text::replace_all;
use crate::text::replaced;
use crate::text::starts_with;
use crate::text::string_of;
use crate::text::trim;
use crate::text::trimmed;

verus! {

/// How many visits a favorite counts for among the suggestions.
pub const FAVORITE_VISITS: i64 = 100;

/// What a query of the address bar asks for.
#[derive(Debug, PartialEq, Eq)]
pub enum HistoryQuery {
    /// The favorites whose address or title holds `needle`, letters compared
    /// in lower case.
    Bookmarks { needle: String },
    /// The history, searched for `text`.
    History { text: String },
}

/// A [`HistoryQuery`] over sequences of characters.
pub enum HistoryQueryModel {
    Bookmarks { needle: Seq<char> },
    History { text: Seq<char> },
}

impl View for HistoryQuery {
    type V = HistoryQueryModel;

    open spec fn view(&self) -> HistoryQueryModel {
        match self {
            HistoryQuery::Bookmarks { needle } => HistoryQueryModel::Bookmarks { needle: needle@ },
            HistoryQuery::History { text } => HistoryQueryModel::History { text: text@ },
        }
    }
}

/// What a query asks for.
///
/// A query that begins with `@b` searches the favorites for what is left of
/// it when every `@b` is taken out, the white space around that is dropped
/// and the letters are put in lower case. A query that begins with `@h`
/// searches the history for what is left of it when every `@h` is taken out
/// and the white space around that is dropped. Every other query searches the
/// history as it stands.
pub open spec fn query_of(query: Seq<char>) -> HistoryQueryModel {
    if begins_with(query, "@b"@) {
        HistoryQueryModel::Bookmarks { needle: lowercase(trimmed(replaced(query, "@b"@, ""@))) }
    } else if begins_with(query, "@h"@) {
        HistoryQueryModel::History { text: trimmed(replaced(query, "@h"@, ""@)) }
    } else {
        HistoryQueryModel::History { text: query }
    }
}

/// Reads what a query asks for.
pub fn parse_history_query(query: &str) -> (parsed: HistoryQuery)
    ensures
        parsed@ == query_of(query@),
{
    let chars = chars_of(query);
    let nothing = chars_of("");
    let bookmarks = chars_of("@b");
    let history = chars_of("@h");
    if starts_with(&chars, &bookmarks) {
        let rest = string_of(&trim(&replace_all(&chars, &bookmarks, &nothing)));
        HistoryQuery::Bookmarks { needle: rest.as_str().to_lowercase() }
    } else if starts_with(&chars, &history) {
        HistoryQuery::History { text: string_of(&trim(&replace_all(&chars, &history, &nothing))) }
    } else {
        HistoryQuery::History { text: string_of(&chars) }
    }
}

/// The favorite answers to `needle`: its address or its title, in lower
/// case, holds it.
pub open spec fn answers(favorite: FavoriteItemModel, needle: Seq<char>) -> bool {
    holds(lowercase(favorite.url), needle) || holds(lowercase(favorite.title), needle)
}

/// The suggestion that a favorite makes at the time `now`.
pub open spec fn suggestion(favorite: FavoriteItemModel, now: i64) -> HistoryItemModel {
    HistoryItemModel {
        url: favorite.url,
        title: favorite.title,
        visit_count: FAVORITE_VISITS,
        last_visit: now,
    }
}

/// The suggestions of the favorites that answer to `needle`, in the order of
/// the favorites.
pub open spec fn bookmark_hits(favorites: Seq<FavoriteItemModel>, needle: Seq<char>, now: i64) -> Seq<
    HistoryItemModel,
>
    decreases favorites.len(),
{
    if favorites.len() == 0 {
        Seq::empty()
    } else {
        bookmark_hits(favorites.drop_last(), needle, now) + if answers(favorites.last(), needle) {
            seq![suggestion(favorites.last(), now)]
        } else {
            Seq::empty()
        }
    }
}

/// The favorites of a list, each as its model.
pub open spec fn favorites_model(favorites: Seq<FavoriteItem>) -> Seq<FavoriteItemModel> {
    favorites.map_values(|f: FavoriteItem| f@)
}

/// The suggestions of a list, each as its model.
pub open spec fn suggestions_model(items: Seq<HistoryItem>) -> Seq<HistoryItemModel> {
    items.map_values(|item: HistoryItem| item@)
}

/// Searches the favorites for `needle` at the time `now`.
pub fn search_bookmarks_at(favorites: &Vec<FavoriteItem>, needle: &str, now: i64) -> (hits: Vec<
    HistoryItem,
>)
    ensures
        suggestions_model(hits@) == bookmark_hits(favorites_model(favorites@), needle@, now),
{
    let wanted = chars_of(needle);
    let ghost model = favorites_model(favorites@);
    let mut hits: Vec<HistoryItem> = Vec::new();
    let mut i: usize = 0;
    proof {
        assert(model.take(0) =~= Seq::<FavoriteItemModel>::empty());
        assert(suggestions_model(hits@) =~= bookmark_hits(model.take(0), needle@, now));
    }
    while i < favorites.len()
        invariant
            i <= favorites.len(),
            wanted@ == needle@,
            model == favorites_model(favorites@),
            suggestions_model(hits@) == bookmark_hits(model.take(i as int), needle@, now),
        decreases favorites.len() - i,
    {
        let favorite = &favorites[i];
        let url = favorite.url.as_str().to_lowercase();
        let title = favorite.title.as_str().to_lowercase();
        let ghost before = suggestions_model(hits@);
        proof {
            assert(model.take(i + 1).drop_last() =~= model.take(i as int));
            assert(model.take(i + 1).last() == favorite@);
        }
        if holds_text(&chars_of(url.as_str()), &wanted) || holds_text(
            &chars_of(title.as_str()),
            &wanted,
        ) {
            hits.push(
                HistoryItem {
                    url: favorite.url.clone(),
                    title: favorite.title.clone(),
                    visit_count: FAVORITE_VISITS,
                    last_visit: now,
                },
            );
            assert(suggestions_model(hits@) =~= before + seq![suggestion(favorite@, now)]);
        } else {
            assert(suggestions_model(hits@) =~= before + Seq::<HistoryItemModel>::empty());
        }
        i += 1;
    }
    assert(model.take(favorites.len() as int) =~= model);
    hits
}

/// Searches the favorites for `needle`. The suggestions carry the time of
/// the clock.
pub fn search_bookmarks(favorites: &Vec<FavoriteItem>, needle: &str) -> (hits: Vec<HistoryItem>)
    ensures
        exists|now: i64|
            suggestions_model(hits@) == #[trigger] bookmark_hits(
                favorites_model(favorites@),
                needle@,
                now,
            ),
{
    let now = unix_now();
    search_bookmarks_at(favorites, needle, now)
}

} // verus!
