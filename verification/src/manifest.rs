//! The manifest of a site that can be installed: whether it asks for a window
//! of its own, and which of its icons to take.
//!
//! Each icon of a manifest may name the sizes it comes in, as words like
//! `192x192` with white space between them. The icon with the largest area
//! is taken, the first of them where several have it; where no icon names a
//! size with an area above zero, the first icon is taken.

use vstd::prelude::*;
use crate::codec::base64_decoded;
use crate::codec::decode_base64;
use crate::codec::join_url;
use crate::codec::joined_url;
use crate::codec::parse_i32;
use crate::codec::parsed_i32;
use crate::text::chars_of;
use crate::text::find;
use crate::text::first_occurrence;
use crate::text::is_whitespace_char;
use crate::text::optional_text;
use crate::text::slice;
use crate::text::string_of;

verus! {

/// One icon of a manifest.
#[derive(Debug, PartialEq, Eq)]
pub struct ManifestIcon {
    /// Where the icon lies, as the manifest writes it.
    pub src: String,
    /// The sizes that the icon comes in, if the manifest names any.
    pub sizes: Option<String>,
}

/// A [`ManifestIcon`] over sequences of characters.
pub struct ManifestIconModel {
    pub src: Seq<char>,
    pub sizes: Option<Seq<char>>,
}

impl View for ManifestIcon {
    type V = ManifestIconModel;

    open spec fn view(&self) -> ManifestIconModel {
        ManifestIconModel { src: self.src@, sizes: optional_text(self.sizes) }
    }
}

/// The display mode asks for a window of the site's own.
pub open spec fn is_installable(display: Seq<char>) -> bool {
    display == "standalone"@ || display == "minimal-ui"@ || display == "fullscreen"@
}

/// Tells whether a display mode asks for a window of the site's own.
pub fn is_installable_display(display: &str) -> (installable: bool)
    ensures
        installable == is_installable(display@),
{
    let own = display.to_owned();
    own == "standalone".to_owned() || own == "minimal-ui".to_owned() || own
        == "fullscreen".to_owned()
}

/// Where the run of white space that begins at `at` ends.
pub open spec fn space_end(s: Seq<char>, at: int) -> int
    decreases s.len() - at,
{
    if 0 <= at < s.len() && is_whitespace_char(s[at]) {
        space_end(s, at + 1)
    } else {
        at
    }
}

/// Where the word that begins at `at` ends.
pub open spec fn word_end(s: Seq<char>, at: int) -> int
    decreases s.len() - at,
{
    if 0 <= at < s.len() && !is_whitespace_char(s[at]) {
        word_end(s, at + 1)
    } else {
        at
    }
}

/// A run of white space ends at or after its beginning and inside the text,
/// and no white space stands where it ends.
pub proof fn lemma_space_end_bounds(s: Seq<char>, at: int)
    ensures
        at <= space_end(s, at),
        at <= s.len() ==> space_end(s, at) <= s.len(),
        0 <= space_end(s, at) < s.len() ==> !is_whitespace_char(s[space_end(s, at)]),
    decreases s.len() - at,
{
    if 0 <= at < s.len() && is_whitespace_char(s[at]) {
        lemma_space_end_bounds(s, at + 1);
    }
}

/// A word ends at or after its beginning, and inside the text; it ends after
/// its beginning where no white space stands there.
pub proof fn lemma_word_end_bounds(s: Seq<char>, at: int)
    ensures
        at <= word_end(s, at),
        at <= s.len() ==> word_end(s, at) <= s.len(),
        0 <= at < s.len() && !is_whitespace_char(s[at]) ==> at < word_end(s, at),
    decreases s.len() - at,
{
    if 0 <= at < s.len() && !is_whitespace_char(s[at]) {
        lemma_word_end_bounds(s, at + 1);
    }
}

/// The words of `s` from `at` on, white space between them.
pub open spec fn words_from(s: Seq<char>, at: int) -> Seq<Seq<char>>
    decreases s.len() - at,
{
    let begin = space_end(s, at);
    if 0 <= begin < s.len() {
        proof {
            lemma_space_end_bounds(s, at);
            lemma_word_end_bounds(s, begin);
        }
        seq![s.subrange(begin, word_end(s, begin))] + words_from(s, word_end(s, begin))
    } else {
        Seq::empty()
    }
}

/// The area that a word of sizes names: the product of the two numbers
/// around its first `x`. The word `any` names none, and neither does a word
/// that is not two numbers around an `x`.
pub open spec fn area_of(word: Seq<char>) -> Option<int> {
    if word == "any"@ {
        None
    } else {
        match first_occurrence(word, "x"@) {
            Some(i) => match (
                parsed_i32(word.take(i)),
                parsed_i32(word.skip(i + "x"@.len())),
            ) {
                (Some(w), Some(h)) => Some(w * h),
                _ => None,
            },
            None => None,
        }
    }
}

/// The icon that is taken so far, and the largest area that was seen.
pub struct Pick {
    pub best: Option<Seq<char>>,
    pub max_area: int,
}

/// The pick after the words of one icon's sizes: a word whose area is above
/// the largest so far makes this icon the pick.
pub open spec fn picked_by_sizes(words: Seq<Seq<char>>, src: Seq<char>, start: Pick) -> Pick
    decreases words.len(),
{
    if words.len() == 0 {
        start
    } else {
        let before = picked_by_sizes(words.drop_last(), src, start);
        match area_of(words.last()) {
            Some(area) => if area > before.max_area {
                Pick { best: Some(src), max_area: area }
            } else {
                before
            },
            None => before,
        }
    }
}

/// The pick after all icons of a list: each icon's sizes are gone through in
/// turn, and an icon that finds nothing picked yet is picked itself.
pub open spec fn picked(icons: Seq<ManifestIconModel>) -> Pick
    decreases icons.len(),
{
    if icons.len() == 0 {
        Pick { best: None, max_area: 0 }
    } else {
        let before = picked(icons.drop_last());
        let icon = icons.last();
        let sized = match icon.sizes {
            Some(sizes) => picked_by_sizes(words_from(sizes, 0), icon.src, before),
            None => before,
        };
        if sized.best is None {
            Pick { best: Some(icon.src), max_area: sized.max_area }
        } else {
            sized
        }
    }
}

/// The icons of a list, each as its model.
pub open spec fn icons_model(icons: Seq<ManifestIcon>) -> Seq<ManifestIconModel> {
    icons.map_values(|icon: ManifestIcon| icon@)
}

/// Some icon is picked from every list that has one, and the largest area
/// never falls below zero.
pub proof fn lemma_picked_of_non_empty(icons: Seq<ManifestIconModel>)
    ensures
        icons.len() > 0 ==> picked(icons).best is Some,
        picked(icons).max_area >= 0,
    decreases icons.len(),
{
    if icons.len() > 0 {
        lemma_picked_of_non_empty(icons.drop_last());
        let before = picked(icons.drop_last());
        match icons.last().sizes {
            Some(sizes) => {
                lemma_sizes_keep_area(words_from(sizes, 0), icons.last().src, before);
            },
            None => {},
        }
    }
}

/// Going through sizes never lowers the largest area.
pub proof fn lemma_sizes_keep_area(words: Seq<Seq<char>>, src: Seq<char>, start: Pick)
    ensures
        picked_by_sizes(words, src, start).max_area >= start.max_area,
    decreases words.len(),
{
    if words.len() > 0 {
        lemma_sizes_keep_area(words.drop_last(), src, start);
    }
}

fn split_words(s: &Vec<char>) -> (words: Vec<Vec<char>>)
    ensures
        words@.map_values(|w: Vec<char>| w@) == words_from(s@, 0),
{
    let mut words: Vec<Vec<char>> = Vec::new();
    let mut at: usize = 0;
    let mut more = true;
    proof {
        assert(words@.map_values(|w: Vec<char>| w@) + words_from(s@, 0) =~= words_from(s@, 0));
    }
    while more
        invariant
            at <= s.len(),
            words@.map_values(|w: Vec<char>| w@) + words_from(s@, at as int) == words_from(s@, 0),
            !more ==> words_from(s@, at as int) == Seq::<Seq<char>>::empty(),
        decreases
                s.len() - at,
                if more {
                    1int
                } else {
                    0int
                },
    {
        let mut begin: usize = at;
        while begin < s.len() && s[begin].is_whitespace()
            invariant
                at <= begin <= s.len(),
                space_end(s@, begin as int) == space_end(s@, at as int),
            decreases s.len() - begin,
        {
            begin += 1;
        }
        if begin >= s.len() {
            more = false;
        } else {
            let mut end: usize = begin;
            while end < s.len() && !s[end].is_whitespace()
                invariant
                    begin <= end <= s.len(),
                    word_end(s@, end as int) == word_end(s@, begin as int),
                decreases s.len() - end,
            {
                end += 1;
            }
            proof {
                lemma_word_end_bounds(s@, begin as int);
            }
            let ghost before = words@.map_values(|w: Vec<char>| w@);
            let word = slice(s, begin, end);
            words.push(word);
            proof {
                let rest = words_from(s@, end as int);
                assert(words_from(s@, at as int) == seq![s@.subrange(begin as int, end as int)]
                    + rest);
                assert(words@.map_values(|w: Vec<char>| w@) =~= before.push(
                    s@.subrange(begin as int, end as int),
                ));
                assert(words@.map_values(|w: Vec<char>| w@) + rest =~= before + (seq![
                    s@.subrange(begin as int, end as int),
                ] + rest));
            }
            at = end;
        }
    }
    proof {
        assert(words@.map_values(|w: Vec<char>| w@) + Seq::<Seq<char>>::empty()
            =~= words@.map_values(|w: Vec<char>| w@));
    }
    words
}

fn word_area(word: &Vec<char>) -> (area: Option<i64>)
    ensures
        match area {
            Some(a) => area_of(word@) == Some(a as int),
            None => area_of(word@) is None,
        },
{
    let text = string_of(word);
    if text == "any".to_owned() {
        return None;
    }
    let cross = chars_of("x");
    match find(word, &cross) {
        Some(i) => {
            let end: usize = word.len();
            let width: usize = cross.len();
            assert(i + width <= end);
            let left = slice(word, 0, i);
            let right = slice(word, i + width, end);
            proof {
                assert(left@ =~= word@.take(i as int));
                assert(right@ =~= word@.skip(i + "x"@.len()));
            }
            let w = parse_i32(string_of(&left).as_str());
            let h = parse_i32(string_of(&right).as_str());
            match (w, h) {
                (Some(w), Some(h)) => {
                    assert(-0x8000_0000 <= w < 0x8000_0000 && -0x8000_0000 <= h < 0x8000_0000);
                    assert(-0x4000_0000_0000_0000 <= w * h <= 0x4000_0000_0000_0000)
                        by (nonlinear_arith)
                        requires
                            -0x8000_0000 <= w < 0x8000_0000,
                            -0x8000_0000 <= h < 0x8000_0000,
                    ;
                    Some((w as i64) * (h as i64))
                },
                _ => None,
            }
        },
        None => None,
    }
}

/// Picks the icon of a manifest: where it lies, as the manifest writes it.
/// Nothing is picked from a manifest without icons.
pub fn best_icon(icons: &Vec<ManifestIcon>) -> (best: Option<String>)
    ensures
        optional_text(best) == picked(icons_model(icons@)).best,
        best is Some <==> icons@.len() > 0,
{
    let ghost model = icons_model(icons@);
    let mut best: Option<String> = None;
    let mut max_area: i64 = 0;
    let mut i: usize = 0;
    proof {
        assert(model.take(0) =~= Seq::<ManifestIconModel>::empty());
    }
    while i < icons.len()
        invariant
            i <= icons.len(),
            model == icons_model(icons@),
            picked(model.take(i as int)) == (Pick {
                best: optional_text(best),
                max_area: max_area as int,
            }),
        decreases icons.len() - i,
    {
        let icon = &icons[i];
        let ghost before = picked(model.take(i as int));
        proof {
            assert(model.take(i + 1).drop_last() =~= model.take(i as int));
            assert(model.take(i + 1).last() == icon@);
        }
        match &icon.sizes {
            Some(sizes) => {
                let words = split_words(&chars_of(sizes.as_str()));
                let ghost word_models = words@.map_values(|w: Vec<char>| w@);
                let mut k: usize = 0;
                proof {
                    assert(word_models.take(0) =~= Seq::<Seq<char>>::empty());
                }
                while k < words.len()
                    invariant
                        k <= words.len(),
                        word_models == words@.map_values(|w: Vec<char>| w@),
                        picked_by_sizes(word_models.take(k as int), icon@.src, before) == (Pick {
                            best: optional_text(best),
                            max_area: max_area as int,
                        }),
                    decreases words.len() - k,
                {
                    proof {
                        assert(word_models.take(k + 1).drop_last() =~= word_models.take(k as int));
                        assert(word_models.take(k + 1).last() == words@[k as int]@);
                    }
                    match word_area(&words[k]) {
                        Some(area) => {
                            if area > max_area {
                                max_area = area;
                                best = Some(icon.src.clone());
                            }
                        },
                        None => {},
                    }
                    k += 1;
                }
                proof {
                    assert(word_models.take(words.len() as int) =~= word_models);
                }
            },
            None => {},
        }
        if best.is_none() {
            best = Some(icon.src.clone());
        }
        i += 1;
    }
    proof {
        assert(model.take(icons.len() as int) =~= model);
        lemma_picked_of_non_empty(model);
    }
    best
}

/// The address of a picked icon: the icon's place read against the address
/// of the manifest, or the place as it is written where the two do not join.
pub open spec fn resolved_icon(manifest_url: Seq<char>, src: Seq<char>, joined: Option<Seq<char>>) -> Seq<
    char,
> {
    match joined {
        Some(address) => address,
        None => src,
    }
}

/// Gives the address of a picked icon, given what joining it with the
/// manifest's address came to.
pub fn icon_address(manifest_url: &str, src: String, joined: Option<String>) -> (address: String)
    ensures
        address@ == resolved_icon(manifest_url@, src@, optional_text(joined)),
{
    match joined {
        Some(address) => address,
        None => src,
    }
}

/// Picks the icon of a manifest and gives its address, read against the
/// address of the manifest.
pub fn best_icon_url(manifest_url: &str, icons: &Vec<ManifestIcon>) -> (address: Option<String>)
    ensures
        match picked(icons_model(icons@)).best {
            Some(src) => address is Some && address->0@ == resolved_icon(
                manifest_url@,
                src,
                joined_url(manifest_url@, src),
            ),
            None => address is None,
        },
{
    match best_icon(icons) {
        Some(src) => {
            let joined = join_url(manifest_url, src.as_str());
            Some(icon_address(manifest_url, src, joined))
        },
        None => None,
    }
}

/// Where the icon of a site comes from when the site is opened in a window
/// of its own.
#[derive(Debug, PartialEq, Eq)]
pub enum IconSource {
    /// The page sent the icon along: these are its bytes.
    Bytes { bytes: Vec<u8> },
    /// The icon is to be fetched from this address.
    Download { url: String },
    /// The window gets no icon.
    Missing,
}

/// An [`IconSource`] over sequences.
pub enum IconSourceModel {
    Bytes { bytes: Seq<u8> },
    Download { url: Seq<char> },
    Missing,
}

impl View for IconSource {
    type V = IconSourceModel;

    open spec fn view(&self) -> IconSourceModel {
        match self {
            IconSource::Bytes { bytes } => IconSourceModel::Bytes { bytes: bytes@ },
            IconSource::Download { url } => IconSourceModel::Download { url: url@ },
            IconSource::Missing => IconSourceModel::Missing,
        }
    }
}

/// Where the icon comes from, given what decoding the data that the page
/// sent came to: data that was sent decides, also where it does not decode;
/// the address of the icon counts where no data was sent.
pub open spec fn icon_source_of(
    sent: bool,
    decoded: Option<Seq<u8>>,
    favicon_url: Option<Seq<char>>,
) -> IconSourceModel {
    if sent {
        match decoded {
            Some(bytes) => IconSourceModel::Bytes { bytes },
            None => IconSourceModel::Missing,
        }
    } else {
        match favicon_url {
            Some(url) => IconSourceModel::Download { url },
            None => IconSourceModel::Missing,
        }
    }
}

/// Decides where the icon comes from, given what decoding the data that the
/// page sent came to.
pub fn choose_icon_source(sent: bool, decoded: Option<Vec<u8>>, favicon_url: Option<String>) -> (source:
    IconSource)
    ensures
        source@ == icon_source_of(
            sent,
            match decoded {
                Some(bytes) => Some(bytes@),
                None => None,
            },
            optional_text(favicon_url),
        ),
{
    if sent {
        match decoded {
            Some(bytes) => IconSource::Bytes { bytes },
            None => IconSource::Missing,
        }
    } else {
        match favicon_url {
            Some(url) => IconSource::Download { url },
            None => IconSource::Missing,
        }
    }
}

/// Decides where the icon of a site comes from: from the data that the page
/// sent, in base64, or else from the address of the icon.
pub fn icon_source(icon_data: Option<String>, favicon_url: Option<String>) -> (source: IconSource)
    ensures
        source@ == icon_source_of(
            icon_data is Some,
            match icon_data {
                Some(data) => base64_decoded(data@),
                None => None,
            },
            optional_text(favicon_url),
        ),
{
    match icon_data {
        Some(data) => {
            let decoded = decode_base64(data.as_str());
            choose_icon_source(true, decoded, favicon_url)
        },
        None => choose_icon_source(false, None, favicon_url),
    }
}

} // verus!
