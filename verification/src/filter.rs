//! The rules that decide, before and after the filter engine is asked,
//! whether a request of a page is let through.
//!
//! The engine itself is the caller's. The rules around it are fixed lists of
//! names: requests to the application itself always pass, requests to a few
//! advertising networks never do, requests that come from a few trusted sites
//! pass, and what the engine lets through is still held against a list of
//! hosts.

use vstd::prelude::*;
use crate::text::begins_with;
use crate::text::chars_of;
use crate::text::contains;
use crate::text::includes;
use crate::text::starts_with;

verus! {

/// The names that block a request wherever it comes from.
pub open spec fn forced_blocks() -> Seq<Seq<char>> {
    seq![
        "admatic.com.tr"@,
        "doubleclick.net"@,
        "googlesyndication.com"@,
        "adnxs.com"@,
        "smartadserver.com"@,
        "criteo.com"@,
        "rubiconproject.com"@,
        "pubmatic.com"@,
    ]
}

/// The names of the sites whose requests pass.
pub open spec fn friendly_referers() -> Seq<Seq<char>> {
    seq![
        "gemini.google.com"@,
        "accounts.google.com"@,
        "google.com"@,
        "youtube.com"@,
        "transfermarkt"@,
    ]
}

/// The hosts that are blocked where the engine lets a request through.
pub open spec fn blocked_domains() -> Seq<Seq<char>> {
    seq![
        "doubleclick.net"@,
        "googleadservices.com"@,
        "googlesyndication.com"@,
        "adnxs.com"@,
        "rubiconproject.com"@,
        "taboola.com"@,
        "outbrain.com"@,
        "amazon-adsystem.com"@,
        "adservice.google.com"@,
        "moatads.com"@,
        "criteo.com"@,
        "pubmatic.com"@,
        "openx.net"@,
        "smartadserver.com"@,
    ]
}

/// One of `names` stands somewhere in `text`.
pub open spec fn contains_any(text: Seq<char>, names: Seq<Seq<char>>) -> bool {
    exists|k: int| 0 <= k < names.len() && contains(text, #[trigger] names[k])
}

/// The names of a list, each as its characters.
pub open spec fn names_model(names: Seq<Vec<char>>) -> Seq<Seq<char>> {
    names.map_values(|name: Vec<char>| name@)
}

fn includes_any(text: &Vec<char>, names: &Vec<Vec<char>>) -> (found: bool)
    ensures
        found == contains_any(text@, names_model(names@)),
{
    let ghost model = names_model(names@);
    let mut k: usize = 0;
    while k < names.len()
        invariant
            k <= names.len(),
            model == names_model(names@),
            forall|j: int| 0 <= j < k ==> !contains(text@, #[trigger] model[j]),
        decreases names.len() - k,
    {
        if includes(text, &names[k]) {
            assert(contains(text@, model[k as int]));
            return true;
        }
        k += 1;
    }
    false
}

fn forced_block_names() -> (names: Vec<Vec<char>>)
    ensures
        names_model(names@) == forced_blocks(),
{
    let mut names: Vec<Vec<char>> = Vec::new();
    names.push(chars_of("admatic.com.tr"));
    names.push(chars_of("doubleclick.net"));
    names.push(chars_of("googlesyndication.com"));
    names.push(chars_of("adnxs.com"));
    names.push(chars_of("smartadserver.com"));
    names.push(chars_of("criteo.com"));
    names.push(chars_of("rubiconproject.com"));
    names.push(chars_of("pubmatic.com"));
    assert(names_model(names@) =~= forced_blocks());
    names
}

fn friendly_referer_names() -> (names: Vec<Vec<char>>)
    ensures
        names_model(names@) == friendly_referers(),
{
    let mut names: Vec<Vec<char>> = Vec::new();
    names.push(chars_of("gemini.google.com"));
    names.push(chars_of("accounts.google.com"));
    names.push(chars_of("google.com"));
    names.push(chars_of("youtube.com"));
    names.push(chars_of("transfermarkt"));
    assert(names_model(names@) =~= friendly_referers());
    names
}

fn blocked_domain_names() -> (names: Vec<Vec<char>>)
    ensures
        names_model(names@) == blocked_domains(),
{
    let mut names: Vec<Vec<char>> = Vec::new();
    names.push(chars_of("doubleclick.net"));
    names.push(chars_of("googleadservices.com"));
    names.push(chars_of("googlesyndication.com"));
    names.push(chars_of("adnxs.com"));
    names.push(chars_of("rubiconproject.com"));
    names.push(chars_of("taboola.com"));
    names.push(chars_of("outbrain.com"));
    names.push(chars_of("amazon-adsystem.com"));
    names.push(chars_of("adservice.google.com"));
    names.push(chars_of("moatads.com"));
    names.push(chars_of("criteo.com"));
    names.push(chars_of("pubmatic.com"));
    names.push(chars_of("openx.net"));
    names.push(chars_of("smartadserver.com"));
    assert(names_model(names@) =~= blocked_domains());
    names
}

/// What the rules say before the engine is asked.
#[derive(Clone, Copy, Debug, PartialEq, Eq, Structural)]
pub enum Precheck {
    /// The request passes; the engine is not asked.
    Allow,
    /// The request is blocked; the engine is not asked, and nothing is
    /// counted.
    Block,
    /// The rules leave it open: ask the engine.
    AskEngine,
}

/// What the rules say of a request to `url` that comes from `referer`,
/// before the engine is asked.
pub open spec fn prechecked(url: Seq<char>, referer: Option<Seq<char>>) -> Precheck {
    if begins_with(url, "lumina:"@) || begins_with(url, "lumina-app:"@) {
        Precheck::Allow
    } else if contains_any(url, forced_blocks()) {
        Precheck::Block
    } else if referer is Some && contains_any(referer->0, friendly_referers()) {
        Precheck::Allow
    } else {
        Precheck::AskEngine
    }
}

/// Holds a request against the rules that come before the engine.
pub fn precheck(url: &str, referer: Option<&str>) -> (verdict: Precheck)
    ensures
        verdict == prechecked(
            url@,
            match referer {
                Some(r) => Some(r@),
                None => None,
            },
        ),
{
    let address = chars_of(url);
    if starts_with(&address, &chars_of("lumina:")) || starts_with(
        &address,
        &chars_of("lumina-app:"),
    ) {
        return Precheck::Allow;
    }
    if includes_any(&address, &forced_block_names()) {
        return Precheck::Block;
    }
    match referer {
        Some(r) => {
            if includes_any(&chars_of(r), &friendly_referer_names()) {
                return Precheck::Allow;
            }
        },
        None => {},
    }
    Precheck::AskEngine
}

/// Whether a request that the rules left open is blocked, given what the
/// engine found: blocked where the engine matched it, and else where its
/// address holds one of the blocked hosts. `matched` is nothing where no
/// engine is there to ask.
pub open spec fn blocked_after_engine(url: Seq<char>, matched: Option<bool>) -> bool {
    matched == Some(true) || contains_any(url, blocked_domains())
}

/// Decides about a request that the rules left open. A request that is
/// blocked here is one to count.
pub fn decide_after_engine(url: &str, matched: Option<bool>) -> (blocked: bool)
    ensures
        blocked == blocked_after_engine(url@, matched),
{
    match matched {
        Some(true) => {
            return true;
        },
        _ => {},
    }
    includes_any(&chars_of(url), &blocked_domain_names())
}

/// How many requests of one surface were blocked.
#[derive(Debug, PartialEq, Eq)]
pub struct AdblockStatsPayload {
    pub label: String,
    pub blocked_count: u32,
}

/// An [`AdblockStatsPayload`] over sequences of characters.
pub struct AdblockStatsModel {
    pub label: Seq<char>,
    pub blocked_count: u32,
}

impl View for AdblockStatsPayload {
    type V = AdblockStatsModel;

    open spec fn view(&self) -> AdblockStatsModel {
        AdblockStatsModel { label: self.label@, blocked_count: self.blocked_count }
    }
}

/// The counts of blocked requests, by surface.
#[derive(Debug)]
pub struct AdblockStats {
    counts: Vec<AdblockStatsPayload>,
}

/// `i` is the place of the surface `label` among the counts.
pub open spec fn is_count_place(counts: Seq<AdblockStatsModel>, label: Seq<char>, i: int) -> bool {
    0 <= i < counts.len() && counts[i].label == label
}

/// The count of the surface `label`: zero where it has none.
pub open spec fn count_for(counts: Seq<AdblockStatsModel>, label: Seq<char>) -> u32 {
    if exists|i: int| is_count_place(counts, label, i) {
        counts[choose|i: int| is_count_place(counts, label, i)].blocked_count
    } else {
        0
    }
}

/// No surface has two counts.
pub open spec fn counts_unique(counts: Seq<AdblockStatsModel>) -> bool {
    forall|i: int, j: int|
        0 <= i < counts.len() && 0 <= j < counts.len() && i != j ==> (#[trigger] counts[i]).label
            != (#[trigger] counts[j]).label
}

/// One more than `count`, and the largest count where there is no more.
pub open spec fn one_more(count: u32) -> u32 {
    if count < u32::MAX {
        (count + 1) as u32
    } else {
        count
    }
}

impl View for AdblockStats {
    type V = Seq<AdblockStatsModel>;

    closed spec fn view(&self) -> Seq<AdblockStatsModel> {
        self.counts@.map_values(|c: AdblockStatsPayload| c@)
    }
}

impl AdblockStats {
    /// No surface has two counts.
    pub open spec fn wf(&self) -> bool {
        counts_unique(self@)
    }

    /// Counts in which nothing is counted yet.
    pub fn new() -> (stats: Self)
        ensures
            stats.wf(),
            stats@ == Seq::<AdblockStatsModel>::empty(),
    {
        let stats = AdblockStats { counts: Vec::new() };
        assert(stats@ =~= Seq::<AdblockStatsModel>::empty());
        stats
    }

    /// Counts one more blocked request for the surface `label` and hands back
    /// what to tell the listeners. The counts of the other surfaces stay. A
    /// count that has reached the largest number stays there.
    pub fn record(&mut self, label: &str) -> (payload: AdblockStatsPayload)
        requires
            old(self).wf(),
        ensures
            final(self).wf(),
            payload@ == (AdblockStatsModel {
                label: label@,
                blocked_count: one_more(count_for(old(self)@, label@)),
            }),
            count_for(final(self)@, label@) == one_more(count_for(old(self)@, label@)),
            forall|other: Seq<char>|
                other != label@ ==> count_for(final(self)@, other) == count_for(old(self)@, other),
    {
        let key = label.to_owned();
        let ghost before = self@;
        let mut i: usize = 0;
        while i < self.counts.len()
            invariant
                i <= self.counts.len(),
                self@ == before,
                before == old(self)@,
                counts_unique(before),
                key@ == label@,
                forall|j: int| 0 <= j < i ==> (#[trigger] before[j]).label != label@,
            decreases self.counts.len() - i,
        {
            if self.counts[i].label == key {
                let count = self.counts[i].blocked_count;
                let next = if count < u32::MAX {
                    count + 1
                } else {
                    count
                };
                self.counts[i].blocked_count = next;
                proof {
                    let after = self@;
                    assert(after =~= before.update(
                        i as int,
                        AdblockStatsModel { label: label@, blocked_count: next },
                    ));
                    assert(is_count_place(before, label@, i as int));
                    lemma_count_place(before, label@, i as int);
                    assert(is_count_place(after, label@, i as int));
                    assert forall|a: int, b: int|
                        0 <= a < after.len() && 0 <= b < after.len() && a != b implies (
                    #[trigger] after[a]).label != (#[trigger] after[b]).label by {
                        assert(after[a].label == before[a].label);
                        assert(after[b].label == before[b].label);
                    }
                    lemma_count_place(after, label@, i as int);
                    assert forall|other: Seq<char>| other != label@ implies count_for(after, other)
                        == count_for(before, other) by {
                        if exists|k: int| is_count_place(before, other, k) {
                            let k = choose|k: int| is_count_place(before, other, k);
                            assert(is_count_place(after, other, k));
                            lemma_count_place(after, other, k);
                            lemma_count_place(before, other, k);
                        } else {
                            if exists|k: int| is_count_place(after, other, k) {
                                let k = choose|k: int| is_count_place(after, other, k);
                                assert(is_count_place(before, other, k));
                            }
                        }
                    }
                }
                return AdblockStatsPayload { label: key, blocked_count: next };
            }
            i += 1;
        }
        self.counts.push(AdblockStatsPayload { label: label.to_owned(), blocked_count: 1 });
        proof {
            let after = self@;
            let n = before.len() as int;
            assert(after =~= before.push(AdblockStatsModel { label: label@, blocked_count: 1 }));
            assert(!exists|k: int| is_count_place(before, label@, k));
            assert forall|a: int, b: int|
                0 <= a < after.len() && 0 <= b < after.len() && a != b implies (
            #[trigger] after[a]).label != (#[trigger] after[b]).label by {
                if a < n {
                    assert(after[a] == before[a]);
                }
                if b < n {
                    assert(after[b] == before[b]);
                }
            }
            assert(is_count_place(after, label@, n));
            lemma_count_place(after, label@, n);
            assert forall|other: Seq<char>| other != label@ implies count_for(after, other)
                == count_for(before, other) by {
                if exists|k: int| is_count_place(before, other, k) {
                    let k = choose|k: int| is_count_place(before, other, k);
                    assert(after[k] == before[k]);
                    assert(is_count_place(after, other, k));
                    lemma_count_place(after, other, k);
                    lemma_count_place(before, other, k);
                } else {
                    if exists|k: int| is_count_place(after, other, k) {
                        let k = choose|k: int| is_count_place(after, other, k);
                        assert(k < n);
                        assert(after[k] == before[k]);
                        assert(is_count_place(before, other, k));
                    }
                }
            }
        }
        AdblockStatsPayload { label: key, blocked_count: 1 }
    }

    /// The count of the surface `label`.
    pub fn blocked_count(&self, label: &str) -> (count: u32)
        requires
            self.wf(),
        ensures
            count == count_for(self@, label@),
    {
        let key = label.to_owned();
        let mut i: usize = 0;
        while i < self.counts.len()
            invariant
                i <= self.counts.len(),
                self.wf(),
                key@ == label@,
                forall|j: int| 0 <= j < i ==> (#[trigger] self@[j]).label != label@,
            decreases self.counts.len() - i,
        {
            if self.counts[i].label == key {
                proof {
                    assert(is_count_place(self@, label@, i as int));
                    lemma_count_place(self@, label@, i as int);
                }
                return self.counts[i].blocked_count;
            }
            i += 1;
        }
        assert(!exists|k: int| is_count_place(self@, label@, k));
        0
    }
}

/// Where no surface has two counts, the count of a surface is the one at its
/// place.
pub proof fn lemma_count_place(counts: Seq<AdblockStatsModel>, label: Seq<char>, i: int)
    requires
        counts_unique(counts),
        is_count_place(counts, label, i),
    ensures
        count_for(counts, label) == counts[i].blocked_count,
{
    let k = choose|k: int| is_count_place(counts, label, k);
    assert(is_count_place(counts, label, k));
    if k != i {
        assert(counts[k].label != counts[i].label);
    }
}

} // verus!
