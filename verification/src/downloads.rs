//! The list of downloads, by address.
//!
//! An address is listed at most once: a download that is started again
//! replaces its older entry in place. Reading and writing the list's file is
//! the caller's part; what was read goes into the list when it is opened.

use vstd::prelude::*;
use vstd::string::StringExecFns;
use crate::data::first_place;
use crate::data::is_first_place;
use crate::data::lemma_first_place_is;
use crate::data::lemma_first_place_none;
use crate::text::chars_of;
use crate::text::decimal;
use crate::text::decimal_of_u64;
use crate::text::last_segment;
use crate::text::last_segment_of;
use crate::text::string_of;

verus! {

/// The name of the file that holds the list, inside the application's
/// directory.
pub const DOWNLOADS_FILE_NAME: &'static str = "downloads.json";

/// One download.
#[derive(Debug, PartialEq, Eq)]
pub struct DownloadItem {
    pub url: String,
    pub file_name: String,
    pub total_size: u64,
    pub downloaded_size: u64,
    pub path: String,
    /// `downloading`, `paused`, `completed` or `failed`.
    pub status: String,
    pub added_at: i64,
}

/// A [`DownloadItem`] over sequences of characters.
pub struct DownloadItemModel {
    pub url: Seq<char>,
    pub file_name: Seq<char>,
    pub total_size: u64,
    pub downloaded_size: u64,
    pub path: Seq<char>,
    pub status: Seq<char>,
    pub added_at: i64,
}

impl View for DownloadItem {
    type V = DownloadItemModel;

    open spec fn view(&self) -> DownloadItemModel {
        DownloadItemModel {
            url: self.url@,
            file_name: self.file_name@,
            total_size: self.total_size,
            downloaded_size: self.downloaded_size,
            path: self.path@,
            status: self.status@,
            added_at: self.added_at,
        }
    }
}

impl Clone for DownloadItem {
    fn clone(&self) -> (copy: Self)
        ensures
            copy@ == self@,
    {
        DownloadItem {
            url: self.url.clone(),
            file_name: self.file_name.clone(),
            total_size: self.total_size,
            downloaded_size: self.downloaded_size,
            path: self.path.clone(),
            status: self.status.clone(),
            added_at: self.added_at,
        }
    }
}

impl DownloadItem {
    /// The entry of a download that starts at the time `added_at`, with
    /// `downloaded_size` bytes already on disk. Its whole size is not known
    /// yet and stands as zero.
    pub fn started(
        url: String,
        file_name: String,
        path: String,
        downloaded_size: u64,
        added_at: i64,
    ) -> (item: Self)
        ensures
            item@ == (DownloadItemModel {
                url: url@,
                file_name: file_name@,
                total_size: 0,
                downloaded_size,
                path: path@,
                status: "downloading"@,
                added_at,
            }),
    {
        DownloadItem {
            url,
            file_name,
            total_size: 0,
            downloaded_size,
            path,
            status: String::from_str("downloading"),
            added_at,
        }
    }
}

/// The addresses of a list, in order.
pub open spec fn download_urls(items: Seq<DownloadItemModel>) -> Seq<Seq<char>> {
    items.map_values(|item: DownloadItemModel| item.url)
}

/// No address is listed twice.
pub open spec fn urls_unique(items: Seq<DownloadItemModel>) -> bool {
    forall|i: int, j: int|
        0 <= i < items.len() && 0 <= j < items.len() && i != j ==> (#[trigger] items[i]).url != (
        #[trigger] items[j]).url
}

/// The entry of an address, if it is listed.
pub open spec fn entry_of(items: Seq<DownloadItemModel>, url: Seq<char>) -> Option<
    DownloadItemModel,
> {
    match first_place(download_urls(items), url) {
        Some(i) => Some(items[i]),
        None => None,
    }
}

/// The list after an entry was put in: it takes the place of the entry of the
/// same address, or goes to the end where the address is new.
pub open spec fn after_insert(items: Seq<DownloadItemModel>, item: DownloadItemModel) -> Seq<
    DownloadItemModel,
> {
    match first_place(download_urls(items), item.url) {
        Some(i) => items.update(i, item),
        None => items.push(item),
    }
}

/// The list after the status of an address was set; unchanged where the
/// address is not listed.
pub open spec fn after_status(
    items: Seq<DownloadItemModel>,
    url: Seq<char>,
    status: Seq<char>,
) -> Seq<DownloadItemModel> {
    match first_place(download_urls(items), url) {
        Some(i) => items.update(i, DownloadItemModel { status, ..items[i] }),
        None => items,
    }
}

/// The list after the progress of an address was set; unchanged where the
/// address is not listed.
pub open spec fn after_progress(
    items: Seq<DownloadItemModel>,
    url: Seq<char>,
    downloaded: u64,
    total: u64,
) -> Seq<DownloadItemModel> {
    match first_place(download_urls(items), url) {
        Some(i) => items.update(
            i,
            DownloadItemModel { downloaded_size: downloaded, total_size: total, ..items[i] },
        ),
        None => items,
    }
}

/// The list that comes of entering the given downloads one after the other,
/// each taking the place of an earlier one of the same address.
pub open spec fn entered(items: Seq<DownloadItemModel>) -> Seq<DownloadItemModel>
    decreases items.len(),
{
    if items.len() == 0 {
        Seq::empty()
    } else {
        after_insert(entered(items.drop_last()), items.last())
    }
}

/// The list after opening, given what the list's file held: the downloads of
/// the file, entered one after the other, or nothing where the file was
/// missing or held no list.
pub open spec fn opened(stored: Option<Seq<DownloadItemModel>>) -> Seq<DownloadItemModel> {
    match stored {
        Some(items) => entered(items),
        None => Seq::empty(),
    }
}

/// The downloads of a list, each as its model.
pub open spec fn items_model(items: Seq<DownloadItem>) -> Seq<DownloadItemModel> {
    items.map_values(|item: DownloadItem| item@)
}

/// What was read from the list's file, as its model.
pub open spec fn stored_model(stored: Option<Vec<DownloadItem>>) -> Option<Seq<DownloadItemModel>> {
    match stored {
        Some(items) => Some(items_model(items@)),
        None => None,
    }
}

/// Downloads of which no two share an address are all kept, in their order,
/// when they are entered one after the other.
pub proof fn lemma_entered_unique(items: Seq<DownloadItemModel>)
    requires
        urls_unique(items),
    ensures
        entered(items) == items,
    decreases items.len(),
{
    if items.len() > 0 {
        let front = items.drop_last();
        let n = front.len() as int;
        assert forall|i: int, j: int|
            0 <= i < front.len() && 0 <= j < front.len() && i != j implies (
        #[trigger] front[i]).url != (#[trigger] front[j]).url by {
            assert(front[i] == items[i] && front[j] == items[j]);
        }
        lemma_entered_unique(front);
        let urls = download_urls(front);
        assert forall|j: int| 0 <= j < urls.len() implies urls[j] != items.last().url by {
            assert(urls[j] == items[j].url);
            assert(items[n] == items.last());
        }
        lemma_first_place_none(urls, items.last().url);
        assert(front.push(items.last()) =~= items);
    }
}

/// Replacing an entry by one of the same address keeps the addresses unique.
pub proof fn lemma_update_keeps_unique(
    items: Seq<DownloadItemModel>,
    i: int,
    item: DownloadItemModel,
)
    requires
        urls_unique(items),
        0 <= i < items.len(),
        item.url == items[i].url,
    ensures
        urls_unique(items.update(i, item)),
{
    let changed = items.update(i, item);
    assert forall|a: int, b: int|
        0 <= a < changed.len() && 0 <= b < changed.len() && a != b implies (
    #[trigger] changed[a]).url != (#[trigger] changed[b]).url by {
        assert(changed[a].url == items[a].url);
        assert(changed[b].url == items[b].url);
    }
}

/// The list of downloads.
#[derive(Debug)]
pub struct DownloadManager {
    downloads: Vec<DownloadItem>,
    app_dir: String,
}

impl View for DownloadManager {
    type V = Seq<DownloadItemModel>;

    closed spec fn view(&self) -> Seq<DownloadItemModel> {
        self.downloads@.map_values(|item: DownloadItem| item@)
    }
}

impl DownloadManager {
    /// No address is listed twice.
    pub open spec fn wf(&self) -> bool {
        urls_unique(self@)
    }

    /// The directory that the list's file lies in.
    pub closed spec fn directory(&self) -> Seq<char> {
        self.app_dir@
    }

    /// The list of the directory `app_dir`, holding what was read from the
    /// list's file: its downloads, entered one after the other, or nothing
    /// where the file was missing or held no list.
    pub fn new(app_dir: String, stored: Option<Vec<DownloadItem>>) -> (manager: Self)
        ensures
            manager.wf(),
            manager@ == opened(stored_model(stored)),
            manager.directory() == app_dir@,
    {
        let mut manager = DownloadManager { downloads: Vec::new(), app_dir };
        assert(manager@ =~= Seq::<DownloadItemModel>::empty());
        match stored {
            Some(items) => {
                let ghost model = items_model(items@);
                let mut i: usize = 0;
                proof {
                    assert(model.take(0) =~= Seq::<DownloadItemModel>::empty());
                }
                while i < items.len()
                    invariant
                        i <= items.len(),
                        model == items_model(items@),
                        manager.wf(),
                        manager.directory() == app_dir@,
                        manager@ == entered(model.take(i as int)),
                    decreases items.len() - i,
                {
                    proof {
                        assert(model.take(i + 1).drop_last() =~= model.take(i as int));
                        assert(model.take(i + 1).last() == items@[i as int]@);
                    }
                    manager.insert(items[i].clone());
                    i += 1;
                }
                assert(model.take(items.len() as int) =~= model);
            },
            None => {},
        }
        manager
    }

    /// The directory that the list's file lies in.
    pub fn app_dir(&self) -> (dir: &String)
        ensures
            dir@ == self.directory(),
    {
        &self.app_dir
    }

    fn position(&self, url: &String) -> (place: Option<usize>)
        ensures
            match place {
                Some(i) => first_place(download_urls(self@), url@) == Some(i as int) && i
                    < self@.len(),
                None => first_place(download_urls(self@), url@) is None,
            },
    {
        let ghost urls = download_urls(self@);
        let mut i: usize = 0;
        while i < self.downloads.len()
            invariant
                i <= self.downloads.len(),
                urls == download_urls(self@),
                forall|j: int| 0 <= j < i ==> urls[j] != url@,
            decreases self.downloads.len() - i,
        {
            if self.downloads[i].url == *url {
                proof {
                    assert(urls[i as int] == url@);
                    lemma_first_place_is(urls, url@, i as int);
                }
                return Some(i);
            }
            i += 1;
        }
        proof {
            lemma_first_place_none(urls, url@);
        }
        None
    }

    /// Lists a download. An entry of the same address is replaced.
    pub fn insert(&mut self, item: DownloadItem)
        requires
            old(self).wf(),
        ensures
            final(self).wf(),
            final(self)@ == after_insert(old(self)@, item@),
            final(self).directory() == old(self).directory(),
            entry_of(final(self)@, item@.url) == Some(item@),
    {
        let ghost before = self@;
        let ghost urls = download_urls(before);
        match self.position(&item.url) {
            Some(i) => {
                proof {
                    lemma_update_keeps_unique(before, i as int, item@);
                    assert(is_first_place(urls, item@.url, i as int));
                }
                self.downloads[i] = item;
                proof {
                    assert(self@ =~= before.update(i as int, item@));
                    assert(download_urls(self@) =~= urls);
                }
            },
            None => {
                self.downloads.push(item);
                proof {
                    let n = before.len() as int;
                    assert(self@ =~= before.push(item@));
                    assert forall|a: int, b: int|
                        0 <= a < self@.len() && 0 <= b < self@.len() && a != b implies (
                    #[trigger] self@[a]).url != (#[trigger] self@[b]).url by {
                        if a < n {
                            assert(self@[a] == before[a]);
                            assert(urls[a] == before[a].url);
                        }
                        if b < n {
                            assert(self@[b] == before[b]);
                            assert(urls[b] == before[b].url);
                        }
                        if a < n && !(b < n) && self@[a].url == item@.url {
                            crate::data::lemma_some_place_has_first(urls, item@.url, a);
                        }
                        if b < n && !(a < n) && self@[b].url == item@.url {
                            crate::data::lemma_some_place_has_first(urls, item@.url, b);
                        }
                    }
                    let grown = download_urls(self@);
                    assert(grown[n] == item@.url);
                    assert forall|j: int| 0 <= j < n implies grown[j] != item@.url by {
                        assert(grown[j] == urls[j]);
                        if urls[j] == item@.url {
                            crate::data::lemma_some_place_has_first(urls, item@.url, j);
                        }
                    }
                    lemma_first_place_is(grown, item@.url, n);
                }
            },
        }
    }

    /// The entry of an address, if it is listed.
    pub fn get(&self, url: &str) -> (found: Option<DownloadItem>)
        ensures
            match found {
                Some(item) => entry_of(self@, url@) == Some(item@),
                None => entry_of(self@, url@) is None,
            },
    {
        let key = url.to_owned();
        match self.position(&key) {
            Some(i) => Some(self.downloads[i].clone()),
            None => None,
        }
    }

    /// Sets the status of an address; an address that is not listed changes
    /// nothing.
    pub fn update_status(&mut self, url: &str, status: &str)
        requires
            old(self).wf(),
        ensures
            final(self).wf(),
            final(self)@ == after_status(old(self)@, url@, status@),
            final(self).directory() == old(self).directory(),
    {
        let key = url.to_owned();
        let ghost before = self@;
        match self.position(&key) {
            Some(i) => {
                self.downloads[i].status = status.to_owned();
                proof {
                    let item = DownloadItemModel { status: status@, ..before[i as int] };
                    assert(self@ =~= before.update(i as int, item));
                    lemma_update_keeps_unique(before, i as int, item);
                }
            },
            None => {},
        }
    }

    /// Sets how much of an address is there and how much there is in all; an
    /// address that is not listed changes nothing.
    pub fn update_progress(&mut self, url: &str, downloaded: u64, total: u64)
        requires
            old(self).wf(),
        ensures
            final(self).wf(),
            final(self)@ == after_progress(old(self)@, url@, downloaded, total),
            final(self).directory() == old(self).directory(),
    {
        let key = url.to_owned();
        let ghost before = self@;
        match self.position(&key) {
            Some(i) => {
                self.downloads[i].downloaded_size = downloaded;
                self.downloads[i].total_size = total;
                proof {
                    let item = DownloadItemModel {
                        downloaded_size: downloaded,
                        total_size: total,
                        ..before[i as int]
                    };
                    assert(self@ =~= before.update(i as int, item));
                    lemma_update_keeps_unique(before, i as int, item);
                }
            },
            None => {},
        }
    }

    /// A copy of every entry, in the order in which the addresses were first
    /// listed.
    pub fn get_downloads(&self) -> (items: Vec<DownloadItem>)
        ensures
            items@.map_values(|item: DownloadItem| item@) == self@,
    {
        let mut items: Vec<DownloadItem> = Vec::new();
        let mut i: usize = 0;
        while i < self.downloads.len()
            invariant
                i <= self.downloads.len(),
                items@.map_values(|item: DownloadItem| item@) == self@.take(i as int),
            decreases self.downloads.len() - i,
        {
            let ghost before = items@.map_values(|item: DownloadItem| item@);
            items.push(self.downloads[i].clone());
            assert(items@.map_values(|item: DownloadItem| item@) =~= before.push(self@[i as int]));
            assert(self@.take(i as int).push(self@[i as int]) =~= self@.take(i + 1));
            i += 1;
        }
        assert(self@.take(self.downloads.len() as int) =~= self@);
        items
    }
}

/// The status with which a server answers a request for the rest of a file.
pub const PARTIAL_CONTENT: u16 = 206;

/// The seconds after which the list is written to disk again while a
/// download runs.
pub const SAVE_INTERVAL_SECS: u64 = 5;

/// The name to store a download under: what follows the last slash of its
/// address, or `downloaded_file` where nothing follows it.
pub open spec fn file_name_of(url: Seq<char>) -> Seq<char> {
    if last_segment(url).len() == 0 {
        "downloaded_file"@
    } else {
        last_segment(url)
    }
}

/// Picks the name to store a download under.
pub fn download_file_name(url: &str) -> (name: String)
    ensures
        name@ == file_name_of(url@),
{
    let segment = last_segment_of(&chars_of(url));
    if segment.len() == 0 {
        String::from_str("downloaded_file")
    } else {
        string_of(&segment)
    }
}

/// The header that asks a server for the rest of a file of which `on_disk`
/// bytes are there: none where nothing is there yet.
pub open spec fn range_of(on_disk: u64) -> Option<Seq<char>> {
    if on_disk > 0 {
        Some("bytes="@ + decimal(on_disk as int) + "-"@)
    } else {
        None
    }
}

/// Builds the value of the `Range` header for a download that goes on.
pub fn range_header(on_disk: u64) -> (value: Option<String>)
    ensures
        crate::text::optional_text(value) == range_of(on_disk),
{
    if on_disk > 0 {
        let mut value = String::from_str("bytes=");
        let digits = decimal_of_u64(on_disk);
        value.append(digits.as_str());
        value.append("-");
        Some(value)
    } else {
        None
    }
}

/// The sum of two sizes, and the largest size where the sum is beyond it.
pub open spec fn capped_sum(a: u64, b: u64) -> u64 {
    if a + b > u64::MAX {
        u64::MAX
    } else {
        (a + b) as u64
    }
}

/// How a transfer goes on once the server has answered.
#[derive(Clone, Copy, Debug, PartialEq, Eq, Structural)]
pub struct TransferPlan {
    /// Whether the bytes that come are written after those on disk; if not,
    /// the file starts anew.
    pub append: bool,
    /// The bytes that count as there when the transfer starts.
    pub downloaded: u64,
    /// The size of the whole file, as far as the server tells.
    pub total_size: u64,
}

/// The plan for a transfer of which `on_disk` bytes are there, after the
/// server answered with `status` and announced `content_length` bytes.
///
/// Only the status [`PARTIAL_CONTENT`] lets the transfer go on where it was.
/// The whole size is what the server announces on top of what is on disk.
pub open spec fn plan_of(status: u16, content_length: Option<u64>, on_disk: u64) -> TransferPlan {
    TransferPlan {
        append: status == PARTIAL_CONTENT,
        downloaded: if status == PARTIAL_CONTENT {
            on_disk
        } else {
            0
        },
        total_size: capped_sum(
            match content_length {
                Some(n) => n,
                None => 0,
            },
            on_disk,
        ),
    }
}

/// Plans a transfer from the server's answer.
pub fn plan_transfer(status: u16, content_length: Option<u64>, on_disk: u64) -> (plan:
    TransferPlan)
    ensures
        plan == plan_of(status, content_length, on_disk),
{
    let announced: u64 = match content_length {
        Some(n) => n,
        None => 0,
    };
    let total_size: u64 = if announced > u64::MAX - on_disk {
        u64::MAX
    } else {
        announced + on_disk
    };
    let append = status == PARTIAL_CONTENT;
    TransferPlan {
        append,
        downloaded: if append {
            on_disk
        } else {
            0
        },
        total_size,
    }
}

/// Adds the bytes of one chunk to what is there.
pub fn advance(downloaded: u64, chunk_len: u64) -> (sum: u64)
    ensures
        sum == capped_sum(downloaded, chunk_len),
{
    if chunk_len > u64::MAX - downloaded {
        u64::MAX
    } else {
        downloaded + chunk_len
    }
}

/// Tells whether the list is due to be written to disk, `elapsed_secs` after
/// it was last written.
pub fn save_is_due(elapsed_secs: u64) -> (due: bool)
    ensures
        due == (elapsed_secs > SAVE_INTERVAL_SECS),
{
    elapsed_secs > SAVE_INTERVAL_SECS
}

} // verus!
