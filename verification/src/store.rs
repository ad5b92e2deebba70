//! The catalogue of modules that can be installed, and the notices that tell
//! the user how an installation went.

use vstd::prelude::*;
use vstd::string::StringExecFns;

verus! {

/// One module of the catalogue.
#[derive(Debug, PartialEq, Eq)]
pub struct StoreItem {
    pub id: String,
    pub title: String,
    pub author: String,
    pub description: String,
    pub icon: String,
    pub version: String,
    pub tags: Vec<String>,
    pub verified: bool,
    pub installed: bool,
    pub coming_soon: bool,
}

/// A [`StoreItem`] over sequences of characters.
pub struct StoreItemModel {
    pub id: Seq<char>,
    pub title: Seq<char>,
    pub author: Seq<char>,
    pub description: Seq<char>,
    pub icon: Seq<char>,
    pub version: Seq<char>,
    pub tags: Seq<Seq<char>>,
    pub verified: bool,
    pub installed: bool,
    pub coming_soon: bool,
}

impl View for StoreItem {
    type V = StoreItemModel;

    open spec fn view(&self) -> StoreItemModel {
        StoreItemModel {
            id: self.id@,
            title: self.title@,
            author: self.author@,
            description: self.description@,
            icon: self.icon@,
            version: self.version@,
            tags: self.tags@.map_values(|tag: String| tag@),
            verified: self.verified,
            installed: self.installed,
            coming_soon: self.coming_soon,
        }
    }
}

/// A notice for the user.
#[derive(Debug, PartialEq, Eq)]
pub struct ToastPayload {
    pub message: String,
    /// `success` or `error`.
    pub level: String,
}

/// A [`ToastPayload`] over sequences of characters.
pub struct ToastPayloadModel {
    pub message: Seq<char>,
    pub level: Seq<char>,
}

impl View for ToastPayload {
    type V = ToastPayloadModel;

    open spec fn view(&self) -> ToastPayloadModel {
        ToastPayloadModel { message: self.message@, level: self.level@ }
    }
}

/// The modules of a catalogue, each as its model.
pub open spec fn catalogue_model(items: Seq<StoreItem>) -> Seq<StoreItemModel> {
    items.map_values(|item: StoreItem| item@)
}

/// `i` is the first place of the catalogue whose module has the id `id`.
pub open spec fn is_first_with_id(items: Seq<StoreItemModel>, id: Seq<char>, i: int) -> bool {
    &&& 0 <= i < items.len()
    &&& items[i].id == id
    &&& forall|j: int| 0 <= j < i ==> items[j].id != id
}

/// The catalogue holds a module with the id `id`.
pub open spec fn has_id(items: Seq<StoreItemModel>, id: Seq<char>) -> bool {
    exists|i: int| 0 <= i < items.len() && items[i].id == id
}

/// Marks the first module with the id `id` as installed and tells whether
/// there is one. The other modules, and a catalogue without that id, stay as
/// they are.
pub fn mark_installed(items: &mut Vec<StoreItem>, id: &str) -> (found: bool)
    ensures
        found == has_id(catalogue_model(old(items)@), id@),
        final(items)@.len() == old(items)@.len(),
        forall|i: int|
            0 <= i < old(items)@.len() ==> #[trigger] catalogue_model(final(items)@)[i] == if is_first_with_id(
                catalogue_model(old(items)@),
                id@,
                i,
            ) {
                StoreItemModel { installed: true, ..catalogue_model(old(items)@)[i] }
            } else {
                catalogue_model(old(items)@)[i]
            },
{
    let key = id.to_owned();
    let ghost before = catalogue_model(items@);
    let mut i: usize = 0;
    while i < items.len()
        invariant
            i <= items.len(),
            key@ == id@,
            items@ == old(items)@,
            before == catalogue_model(old(items)@),
            forall|j: int| 0 <= j < i ==> before[j].id != id@,
        decreases items.len() - i,
    {
        if items[i].id == key {
            assert(before[i as int].id == id@);
            items[i].installed = true;
            assert(is_first_with_id(before, id@, i as int));
            assert forall|k: int| 0 <= k < before.len() implies #[trigger] catalogue_model(
                items@,
            )[k] == if is_first_with_id(before, id@, k) {
                StoreItemModel { installed: true, ..before[k] }
            } else {
                before[k]
            } by {
                if k != i {
                    assert(items@[k] == old(items)@[k]);
                    if is_first_with_id(before, id@, k) && k > i {
                        assert(before[i as int].id == id@);
                    }
                }
            }
            return true;
        }
        i += 1;
    }
    assert forall|k: int| 0 <= k < before.len() implies !is_first_with_id(before, id@, k) by {}
    false
}

/// The words of the notice for an installation that went well.
pub open spec fn installed_words() -> Seq<char> {
    "Modül başarıyla kuruldu: "@
}

/// The words of the notice for an installation that failed.
pub open spec fn failed_words() -> Seq<char> {
    "Kurulum başarısız: "@
}

/// The notice that tells how the installation of the module `id` went.
pub fn install_toast(id: &str, success: bool) -> (toast: ToastPayload)
    ensures
        toast@ == if success {
            ToastPayloadModel { message: installed_words() + id@, level: "success"@ }
        } else {
            ToastPayloadModel { message: failed_words() + id@, level: "error"@ }
        },
{
    if success {
        let mut message = String::from_str("Modül başarıyla kuruldu: ");
        message.append(id);
        ToastPayload { message, level: String::from_str("success") }
    } else {
        let mut message = String::from_str("Kurulum başarısız: ");
        message.append(id);
        ToastPayload { message, level: String::from_str("error") }
    }
}

} // verus!
