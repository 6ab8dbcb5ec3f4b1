use vstd::prelude::*;
use crate::filetime::{convert_filetime, filetime_spec, Timestamp};
use crate::metadata::{
    ItemMetadata, ATTRIBUTES_BIT, DATE_ACCESSED_BIT, DATE_CREATED_BIT, DATE_MODIFIED_BIT, SIZE_BIT,
};
use crate::search::Search;

verus! {

/// What an item of the file system is.
#[derive(Debug, Clone, Copy, PartialEq, Eq, Structural, Hash)]
pub enum ItemType {
    File,
    Folder,
    Volume,
}

/// One result as the engine reported it, before it is checked: each
/// accessor's answer, or the engine's message where the accessor failed.
#[derive(Debug, PartialEq, Eq, Hash)]
pub struct RawResult {
    pub path: Result<String, String>,
    pub is_file: bool,
    pub is_folder: bool,
    pub is_volume: bool,
    pub size: Result<u64, String>,
    pub date_created: Result<u64, String>,
    pub date_modified: Result<u64, String>,
    pub date_accessed: Result<u64, String>,
    pub attributes: Result<u32, String>,
}

/// A file, folder or volume found by a search.
///
/// Each optional field is `None` when it was not requested, or when the
/// engine could not give it.
#[derive(Debug, Clone, PartialEq, Eq, Hash)]
pub struct Item {
    /// The full path of the item.
    pub path: String,
    /// What the item is.
    pub item_type: ItemType,
    /// The size in bytes.
    pub size: Option<u64>,
    /// When the item was created.
    pub date_created: Option<Timestamp>,
    /// When the item was last modified.
    pub date_modified: Option<Timestamp>,
    /// When the item was last accessed.
    pub date_accessed: Option<Timestamp>,
    /// The attribute bits of the item.
    pub attributes: Option<u32>,
}

/// The kind of a raw result, where exactly one kind is reported.
pub open spec fn kind_of(raw: RawResult) -> Option<ItemType> {
    if raw.is_file && !raw.is_folder && !raw.is_volume {
        Some(ItemType::File)
    } else if !raw.is_file && raw.is_folder && !raw.is_volume {
        Some(ItemType::Folder)
    } else if !raw.is_file && !raw.is_folder && raw.is_volume {
        Some(ItemType::Volume)
    } else {
        None
    }
}

/// A field's value: present only where it was requested and the engine gave
/// it.
pub open spec fn field_value<T>(requested: ItemMetadata, flag: u32, value: Result<T, String>) -> Option<T> {
    if requested.has(ItemMetadata { bits: flag }) {
        match value {
            Ok(v) => Some(v),
            Err(_) => None,
        }
    } else {
        None
    }
}

/// A date field's value, converted to a timestamp.
pub open spec fn date_value(requested: ItemMetadata, flag: u32, value: Result<u64, String>) -> Option<Timestamp> {
    match field_value(requested, flag, value) {
        Some(t) => Some(filetime_spec(t)),
        None => None,
    }
}

/// The item that a raw result becomes under a search, if any.
pub open spec fn item_spec(s: Search, raw: RawResult) -> Option<Item> {
    match (raw.path, kind_of(raw)) {
        (Ok(path), Some(kind)) => {
            let m = s.requested_metadata;
            Some(Item {
                path,
                item_type: kind,
                size: field_value(m, SIZE_BIT, raw.size),
                date_created: date_value(m, DATE_CREATED_BIT, raw.date_created),
                date_modified: date_value(m, DATE_MODIFIED_BIT, raw.date_modified),
                date_accessed: date_value(m, DATE_ACCESSED_BIT, raw.date_accessed),
                attributes: field_value(m, ATTRIBUTES_BIT, raw.attributes),
            })
        },
        _ => None,
    }
}

/// The items that a window of raw results becomes, in the engine's order;
/// results that do not become items are left out.
pub open spec fn items_spec(s: Search, raws: Seq<RawResult>) -> Seq<Item>
    decreases raws.len(),
{
    if raws.len() == 0 {
        Seq::empty()
    } else {
        let prev = items_spec(s, raws.drop_last());
        match item_spec(s, raws.last()) {
            Some(item) => prev.push(item),
            None => prev,
        }
    }
}

/// How many raw results of a window yield no item.
pub open spec fn dropped_count(s: Search, raws: Seq<RawResult>) -> nat
    decreases raws.len(),
{
    if raws.len() == 0 {
        0
    } else {
        dropped_count(s, raws.drop_last()) + if item_spec(s, raws.last()) is None {
            1nat
        } else {
            0nat
        }
    }
}

/// Reads one requested field: the value where the field was requested and
/// the engine gave it, else nothing.
fn get_metadata_from_item<T: Copy>(search: &Search, flag: u32, value: &Result<T, String>) -> (r: Option<T>)
    ensures
        r == field_value(search.requested_metadata, flag, *value),
{
    if search.requested_metadata.contains(ItemMetadata { bits: flag }) {
        match value {
            Ok(v) => Some(*v),
            Err(_) => None,
        }
    } else {
        None
    }
}

/// Reads one requested date field and converts it.
fn get_date_from_item(search: &Search, flag: u32, value: &Result<u64, String>) -> (r: Option<Timestamp>)
    ensures
        r == date_value(search.requested_metadata, flag, *value),
{
    match get_metadata_from_item(search, flag, value) {
        Some(t) => Some(convert_filetime(t)),
        None => None,
    }
}

/// Determines the kind of a raw result; `None` where the engine reports no
/// kind or more than one.
fn item_type_of(raw: &RawResult) -> (r: Option<ItemType>)
    ensures
        r == kind_of(*raw),
{
    if raw.is_file && !raw.is_folder && !raw.is_volume {
        Some(ItemType::File)
    } else if !raw.is_file && raw.is_folder && !raw.is_volume {
        Some(ItemType::Folder)
    } else if !raw.is_file && !raw.is_folder && raw.is_volume {
        Some(ItemType::Volume)
    } else {
        None
    }
}

impl Item {
    /// Builds the item for a raw result. There is none where the path could
    /// not be read or the kind is not exactly one of file, folder and volume.
    pub fn from_result(search: &Search, raw: &RawResult) -> (r: Option<Item>)
        ensures
            r == item_spec(*search, *raw),
    {
        let path = match &raw.path {
            Ok(p) => p.clone(),
            Err(_) => {
                return None;
            },
        };
        let item_type = match item_type_of(raw) {
            Some(k) => k,
            None => {
                return None;
            },
        };
        Some(Item {
            path,
            item_type,
            size: get_metadata_from_item(search, SIZE_BIT, &raw.size),
            date_created: get_date_from_item(search, DATE_CREATED_BIT, &raw.date_created),
            date_modified: get_date_from_item(search, DATE_MODIFIED_BIT, &raw.date_modified),
            date_accessed: get_date_from_item(search, DATE_ACCESSED_BIT, &raw.date_accessed),
            attributes: get_metadata_from_item(search, ATTRIBUTES_BIT, &raw.attributes),
        })
    }
}

impl Search {
    /// Turns the raw results of a query into items, in the engine's order,
    /// leaving out each result that does not become an item.
    pub fn collect_items(&self, raws: &Vec<RawResult>) -> (r: Vec<Item>)
        ensures
            r@ == items_spec(*self, raws@),
            r@.len() <= raws@.len(),
    {
        let mut items: Vec<Item> = Vec::new();
        let mut i: usize = 0;
        while i < raws.len()
            invariant
                i <= raws@.len(),
                items@ == items_spec(*self, raws@.take(i as int)),
                items@.len() <= i,
            decreases raws@.len() - i,
        {
            assert(raws@.take(i as int + 1).drop_last() == raws@.take(i as int));
            match Item::from_result(self, &raws[i]) {
                Some(item) => items.push(item),
                None => {},
            }
            i = i + 1;
        }
        assert(raws@.take(raws@.len() as int) == raws@);
        items
    }
}

/// A field the search did not request is absent from every item, whatever
/// the engine holds; every item has exactly one kind, and each raw result
/// that reports none or several kinds yields no item.
pub proof fn lemma_absent_unless_requested(s: Search, raws: Seq<RawResult>)
    ensures
        forall|j: int|
            0 <= j < items_spec(s, raws).len() ==> {
                let item = #[trigger] items_spec(s, raws)[j];
                let m = s.requested_metadata;
                &&& (!m.has(ItemMetadata { bits: SIZE_BIT }) ==> item.size is None)
                &&& (!m.has(ItemMetadata { bits: DATE_CREATED_BIT }) ==> item.date_created is None)
                &&& (!m.has(ItemMetadata { bits: DATE_MODIFIED_BIT }) ==> item.date_modified is None)
                &&& (!m.has(ItemMetadata { bits: DATE_ACCESSED_BIT }) ==> item.date_accessed is None)
                &&& (!m.has(ItemMetadata { bits: ATTRIBUTES_BIT }) ==> item.attributes is None)
            },
    decreases raws.len(),
{
    if raws.len() > 0 {
        lemma_absent_unless_requested(s, raws.drop_last());
    }
}

/// An item comes only from a raw result with a readable path and exactly one
/// kind, and keeps that path and kind; any other raw result yields nothing.
pub proof fn lemma_kind_exclusive(s: Search, raw: RawResult)
    ensures
        item_spec(s, raw) is Some <==> (raw.path is Ok && kind_of(raw) is Some),
        item_spec(s, raw) is Some ==> {
            let item = item_spec(s, raw)->Some_0;
            &&& Ok::<String, String>(item.path) == raw.path
            &&& match item.item_type {
                ItemType::File => raw.is_file && !raw.is_folder && !raw.is_volume,
                ItemType::Folder => !raw.is_file && raw.is_folder && !raw.is_volume,
                ItemType::Volume => !raw.is_file && !raw.is_folder && raw.is_volume,
            }
        },
{
}

/// The items of a window are as many as its raw results, less one for each
/// raw result whose path could not be read or whose kind is not exactly one.
pub proof fn lemma_dropped_results(s: Search, raws: Seq<RawResult>)
    ensures
        items_spec(s, raws).len() + dropped_count(s, raws) == raws.len(),
        forall|k: int|
            0 <= k < raws.len() ==> (#[trigger] item_spec(s, raws[k]) is None <==> (raws[k].path is Err
                || kind_of(raws[k]) is None)),
    decreases raws.len(),
{
    if raws.len() > 0 {
        lemma_dropped_results(s, raws.drop_last());
    }
}

} // verus!
