//! A query layer over an external file-index search engine.
//!
//! A [`Search`] describes what to look for. The library turns it, with a
//! range of result positions, into the settings that the engine is given
//! ([`EngineQuery`]), and turns the engine's raw answers ([`RawResult`]) back
//! into typed [`Item`] records. Reaching the engine is left to the caller.

mod filetime;
mod item;
mod metadata;
mod search;
mod sort;
mod window;

pub use filetime::{convert_filetime, lemma_filetime_monotonic, lemma_filetime_saturates, Timestamp};
pub use item::{lemma_absent_unless_requested, lemma_dropped_results, lemma_kind_exclusive, Item, ItemType, RawResult};
pub use metadata::{lemma_join_assoc_comm, ItemMetadata};
pub use search::{
    lemma_request_metadata_accumulates, lemma_sort_by_last_wins, search, search_regex, EngineQuery, Search,
};
pub use sort::{convert_sort_type, lemma_sort_mapping_injective, SortKey, SortOrder};
pub use window::{lemma_window_bounds, range_window, RangeBound, Window};
