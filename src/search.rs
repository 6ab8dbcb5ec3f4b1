use vstd::prelude::*;
use crate::metadata::ItemMetadata;
use crate::sort::{convert_sort_type, sort_code, SortKey, SortOrder};
use crate::window::{count_of, range_window, start_of, RangeBound, Window};

verus! {

/// A search to run against the engine's index: the pattern, how it is
/// matched, how results are sorted and which metadata comes with them.
#[derive(Debug, Clone, PartialEq, Eq, Hash)]
pub struct Search {
    /// The pattern, in the engine's search syntax or as a regular expression.
    pub pattern: String,
    /// Whether the pattern is a regular expression.
    pub regex: bool,
    /// Whether matching is case-sensitive.
    pub match_case: bool,
    /// Whether the pattern is matched against the full path.
    pub match_path: bool,
    /// Whether only whole words match.
    pub match_whole_word: bool,
    /// The key by which results are sorted.
    pub sort_key: SortKey,
    /// The order in which results are sorted.
    pub sort_order: SortOrder,
    /// The metadata fetched with each result.
    pub requested_metadata: ItemMetadata,
}

/// Everything the engine is told for one query.
#[derive(Debug, Clone, PartialEq, Eq, Hash)]
pub struct EngineQuery {
    pub pattern: String,
    pub regex: bool,
    pub match_case: bool,
    pub match_path: bool,
    pub match_whole_word: bool,
    /// The engine's sort-mode code.
    pub sort: u32,
    /// The engine's request flags.
    pub request_flags: u32,
    /// The position of the first result wanted.
    pub offset: u32,
    /// The largest number of results wanted.
    pub max: u32,
}

/// A search with the given pattern and every option at its default.
pub open spec fn default_search(pattern: String, regex: bool) -> Search {
    Search {
        pattern,
        regex,
        match_case: false,
        match_path: false,
        match_whole_word: false,
        sort_key: SortKey::Name,
        sort_order: SortOrder::Ascending,
        requested_metadata: ItemMetadata { bits: 0 },
    }
}

/// Creates a search for a pattern in the engine's search syntax: case
/// insensitive, partial path and partial word matching, sorted by name in
/// ascending order, with no metadata.
pub fn search(pattern: String) -> (r: Search)
    ensures
        r == default_search(pattern, false),
{
    Search {
        pattern,
        regex: false,
        match_case: false,
        match_path: false,
        match_whole_word: false,
        sort_key: SortKey::Name,
        sort_order: SortOrder::Ascending,
        requested_metadata: ItemMetadata { bits: 0 },
    }
}

/// Creates a search for a regular expression, with every other option at its
/// default.
pub fn search_regex(pattern: String) -> (r: Search)
    ensures
        r == default_search(pattern, true),
{
    Search {
        pattern,
        regex: true,
        match_case: false,
        match_path: false,
        match_whole_word: false,
        sort_key: SortKey::Name,
        sort_order: SortOrder::Ascending,
        requested_metadata: ItemMetadata { bits: 0 },
    }
}

impl Search {
    /// This search with a new sort key and order.
    pub open spec fn with_sort(self, key: SortKey, order: SortOrder) -> Search {
        Search { sort_key: key, sort_order: order, ..self }
    }

    /// This search with more metadata requested.
    pub open spec fn with_metadata(self, metadata: ItemMetadata) -> Search {
        Search { requested_metadata: self.requested_metadata.join(metadata), ..self }
    }

    /// Sets whether the search is case-sensitive.
    pub fn match_case(self, case: bool) -> (r: Search)
        ensures
            r == (Search { match_case: case, ..self }),
    {
        Search { match_case: case, ..self }
    }

    /// Sets whether the pattern is matched against the full path.
    pub fn match_path(self, path: bool) -> (r: Search)
        ensures
            r == (Search { match_path: path, ..self }),
    {
        Search { match_path: path, ..self }
    }

    /// Sets whether only whole words match.
    pub fn match_whole_word(self, whole_word: bool) -> (r: Search)
        ensures
            r == (Search { match_whole_word: whole_word, ..self }),
    {
        Search { match_whole_word: whole_word, ..self }
    }

    /// Sets the sort key and order, replacing the earlier ones.
    pub fn sort_by(self, key: SortKey, order: SortOrder) -> (r: Search)
        ensures
            r == self.with_sort(key, order),
    {
        Search { sort_key: key, sort_order: order, ..self }
    }

    /// Requests more metadata; fields requested before stay requested.
    pub fn request_metadata(self, metadata: ItemMetadata) -> (r: Search)
        ensures
            r == self.with_metadata(metadata),
    {
        let requested = self.requested_metadata.union(metadata);
        Search { requested_metadata: requested, ..self }
    }

    /// The engine settings for this search over the given window.
    pub open spec fn query_spec(self, window: Window) -> EngineQuery {
        EngineQuery {
            pattern: self.pattern,
            regex: self.regex,
            match_case: self.match_case,
            match_path: self.match_path,
            match_whole_word: self.match_whole_word,
            sort: sort_code(self.sort_key, self.sort_order),
            request_flags: self.requested_metadata.bits,
            offset: window.offset,
            max: window.count,
        }
    }

    /// Translates this search and a window into the engine's settings.
    pub fn apply(&self, window: Window) -> (r: EngineQuery)
        ensures
            r == self.query_spec(window),
    {
        EngineQuery {
            pattern: self.pattern.clone(),
            regex: self.regex,
            match_case: self.match_case,
            match_path: self.match_path,
            match_whole_word: self.match_whole_word,
            sort: convert_sort_type(self.sort_key, self.sort_order),
            request_flags: self.requested_metadata.bits(),
            offset: window.offset,
            max: window.count,
        }
    }

    /// The engine settings for the results of this search between two bounds.
    pub fn plan_range(&self, lower: RangeBound, upper: RangeBound) -> (r: EngineQuery)
        ensures
            r == self.query_spec(
                Window {
                    offset: start_of(lower) as u32,
                    count: count_of(start_of(lower), upper) as u32,
                },
            ),
    {
        let window = range_window(lower, upper);
        self.apply(window)
    }

    /// The engine settings for every result of this search.
    pub fn plan_all(&self) -> (r: EngineQuery)
        ensures
            r == self.query_spec(Window { offset: 0, count: u32::MAX }),
    {
        self.plan_range(RangeBound::Unbounded, RangeBound::Unbounded)
    }
}

/// Requesting metadata accumulates: two requests are one request for the
/// fields of both.
pub proof fn lemma_request_metadata_accumulates(s: Search, a: ItemMetadata, b: ItemMetadata)
    ensures
        s.with_metadata(a).with_metadata(b) == s.with_metadata(a.join(b)),
{
    crate::metadata::lemma_join_assoc_comm(s.requested_metadata, a, b);
}

/// Setting the sort replaces it: only the last key and order take effect.
pub proof fn lemma_sort_by_last_wins(
    s: Search,
    k1: SortKey,
    o1: SortOrder,
    k2: SortKey,
    o2: SortOrder,
)
    ensures
        s.with_sort(k1, o1).with_sort(k2, o2) == s.with_sort(k2, o2),
{
}

} // verus!
