use vstd::prelude::*;

verus! {

/// Specifies the order in which search results are sorted.
#[derive(Debug, Clone, Copy, PartialEq, Eq, Structural, Hash)]
pub enum SortOrder {
    Ascending,
    Descending,
}

/// Specifies the key by which search results are sorted.
#[derive(Debug, Clone, Copy, PartialEq, Eq, Structural, Hash)]
pub enum SortKey {
    Name,
    TypeName,
    Path,
    Size,
    Extension,
    DateCreated,
    DateModified,
    DateAccessed,
    Attributes,
}

impl Default for SortOrder {
    fn default() -> (r: Self)
        ensures
            r == SortOrder::Ascending,
    {
        SortOrder::Ascending
    }
}

impl Default for SortKey {
    fn default() -> (r: Self)
        ensures
            r == SortKey::Name,
    {
        SortKey::Name
    }
}

/// The engine's code for a key sorted in ascending order; the descending
/// code of the same key is always the next one.
pub open spec fn ascending_code(key: SortKey) -> u32 {
    match key {
        SortKey::Name => 1,
        SortKey::Path => 3,
        SortKey::Size => 5,
        SortKey::Extension => 7,
        SortKey::TypeName => 9,
        SortKey::DateCreated => 11,
        SortKey::DateModified => 13,
        SortKey::Attributes => 15,
        SortKey::DateAccessed => 23,
    }
}

/// The engine's sort-mode code for a key and an order.
pub open spec fn sort_code(key: SortKey, order: SortOrder) -> u32 {
    match order {
        SortOrder::Ascending => ascending_code(key),
        SortOrder::Descending => (ascending_code(key) + 1) as u32,
    }
}

/// Combines a sort key and a sort order into the engine's sort-mode code.
pub fn convert_sort_type(key: SortKey, order: SortOrder) -> (r: u32)
    ensures
        r == sort_code(key, order),
{
    match (key, order) {
        (SortKey::Name, SortOrder::Ascending) => 1,
        (SortKey::Name, SortOrder::Descending) => 2,
        (SortKey::Path, SortOrder::Ascending) => 3,
        (SortKey::Path, SortOrder::Descending) => 4,
        (SortKey::Size, SortOrder::Ascending) => 5,
        (SortKey::Size, SortOrder::Descending) => 6,
        (SortKey::Extension, SortOrder::Ascending) => 7,
        (SortKey::Extension, SortOrder::Descending) => 8,
        (SortKey::TypeName, SortOrder::Ascending) => 9,
        (SortKey::TypeName, SortOrder::Descending) => 10,
        (SortKey::DateCreated, SortOrder::Ascending) => 11,
        (SortKey::DateCreated, SortOrder::Descending) => 12,
        (SortKey::DateModified, SortOrder::Ascending) => 13,
        (SortKey::DateModified, SortOrder::Descending) => 14,
        (SortKey::Attributes, SortOrder::Ascending) => 15,
        (SortKey::Attributes, SortOrder::Descending) => 16,
        (SortKey::DateAccessed, SortOrder::Ascending) => 23,
        (SortKey::DateAccessed, SortOrder::Descending) => 24,
    }
}

/// The sort mapping is injective: two different (key, order) pairs never
/// share a mode code, and every code is one the engine defines (1 to 26).
pub proof fn lemma_sort_mapping_injective(k1: SortKey, o1: SortOrder, k2: SortKey, o2: SortOrder)
    ensures
        1 <= sort_code(k1, o1) <= 26,
        sort_code(k1, o1) == sort_code(k2, o2) ==> k1 == k2 && o1 == o2,
{
}

} // verus!
