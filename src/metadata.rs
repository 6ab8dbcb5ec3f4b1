use vstd::prelude::*;

verus! {

/// The engine's request bit for an item's size.
pub const SIZE_BIT: u32 = 0x10;
/// The engine's request bit for an item's creation date.
pub const DATE_CREATED_BIT: u32 = 0x20;
/// The engine's request bit for an item's modification date.
pub const DATE_MODIFIED_BIT: u32 = 0x40;
/// The engine's request bit for an item's access date.
pub const DATE_ACCESSED_BIT: u32 = 0x80;
/// The engine's request bit for an item's attributes.
pub const ATTRIBUTES_BIT: u32 = 0x100;
/// All five request bits together.
pub const ALL_BITS: u32 = 0x1F0;

/// A set of optional metadata fields to fetch with each result.
///
/// Each field is one bit, at the same position as in the engine's own
/// request flags, so the bits are handed to the engine as they are.
#[derive(Debug, Clone, Copy, PartialEq, Eq, Structural, Hash)]
pub struct ItemMetadata {
    pub bits: u32,
}

impl ItemMetadata {
    /// Whether every field of `other` is in this set.
    pub open spec fn has(self, other: ItemMetadata) -> bool {
        self.bits & other.bits == other.bits
    }

    /// The set with the fields of both.
    pub open spec fn join(self, other: ItemMetadata) -> ItemMetadata {
        ItemMetadata { bits: self.bits | other.bits }
    }

    /// The empty set: no metadata is fetched.
    pub fn empty() -> (r: ItemMetadata)
        ensures
            r.bits == 0,
    {
        ItemMetadata { bits: 0 }
    }

    /// Every field.
    pub fn all() -> (r: ItemMetadata)
        ensures
            r.bits == ALL_BITS,
    {
        ItemMetadata { bits: ALL_BITS }
    }

    /// The size of an item in bytes.
    pub fn size() -> (r: ItemMetadata)
        ensures
            r.bits == SIZE_BIT,
    {
        ItemMetadata { bits: SIZE_BIT }
    }

    /// The date an item was created.
    pub fn date_created() -> (r: ItemMetadata)
        ensures
            r.bits == DATE_CREATED_BIT,
    {
        ItemMetadata { bits: DATE_CREATED_BIT }
    }

    /// The date an item was last modified.
    pub fn date_modified() -> (r: ItemMetadata)
        ensures
            r.bits == DATE_MODIFIED_BIT,
    {
        ItemMetadata { bits: DATE_MODIFIED_BIT }
    }

    /// The date an item was last accessed.
    pub fn date_accessed() -> (r: ItemMetadata)
        ensures
            r.bits == DATE_ACCESSED_BIT,
    {
        ItemMetadata { bits: DATE_ACCESSED_BIT }
    }

    /// The attribute bits of an item.
    pub fn attributes() -> (r: ItemMetadata)
        ensures
            r.bits == ATTRIBUTES_BIT,
    {
        ItemMetadata { bits: ATTRIBUTES_BIT }
    }

    /// The set named by `bits`, with every bit that names no field dropped.
    pub fn from_bits_truncate(bits: u32) -> (r: ItemMetadata)
        ensures
            r.bits == bits & ALL_BITS,
    {
        ItemMetadata { bits: bits & ALL_BITS }
    }

    /// The raw bits, as the engine takes them.
    pub fn bits(&self) -> (r: u32)
        ensures
            r == self.bits,
    {
        self.bits
    }

    /// Whether the set holds no field.
    pub fn is_empty(&self) -> (r: bool)
        ensures
            r == (self.bits == 0),
    {
        self.bits == 0
    }

    /// Whether every field of `other` is in this set.
    pub fn contains(&self, other: ItemMetadata) -> (r: bool)
        ensures
            r == self.has(other),
    {
        self.bits & other.bits == other.bits
    }

    /// The set with the fields of both.
    pub fn union(&self, other: ItemMetadata) -> (r: ItemMetadata)
        ensures
            r == self.join(other),
    {
        ItemMetadata { bits: self.bits | other.bits }
    }
}

impl Default for ItemMetadata {
    fn default() -> (r: Self)
        ensures
            r.bits == 0,
    {
        ItemMetadata { bits: 0 }
    }
}

/// Joining is associative and commutative, so the order in which fields are
/// requested does not matter.
pub proof fn lemma_join_assoc_comm(a: ItemMetadata, b: ItemMetadata, c: ItemMetadata)
    ensures
        a.join(b).join(c) == a.join(b.join(c)),
        a.join(b) == b.join(a),
{
    let (x, y, z) = (a.bits, b.bits, c.bits);
    assert((x | y) | z == x | (y | z)) by (bit_vector);
    assert(x | y == y | x) by (bit_vector);
}

} // verus!
