use vstd::prelude::*;

verus! {

/// Modulus of the engine's 32-bit offset and count.
pub open spec fn modulus() -> int {
    0x1_0000_0000
}

/// One end of a range of result positions.
#[derive(Debug, Clone, Copy, PartialEq, Eq, Structural, Hash)]
pub enum RangeBound {
    Included(usize),
    Excluded(usize),
    Unbounded,
}

/// A window of results in the engine's terms: where it starts and how many
/// results it holds.
#[derive(Debug, Clone, Copy, PartialEq, Eq, Structural, Hash)]
pub struct Window {
    pub offset: u32,
    pub count: u32,
}

/// The first position of a range, in the engine's 32-bit arithmetic.
pub open spec fn start_of(lower: RangeBound) -> int {
    match lower {
        RangeBound::Included(s) => s as int % modulus(),
        RangeBound::Excluded(s) => (s as int % modulus() + 1) % modulus(),
        RangeBound::Unbounded => 0,
    }
}

/// The number of positions of a range that starts at `start`, in the
/// engine's 32-bit arithmetic; an open end asks for as many as there are.
pub open spec fn count_of(start: int, upper: RangeBound) -> int {
    match upper {
        RangeBound::Included(e) => (e as int % modulus() - start + 1) % modulus(),
        RangeBound::Excluded(e) => (e as int % modulus() - start) % modulus(),
        RangeBound::Unbounded => u32::MAX as int,
    }
}

/// Converts a pair of range bounds into the engine's offset and count.
///
/// Bounds and their differences are taken modulo 2^32, as the engine's
/// counters do: an inverted range is not refused but wraps around.
pub fn range_window(lower: RangeBound, upper: RangeBound) -> (r: Window)
    ensures
        r.offset == start_of(lower),
        r.count == count_of(r.offset as int, upper),
{
    let m: u64 = 0x1_0000_0000;
    let start: u64 = match lower {
        RangeBound::Included(s) => (s as u64) % m,
        RangeBound::Excluded(s) => ((s as u64) % m + 1) % m,
        RangeBound::Unbounded => 0,
    };
    let count: u64 = match upper {
        RangeBound::Included(e) => ((e as u64) % m + m - start + 1) % m,
        RangeBound::Excluded(e) => ((e as u64) % m + m - start) % m,
        RangeBound::Unbounded => 0xFFFF_FFFF,
    };
    proof {
        match upper {
            RangeBound::Included(e) => {
                lemma_shift_mod((e as int % modulus()) - start + 1);
            },
            RangeBound::Excluded(e) => {
                lemma_shift_mod((e as int % modulus()) - start);
            },
            RangeBound::Unbounded => {},
        }
    }
    Window { offset: start as u32, count: count as u32 }
}

proof fn lemma_shift_mod(x: int)
    ensures
        (x + modulus()) % modulus() == x % modulus(),
{
    vstd::arithmetic::div_mod::lemma_mod_add_multiples_vanish(x, modulus());
}

/// For a range that fits the engine's counters and is not inverted, the
/// window starts at the lower bound (zero when there is none) and its last
/// position is the inclusive upper bound; with no upper bound the count is
/// the largest the engine takes.
pub proof fn lemma_window_bounds(lower: RangeBound, upper: RangeBound)
    requires
        match lower {
            RangeBound::Included(s) => s <= u32::MAX,
            RangeBound::Excluded(s) => s < u32::MAX,
            RangeBound::Unbounded => true,
        },
        match upper {
            RangeBound::Included(e) => e < u32::MAX && start_of(lower) <= e + 1,
            RangeBound::Excluded(e) => e <= u32::MAX && start_of(lower) <= e,
            RangeBound::Unbounded => true,
        },
    ensures
        lower == RangeBound::Unbounded ==> start_of(lower) == 0,
        (lower matches RangeBound::Included(s) ==> start_of(lower) == s),
        (lower matches RangeBound::Excluded(s) ==> start_of(lower) == s + 1),
        upper == RangeBound::Unbounded ==> count_of(start_of(lower), upper) == u32::MAX,
        (upper matches RangeBound::Included(e) ==> start_of(lower) + count_of(start_of(lower), upper) - 1 == e),
        (upper matches RangeBound::Excluded(e) ==> start_of(lower) + count_of(start_of(lower), upper) - 1 == e - 1),
{
}

} // verus!
