use vstd::prelude::*;

verus! {

/// Ticks of 100 ns between the engine's epoch (1601-01-01) and the Unix
/// epoch (1970-01-01).
pub const FILETIME_UNIX_DIFF: u64 = 116_444_736_000_000_000;

/// Ticks of 100 ns in one second.
pub const TICKS_PER_SEC: u64 = 10_000_000;

/// A point in time, as whole seconds and nanoseconds since the Unix epoch.
#[derive(Debug, Clone, Copy, PartialEq, Eq, Structural, Hash, PartialOrd, Ord)]
pub struct Timestamp {
    pub secs: u64,
    pub nanos: u32,
}

impl Timestamp {
    /// A timestamp is well formed when its nanoseconds stay below a second.
    pub open spec fn wf(self) -> bool {
        self.nanos < 1_000_000_000
    }

    /// Nanoseconds since the Unix epoch.
    pub open spec fn total_nanos(self) -> int {
        self.secs * 1_000_000_000 + self.nanos
    }

    /// Strictly earlier in time.
    pub open spec fn before(self, other: Timestamp) -> bool {
        self.secs < other.secs || (self.secs == other.secs && self.nanos < other.nanos)
    }

    /// The Unix epoch itself.
    pub fn unix_epoch() -> (r: Timestamp)
        ensures
            r.secs == 0 && r.nanos == 0,
    {
        Timestamp { secs: 0, nanos: 0 }
    }

    /// Whether `self` lies strictly before `other`.
    pub fn is_before(&self, other: &Timestamp) -> (r: bool)
        ensures
            r == self.before(*other),
    {
        self.secs < other.secs || (self.secs == other.secs && self.nanos < other.nanos)
    }
}

/// Ticks since the Unix epoch, clamped at zero for earlier times.
pub open spec fn unix_ticks(filetime: u64) -> int {
    if filetime >= FILETIME_UNIX_DIFF {
        filetime - FILETIME_UNIX_DIFF
    } else {
        0
    }
}

/// The timestamp that an engine tick count stands for.
pub open spec fn filetime_spec(filetime: u64) -> Timestamp {
    Timestamp {
        secs: (unix_ticks(filetime) / TICKS_PER_SEC as int) as u64,
        nanos: ((unix_ticks(filetime) % TICKS_PER_SEC as int) * 100) as u32,
    }
}

/// Converts the engine's count of 100 ns ticks since 1601-01-01 into a
/// timestamp; times before the Unix epoch become the epoch.
pub fn convert_filetime(filetime: u64) -> (r: Timestamp)
    ensures
        r == filetime_spec(filetime),
        r.wf(),
        r.total_nanos() == unix_ticks(filetime) * 100,
{
    let unix_100ns: u64 = filetime.saturating_sub(FILETIME_UNIX_DIFF);
    let secs: u64 = unix_100ns / TICKS_PER_SEC;
    let rem: u64 = unix_100ns % TICKS_PER_SEC;
    let nanos: u32 = (rem * 100) as u32;
    proof {
        lemma_filetime_nanos(filetime);
    }
    Timestamp { secs, nanos }
}

proof fn lemma_filetime_nanos(filetime: u64)
    ensures
        filetime_spec(filetime).wf(),
        filetime_spec(filetime).total_nanos() == unix_ticks(filetime) * 100,
{
    let t = unix_ticks(filetime);
    let q = t / 10_000_000;
    let m = t % 10_000_000;
    assert(0 <= t < 0x1_0000_0000_0000_0000);
    assert(t == q * 10_000_000 + m && 0 <= m < 10_000_000 && 0 <= q <= t) by (nonlinear_arith)
        requires
            q == t / 10_000_000,
            m == t % 10_000_000,
            t >= 0,
    ;
    assert(q * 1_000_000_000 + m * 100 == t * 100) by (nonlinear_arith)
        requires
            t == q * 10_000_000 + m,
    ;
}

/// Later tick counts give strictly later timestamps, once both lie at or
/// after the Unix epoch.
pub proof fn lemma_filetime_monotonic(a: u64, b: u64)
    requires
        FILETIME_UNIX_DIFF <= a < b,
    ensures
        filetime_spec(a).before(filetime_spec(b)),
        filetime_spec(a).total_nanos() < filetime_spec(b).total_nanos(),
{
    lemma_filetime_nanos(a);
    lemma_filetime_nanos(b);
    let x = filetime_spec(a);
    let y = filetime_spec(b);
    assert(x.before(y)) by (nonlinear_arith)
        requires
            x.secs * 1_000_000_000 + x.nanos < y.secs * 1_000_000_000 + y.nanos,
            x.nanos < 1_000_000_000,
            y.nanos < 1_000_000_000,
    ;
}

/// The epoch offset itself, and every earlier tick count, give the Unix
/// epoch.
pub proof fn lemma_filetime_saturates(filetime: u64)
    requires
        filetime <= FILETIME_UNIX_DIFF,
    ensures
        filetime_spec(filetime).secs == 0,
        filetime_spec(filetime).nanos == 0,
{
}

} // verus!
