//! Sizes that fix the storage layout.
use vstd::prelude::*;

verus! {

/// The number of bytes in each cache line. This is almost always 32 or 64.
pub const CACHELINE_WIDTH: usize = 32;

/// The size of the data buffer of each small string. A stored string is
/// strictly shorter than this.
pub const INLINE_CAPACITY: usize = 9;

/// The number of bytes one small string occupies: its length byte followed
/// by its data buffer.
pub const SMALL_STRING_SIZE: usize = INLINE_CAPACITY + 1;

/// The number of small strings that fit into a cache line.
pub const SS_PER_CACHELINE: usize = CACHELINE_WIDTH / SMALL_STRING_SIZE;

/// The number of bytes used to pad each cache line.
pub const SS_CACHELINE_PADDING: usize = CACHELINE_WIDTH - (SS_PER_CACHELINE * SMALL_STRING_SIZE);

/// The number of lines needed to hold `n` small strings: `n` divided by the
/// number of cells per line, rounded up.
pub open spec fn lines_for(n: int) -> int {
    (n + SS_PER_CACHELINE - 1) / (SS_PER_CACHELINE as int)
}

/// The cells of a line together with its padding fill one cache line
/// exactly, a length byte fits the longest storable string, and at least one
/// cell fits into a line.
pub proof fn lemma_line_fills_cacheline()
    ensures
        SS_PER_CACHELINE * SMALL_STRING_SIZE + SS_CACHELINE_PADDING == CACHELINE_WIDTH,
        SS_CACHELINE_PADDING < SMALL_STRING_SIZE,
        SS_PER_CACHELINE >= 1,
        INLINE_CAPACITY <= u8::MAX,
{
}

} // verus!
