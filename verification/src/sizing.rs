//! Buffer and dispatch sizing: how many storage words hold a row of cells,
//! and how many workgroups of a fixed extent cover a problem of a given size.

use vstd::prelude::*;

verus! {

/// Number of cell states packed into one storage word.
pub const CELLS_PER_WORD: u32 = 32;

/// Ceiling of `n / d` for a non-negative `n` and a positive `d`.
pub open spec fn ceil_div(n: int, d: int) -> int
    recommends
        n >= 0,
        d > 0,
{
    (n + d - 1) / d
}

/// The ceiling quotient is the least multiplier of `d` that reaches `n`.
pub proof fn lemma_ceil_div_is_least_cover(n: int, d: int)
    requires
        n >= 0,
        d > 0,
    ensures
        ceil_div(n, d) >= 0,
        ceil_div(n, d) * d >= n,
        (ceil_div(n, d) - 1) * d < n,
        ceil_div(n, d) == n / d + if n % d == 0 { 0int } else { 1int },
{
    let q = n / d;
    let r = n % d;
    assert(n == q * d + r && 0 <= r < d) by (nonlinear_arith)
        requires
            q == n / d,
            r == n % d,
            d > 0,
    ;
    if r == 0 {
        assert((q * d + d - 1) / d == q) by (nonlinear_arith)
            requires
                d > 0,
        ;
    } else {
        assert((q * d + r + d - 1) / d == q + 1) by (nonlinear_arith)
            requires
                d > 0,
                0 < r < d,
        ;
    }
    assert(q >= 0) by (nonlinear_arith)
        requires
            q == n / d,
            n >= 0,
            d > 0,
    ;
    assert((q + 1) * d == q * d + d && (q - 1) * d == q * d - d) by (nonlinear_arith);
}

/// Number of workgroups of `workgroup_size` invocations needed to cover
/// `extent` items along one axis.
pub fn dispatch_count(extent: u32, workgroup_size: u32) -> (count: u32)
    requires
        workgroup_size > 0,
    ensures
        count == ceil_div(extent as int, workgroup_size as int),
        count * workgroup_size >= extent,
        (count - 1) * workgroup_size < extent,
{
    proof {
        lemma_ceil_div_is_least_cover(extent as int, workgroup_size as int);
    }
    let whole: u32 = extent / workgroup_size;
    if extent % workgroup_size == 0 {
        whole
    } else {
        assert(whole < u32::MAX) by (nonlinear_arith)
            requires
                whole == extent as int / workgroup_size as int,
                extent as int % workgroup_size as int != 0,
                workgroup_size > 0,
                extent <= u32::MAX,
        ;
        whole + 1
    }
}

/// Number of storage words that hold one row of `cell_count` packed cells.
pub fn buffer_size_x(cell_count: u32) -> (words: u32)
    ensures
        words == ceil_div(cell_count as int, CELLS_PER_WORD as int),
        words * CELLS_PER_WORD >= cell_count,
        (words - 1) * CELLS_PER_WORD < cell_count,
{
    dispatch_count(cell_count, CELLS_PER_WORD)
}

/// Why a grid cannot be backed by a storage buffer.
#[derive(Clone, Copy, PartialEq, Eq, Structural, Debug)]
pub enum GridError {
    /// One of the grid's extents is zero, so the buffer would be empty.
    Empty,
    /// The buffer would hold more words than a 32-bit index can address.
    TooLarge,
}

/// Position of one cell inside the packed storage buffer.
#[derive(Clone, Copy, PartialEq, Eq, Structural, Debug)]
pub struct CellSlot {
    /// Index of the storage word.
    pub word: u32,
    /// Bit inside that word, counted from the least significant.
    pub bit: u32,
}

/// The slot of the cell with linear index `cell`: bit `i` of word `w` holds
/// cell `w * 32 + i`.
pub open spec fn slot_of(cell: int) -> CellSlot {
    CellSlot { word: (cell / 32) as u32, bit: (cell % 32) as u32 }
}

/// Locates the cell with linear index `cell` in the packed storage buffer.
pub fn cell_slot(cell: u32) -> (slot: CellSlot)
    ensures
        slot == slot_of(cell as int),
        slot.word * CELLS_PER_WORD + slot.bit == cell,
        slot.bit < CELLS_PER_WORD,
{
    CellSlot { word: cell / CELLS_PER_WORD, bit: cell % CELLS_PER_WORD }
}

/// No two cells share a slot, and a row of `cell_count` cells stays inside
/// the words that `buffer_size_x` reserves for it.
pub proof fn lemma_slots_do_not_alias(a: u32, b: u32, cell_count: u32)
    ensures
        slot_of(a as int) == slot_of(b as int) ==> a == b,
        a < cell_count ==> slot_of(a as int).word < ceil_div(
            cell_count as int,
            CELLS_PER_WORD as int,
        ),
{
    lemma_ceil_div_is_least_cover(cell_count as int, 32);
}

} // verus!
