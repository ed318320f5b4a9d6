//! Coordinates, the cell-index mapping, and shared geometric predicates.
//!
//! The playing area is 9 files by 10 ranks (file 0..=8, rank 0..=9),
//! embedded in a flat 12x12 backing array with a one-cell sentinel border
//! so that offset arithmetic never leaves the array. A playing cell maps
//! to index `(rank + 1) * 12 + (file + 1)`.

use vstd::prelude::*;

use crate::piece::Color;

verus! {

/// Number of files (board width).
pub const FILE_SZ: u8 = 9;

/// Number of ranks (board height).
pub const RANK_SZ: u8 = 10;

/// Number of cells in the backing array.
pub const GRID_SZ: usize = 144;

/// Whether a coordinate pair lies in the 9x10 playing area.
pub open spec fn in_range(file: int, rank: int) -> bool {
    0 <= file < 9 && 0 <= rank < 10
}

/// The backing-array index of a playing-area coordinate.
pub open spec fn idx_of(file: int, rank: int) -> int {
    (rank + 1) * 12 + (file + 1)
}

/// Every playing-area coordinate maps inside the backing array.
pub proof fn lemma_idx_bounds(file: int, rank: int)
    requires
        in_range(file, rank),
    ensures
        13 <= idx_of(file, rank) < 144,
{
}

/// The coordinate-to-index mapping is injective on the playing area.
pub proof fn lemma_idx_injective(f1: int, r1: int, f2: int, r2: int)
    requires
        in_range(f1, r1),
        in_range(f2, r2),
        idx_of(f1, r1) == idx_of(f2, r2),
    ensures
        f1 == f2 && r1 == r2,
{
    assert((r1 - r2) * 12 == (f2 + 1) - (f1 + 1));
}

/// Map a coordinate to its backing-array index, or `None` when the
/// coordinate lies outside the playing area.
pub fn pos_to_idx(file: u8, rank: u8) -> (r: Option<usize>)
    ensures
        in_range(file as int, rank as int) ==> r == Some(idx_of(file as int, rank as int) as usize),
        !in_range(file as int, rank as int) ==> r is None,
{
    if file >= FILE_SZ || rank >= RANK_SZ {
        return None;
    }
    Some(((rank + 1) * 12 + (file + 1)) as usize)
}

/// Whether a coordinate lies inside the palace of the given side: files
/// 3..=5, and ranks 0..=2 for Red or 7..=9 for Black.
pub open spec fn spec_in_palace(file: int, rank: int, side: Color) -> bool {
    3 <= file <= 5 && match side {
        Color::Red => rank <= 2,
        Color::Black => rank >= 7,
    }
}

/// Palace membership; callers pass playing-area coordinates.
pub(crate) fn in_palace(file: u8, rank: u8, side: Color) -> (r: bool)
    ensures
        r == spec_in_palace(file as int, rank as int, side),
{
    if file < 3 || file > 5 {
        return false;
    }
    match side {
        Color::Red => rank <= 2,
        Color::Black => rank >= 7,
    }
}

/// Whether a rank lies on the far side of the river for the given side:
/// rank above 4 for Red, rank below 5 for Black.
pub open spec fn spec_crossed_river(rank: int, side: Color) -> bool {
    match side {
        Color::Red => rank > 4,
        Color::Black => rank < 5,
    }
}

/// River crossing; the river lies between ranks 4 and 5.
pub(crate) fn crossed_river(rank: u8, side: Color) -> (r: bool)
    ensures
        r == spec_crossed_river(rank as int, side),
{
    match side {
        Color::Red => rank > 4,
        Color::Black => rank < 5,
    }
}

} // verus!
