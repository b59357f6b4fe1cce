//! Geometry of the square grid and of the tiles that cover it.

use vstd::prelude::*;

verus! {

/// Side length, in cells, of one square tile handled by a single workgroup.
pub const TILE: u32 = 4;

/// Number of cells along each side of the grid that the window shows.
pub const GRID_DIM: u32 = 1000;

/// Number of tiles needed to cover `n` cells along one axis: `n / TILE`,
/// rounded up.
pub open spec fn tiles_for(n: int) -> int {
    (n + TILE - 1) / (TILE as int)
}

/// The tiles cover every cell, and the last tile is not wholly beyond the
/// grid.
pub proof fn lemma_tiles_cover(n: int)
    requires
        n >= 0,
    ensures
        tiles_for(n) >= 0,
        tiles_for(n) * TILE >= n,
        (tiles_for(n) - 1) * TILE < n,
{
}

/// No smaller count of tiles covers the grid.
pub proof fn lemma_tiles_are_least(n: int, count: int)
    requires
        n >= 0,
        count * TILE >= n,
    ensures
        count >= tiles_for(n),
{
}

/// Workgroup count along one axis for a grid that is `n` cells wide.
pub fn workgroup_count(n: u32) -> (count: u32)
    ensures
        count == tiles_for(n as int),
        count * TILE >= n,
        (count - 1) * TILE < n,
{
    let whole: u32 = n / TILE;
    if n % TILE == 0 {
        whole
    } else {
        whole + 1
    }
}

} // verus!
