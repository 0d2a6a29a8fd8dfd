//! Coordinate resolution: mapping a continuous pointer position in world
//! space to a discrete grid coordinate, or to "no cell" when the pointer
//! lies outside the grid.

use vstd::prelude::*;

verus! {

use vstd::arithmetic::div_mod::lemma_multiply_divide_lt;

/// A discrete grid coordinate, with `(0, 0)` the cell whose corner sits at
/// the grid's world-space origin.
#[derive(Clone, Copy, Debug, PartialEq, Eq, Structural)]
pub struct TilePos {
    pub x: u32,
    pub y: u32,
}

/// The sentinel world coordinate a cursor starts at before any pointer
/// movement has been observed.  It is far below the range that a
/// well-formed [`GridConfig`] can reach, so it never resolves to a cell
/// (see [`lemma_sentinel_resolves_to_none`]).
pub const FAR_AWAY: i64 = -0x2000_0000_0000_0000;

/// Last known pointer position in world coordinates.
#[derive(Clone, Copy, Debug, PartialEq, Eq, Structural)]
pub struct CursorPos {
    pub x: i64,
    pub y: i64,
}

impl Default for CursorPos {
    /// Before any pointer movement arrives the cursor sits at a sentinel
    /// far outside every grid, so no cell is spuriously hovered.
    fn default() -> (c: CursorPos)
        ensures
            c.x == FAR_AWAY,
            c.y == FAR_AWAY,
    {
        CursorPos { x: FAR_AWAY, y: FAR_AWAY }
    }
}

/// The grid's fixed geometry: its dimensions in cells, the side length of
/// one square cell in world units, and the world coordinates of the
/// corner of cell `(0, 0)` (the grid's placement transform, a pure
/// translation of an axis-aligned orthogonal grid).
#[derive(Clone, Copy, Debug, PartialEq, Eq, Structural)]
pub struct GridConfig {
    pub width: u32,
    pub height: u32,
    pub cell_size: u32,
    pub origin_x: i64,
    pub origin_y: i64,
}

impl GridConfig {
    /// Well-formedness: positive dimensions and cell size, with generous
    /// bounds that keep every world-space computation in range and keep
    /// the cursor sentinel outside every grid.
    pub open spec fn wf(self) -> bool {
        &&& 0 < self.width <= 0x8000
        &&& 0 < self.height <= 0x8000
        &&& 0 < self.cell_size <= 0x10_0000
        &&& -0x100_0000_0000 <= self.origin_x <= 0x100_0000_0000
        &&& -0x100_0000_0000 <= self.origin_y <= 0x100_0000_0000
    }

    /// Whether `(x, y)` is a valid cell coordinate of this grid.
    pub open spec fn in_bounds(self, x: int, y: int) -> bool {
        0 <= x < self.width && 0 <= y < self.height
    }

    /// Whether the world position `(px, py)` falls strictly inside the
    /// grid's world-space footprint.
    pub open spec fn world_contains(self, px: int, py: int) -> bool {
        &&& 0 <= px - self.origin_x < self.width * self.cell_size
        &&& 0 <= py - self.origin_y < self.height * self.cell_size
    }
}

/// The coordinate the resolver yields for the world position `(px, py)`:
/// the pointer position is carried into grid-local space by inverting the
/// grid's translation, then floor-divided by the cell size; positions
/// outside the grid's footprint yield no cell.
pub open spec fn resolve_spec(cfg: GridConfig, px: int, py: int) -> Option<TilePos> {
    if cfg.world_contains(px, py) {
        Some(
            TilePos {
                x: ((px - cfg.origin_x) / (cfg.cell_size as int)) as u32,
                y: ((py - cfg.origin_y) / (cfg.cell_size as int)) as u32,
            },
        )
    } else {
        None
    }
}

/// Resolves the cursor's world position to the grid coordinate under it.
///
/// Every position strictly inside the grid's world-space bounds yields a
/// coordinate within `[0, width) x [0, height)`; every position outside
/// them yields `None`.
pub fn resolve(cfg: &GridConfig, cursor: &CursorPos) -> (r: Option<TilePos>)
    requires
        cfg.wf(),
    ensures
        r == resolve_spec(*cfg, cursor.x as int, cursor.y as int),
        r is Some <==> cfg.world_contains(cursor.x as int, cursor.y as int),
        r matches Some(p) ==> cfg.in_bounds(p.x as int, p.y as int),
{
    let cs: i128 = cfg.cell_size as i128;
    let lx: i128 = cursor.x as i128 - cfg.origin_x as i128;
    let ly: i128 = cursor.y as i128 - cfg.origin_y as i128;
    proof {
        assert(cfg.width * cfg.cell_size <= 0x8000 * 0x10_0000 && cfg.height * cfg.cell_size
            <= 0x8000 * 0x10_0000) by (nonlinear_arith)
            requires
                0 < cfg.width <= 0x8000,
                0 < cfg.height <= 0x8000,
                0 < cfg.cell_size <= 0x10_0000,
        ;
    }
    let wext: i128 = cfg.width as i128 * cs;
    let hext: i128 = cfg.height as i128 * cs;
    if 0 <= lx && lx < wext && 0 <= ly && ly < hext {
        proof {
            lemma_multiply_divide_lt(lx as int, cs as int, cfg.width as int);
            lemma_multiply_divide_lt(ly as int, cs as int, cfg.height as int);
        }
        let x: u32 = ((lx as u128) / (cs as u128)) as u32;
        let y: u32 = ((ly as u128) / (cs as u128)) as u32;
        Some(TilePos { x, y })
    } else {
        None
    }
}

/// A cursor still at its sentinel position never resolves to a cell, for
/// every well-formed grid.
pub proof fn lemma_sentinel_resolves_to_none(cfg: GridConfig)
    requires
        cfg.wf(),
    ensures
        resolve_spec(cfg, FAR_AWAY as int, FAR_AWAY as int) is None,
{
    assert(cfg.width * cfg.cell_size <= 0x8000 * 0x10_0000) by (nonlinear_arith)
        requires
            0 < cfg.width <= 0x8000 && 0 < cfg.cell_size <= 0x10_0000,
    ;
}

} // verus!
