//! The Hover & Neighborhood Propagator: once per frame, recompute from
//! scratch which cell is hovered (the one under the pointer) and which
//! cells are illuminated (its orthogonal neighbors, clipped to the grid),
//! leaving every persistent attribute untouched.

use vstd::prelude::*;

verus! {

use vstd::arithmetic::div_mod::{
    lemma_fundamental_div_mod,
    lemma_fundamental_div_mod_converse,
    lemma_multiply_divide_lt,
};
use crate::grid::TilePos;
use crate::store::{Cell, StoreModel, TileStore, lemma_idx_in_range};

/// Whether `(x, y)` is an orthogonal (up/down/left/right) neighbor of the
/// coordinate `h`; diagonals are excluded.
pub open spec fn orth_adjacent(h: TilePos, x: int, y: int) -> bool {
    ||| y == h.y as int && (x == h.x as int + 1 || x + 1 == h.x as int)
    ||| x == h.x as int && (y == h.y as int + 1 || y + 1 == h.y as int)
}

/// The cell at row-major index `i` after a propagator pass over `m` with
/// hovered coordinate `hovered`: type and rotation persist, the hover
/// flag marks exactly the hovered cell, and the illumination flag marks
/// exactly its orthogonal neighbors.
pub open spec fn refreshed_cell(m: StoreModel, hovered: Option<TilePos>, i: int) -> Cell {
    let x = i % m.width;
    let y = i / m.width;
    Cell {
        type_index: m.cells[i].type_index,
        rotation: m.cells[i].rotation,
        is_hovered: (hovered matches Some(h) && h.x as int == x && h.y as int == y),
        is_illuminated: (hovered matches Some(h) && orth_adjacent(h, x, y)),
    }
}

/// The whole store after a propagator pass: every cell refreshed, the
/// dimensions, the Next-Type Cursor and the rotation counter untouched.
pub open spec fn refreshed(m: StoreModel, hovered: Option<TilePos>) -> StoreModel {
    StoreModel { cells: Seq::new(m.cells.len(), |i: int| refreshed_cell(m, hovered, i)), ..m }
}

/// What a propagator pass leaves at the in-bounds coordinate `(x, y)`,
/// stated over coordinates rather than row-major indices.
pub proof fn lemma_refreshed_cell_at(m: StoreModel, hovered: Option<TilePos>, x: int, y: int)
    requires
        m.wf(),
        m.in_bounds(x, y),
    ensures
        refreshed(m, hovered).cell(x, y) == (Cell {
            type_index: m.cell(x, y).type_index,
            rotation: m.cell(x, y).rotation,
            is_hovered: (hovered matches Some(h) && h.x as int == x && h.y as int == y),
            is_illuminated: (hovered matches Some(h) && orth_adjacent(h, x, y)),
        }),
{
    lemma_idx_in_range(m.width, m.height, x, y);
    lemma_fundamental_div_mod_converse(m.idx(x, y), m.width, y, x);
}

/// The coordinates a propagator pass illuminates around the hovered
/// coordinate `h`: its orthogonal neighbors, clipped to the grid.
pub open spec fn illuminated_coords(m: StoreModel, h: TilePos) -> Set<(int, int)> {
    Set::new(|p: (int, int)| m.in_bounds(p.0, p.1) && orth_adjacent(h, p.0, p.1))
}

/// How many cells a propagator pass illuminates: one per orthogonal
/// neighbor of the hovered coordinate that exists within grid bounds, so
/// 2 at a grid corner, 3 along a grid edge, 4 in the interior.
pub proof fn lemma_neighbor_count(m: StoreModel, h: TilePos)
    requires
        m.wf(),
        m.in_bounds(h.x as int, h.y as int),
    ensures
        forall|x: int, y: int|
            m.in_bounds(x, y) ==> ((#[trigger] refreshed(m, Some(h)).cell(x, y)).is_illuminated
                <==> illuminated_coords(m, h).contains((x, y))),
        illuminated_coords(m, h).finite(),
        illuminated_coords(m, h).len() == (if 0 < h.x {
            1int
        } else {
            0int
        }) + (if h.x as int + 1 < m.width {
            1int
        } else {
            0int
        }) + (if 0 < h.y {
            1int
        } else {
            0int
        }) + (if h.y as int + 1 < m.height {
            1int
        } else {
            0int
        }),
{
    broadcast use vstd::set::group_set_axioms;

    let x = h.x as int;
    let y = h.y as int;
    let s0 = Set::<(int, int)>::empty();
    let s1 = if 0 < x {
        s0.insert((x - 1, y))
    } else {
        s0
    };
    let s2 = if x + 1 < m.width {
        s1.insert((x + 1, y))
    } else {
        s1
    };
    let s3 = if 0 < y {
        s2.insert((x, y - 1))
    } else {
        s2
    };
    let s4 = if y + 1 < m.height {
        s3.insert((x, y + 1))
    } else {
        s3
    };
    assert(illuminated_coords(m, h) =~= s4);
    assert forall|px: int, py: int| m.in_bounds(px, py) implies ((#[trigger] refreshed(
        m,
        Some(h),
    ).cell(px, py)).is_illuminated <==> illuminated_coords(m, h).contains((px, py))) by {
        lemma_refreshed_cell_at(m, Some(h), px, py);
    }
}

/// After a propagator pass at most one cell is hovered, whatever the
/// store held before.
pub proof fn lemma_refresh_single_hover(m: StoreModel, hovered: Option<TilePos>)
    requires
        m.wf(),
    ensures
        forall|i: int, j: int|
            0 <= i < refreshed(m, hovered).cells.len() && 0 <= j < refreshed(
                m,
                hovered,
            ).cells.len() && (#[trigger] refreshed(m, hovered).cells[i]).is_hovered && (
            #[trigger] refreshed(m, hovered).cells[j]).is_hovered ==> i == j,
{
    assert forall|i: int, j: int|
        0 <= i < refreshed(m, hovered).cells.len() && 0 <= j < refreshed(m, hovered).cells.len()
            && (#[trigger] refreshed(m, hovered).cells[i]).is_hovered && (#[trigger] refreshed(
            m,
            hovered,
        ).cells[j]).is_hovered implies i == j by {
        lemma_fundamental_div_mod(i, m.width);
        lemma_fundamental_div_mod(j, m.width);
    }
}

impl TileStore {
    /// One propagator pass.  Clears the hover and illumination flags of
    /// every cell and then, when the resolver yielded a coordinate, marks
    /// that cell hovered and its orthogonal in-bounds neighbors
    /// illuminated; with no coordinate, no cell keeps a flag.  Flags are
    /// recomputed from scratch, so no stale flag survives a hover change;
    /// types, rotations, the cursor and the rotation counter persist.
    pub fn refresh_hover(&mut self, hovered: Option<TilePos>)
        requires
            old(self)@.wf(),
            hovered matches Some(h) ==> old(self)@.in_bounds(h.x as int, h.y as int),
        ensures
            final (self)@.wf(),
            final (self)@ == refreshed(old(self)@, hovered),
            forall|x: int, y: int|
                old(self)@.in_bounds(x, y) ==> (#[trigger] final (self)@.cell(x, y)).is_hovered
                    == (hovered matches Some(h) && h.x as int == x && h.y as int == y),
            forall|x: int, y: int|
                old(self)@.in_bounds(x, y) ==> (#[trigger] final (self)@.cell(
                    x,
                    y,
                )).is_illuminated == (hovered matches Some(h) && orth_adjacent(h, x, y)),
            forall|x: int, y: int|
                old(self)@.in_bounds(x, y) ==> (#[trigger] final (self)@.cell(x, y)).type_index
                    == old(self)@.cell(x, y).type_index && final (self)@.cell(x, y).rotation
                    == old(self)@.cell(x, y).rotation,
    {
        let ghost m0 = self@;
        let w = self.width;
        let h = self.height;
        let n = self.cells.len();
        let mut i: usize = 0;
        while i < n
            invariant
                self.width == w,
                self.height == h,
                self.next == old(self).next,
                self.rot_counter == old(self).rot_counter,
                m0 == old(self)@,
                m0.wf(),
                w as int == m0.width,
                n == self.cells.len(),
                n as int == m0.cells.len(),
                i <= n,
                hovered matches Some(hv) ==> m0.in_bounds(hv.x as int, hv.y as int),
                forall|j: int| 0 <= j < i ==> self.cells@[j] == refreshed_cell(m0, hovered, j),
                forall|j: int| i <= j < n ==> self.cells@[j] == m0.cells[j],
            decreases n - i,
        {
            proof {
                lemma_multiply_divide_lt(i as int, m0.width, m0.height);
            }
            let x: u32 = (i % (w as usize)) as u32;
            let y: u32 = (i / (w as usize)) as u32;
            let (hov, ill) = match hovered {
                Some(hv) => (
                    hv.x == x && hv.y == y,
                    (y == hv.y && (x == hv.x + 1 || x + 1 == hv.x)) || (x == hv.x && (y == hv.y + 1
                        || y + 1 == hv.y)),
                ),
                None => (false, false),
            };
            let c = self.cells[i];
            self.cells[i] = Cell {
                type_index: c.type_index,
                rotation: c.rotation,
                is_hovered: hov,
                is_illuminated: ill,
            };
            i = i + 1;
        }
        proof {
            assert(self@.cells =~= refreshed(m0, hovered).cells);
            assert(self@ =~= refreshed(m0, hovered));
            assert forall|x: int, y: int| m0.in_bounds(x, y) implies (#[trigger] self@.cell(x, y))
                == refreshed(m0, hovered).cell(x, y) && refreshed(m0, hovered).cell(x, y) == (Cell {
                type_index: m0.cell(x, y).type_index,
                rotation: m0.cell(x, y).rotation,
                is_hovered: (hovered matches Some(hv) && hv.x as int == x && hv.y as int == y),
                is_illuminated: (hovered matches Some(hv) && orth_adjacent(hv, x, y)),
            }) by {
                lemma_refreshed_cell_at(m0, hovered, x, y);
            }
        }
    }
}

} // verus!
