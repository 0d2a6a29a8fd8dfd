//! The Tile State Store: a dense grid-indexed table of per-cell persistent
//! attributes (tile type, rotation, hover and illumination flags) together
//! with the global Next-Type Cursor that selects which tile type the next
//! placement stamps.

use vstd::prelude::*;

verus! {

use crate::grid::TilePos;

/// One of the four discrete orientations a placed tile can have: the
/// identity and three successive quarter turns, each rendered through a
/// flip/diagonal flag combination (see [`RotationState::flip`]).
#[derive(Clone, Copy, Debug, PartialEq, Eq, Structural)]
pub enum RotationState {
    Deg0,
    Deg90,
    Deg180,
    Deg270,
}

/// The flip/diagonal transform flags the renderer applies to a tile's
/// sprite: mirror across the x axis, across the y axis, and across the
/// diagonal.
#[derive(Clone, Copy, Debug, PartialEq, Eq, Structural)]
pub struct TileFlip {
    pub x: bool,
    pub y: bool,
    pub d: bool,
}

impl RotationState {
    /// The flag combination that renders this orientation.
    pub open spec fn flip_spec(self) -> TileFlip {
        match self {
            RotationState::Deg0 => TileFlip { x: false, y: false, d: false },
            RotationState::Deg90 => TileFlip { x: true, y: false, d: true },
            RotationState::Deg180 => TileFlip { x: true, y: true, d: false },
            RotationState::Deg270 => TileFlip { x: false, y: true, d: true },
        }
    }

    /// The flip/diagonal flag set the renderer uses for this orientation.
    pub fn flip(&self) -> (r: TileFlip)
        ensures
            r == self.flip_spec(),
    {
        match self {
            RotationState::Deg0 => TileFlip { x: false, y: false, d: false },
            RotationState::Deg90 => TileFlip { x: true, y: false, d: true },
            RotationState::Deg180 => TileFlip { x: true, y: true, d: false },
            RotationState::Deg270 => TileFlip { x: false, y: true, d: true },
        }
    }
}

/// The orientation the shared rotation counter selects: the counter walks
/// the fixed 4-cycle identity, quarter, half, three-quarter turn.
pub open spec fn rotation_for(counter: int) -> RotationState {
    if counter % 4 == 0 {
        RotationState::Deg0
    } else if counter % 4 == 1 {
        RotationState::Deg90
    } else if counter % 4 == 2 {
        RotationState::Deg180
    } else {
        RotationState::Deg270
    }
}

/// The orientation the shared rotation counter `counter` selects.
pub fn rotation_of(counter: u32) -> (r: RotationState)
    ensures
        r == rotation_for(counter as int),
{
    let rem = counter % 4;
    if rem == 0 {
        RotationState::Deg0
    } else if rem == 1 {
        RotationState::Deg90
    } else if rem == 2 {
        RotationState::Deg180
    } else {
        RotationState::Deg270
    }
}

/// One grid cell's persistent attribute bundle.
#[derive(Clone, Copy, Debug, PartialEq, Eq)]
pub struct Cell {
    /// The placed tile type, selecting the texture the renderer shows;
    /// `None` means empty, rendered as texture index 0.  Once placed it
    /// persists until another placement overwrites it.
    pub type_index: Option<u32>,
    /// The cell's orientation; persists across frames, identity at start.
    pub rotation: RotationState,
    /// Whether the pointer is over this cell; recomputed every frame.
    pub is_hovered: bool,
    /// Whether this cell is an orthogonal neighbor of the hovered cell;
    /// recomputed every frame.
    pub is_illuminated: bool,
}

impl Cell {
    /// The state every cell starts in: empty, identity orientation, no
    /// flags set.
    pub open spec fn empty_spec() -> Cell {
        Cell { type_index: None, rotation: RotationState::Deg0, is_hovered: false, is_illuminated: false }
    }

    /// A fresh, empty cell.
    pub fn empty() -> (c: Cell)
        ensures
            c == Cell::empty_spec(),
    {
        Cell { type_index: None, rotation: RotationState::Deg0, is_hovered: false, is_illuminated: false }
    }
}

/// The two-color scheme the renderer derives from the illumination flag:
/// a highlight color for cells next to the hovered one, a neutral default
/// for every other cell.
#[derive(Clone, Copy, Debug, PartialEq, Eq, Structural)]
pub enum TileTint {
    Highlight,
    Neutral,
}

/// The color choice the renderer gives this cell: the highlight color
/// exactly when the cell is illuminated.
pub fn render_tint(cell: &Cell) -> (r: TileTint)
    ensures
        r == TileTint::Highlight <==> cell.is_illuminated,
{
    if cell.is_illuminated {
        TileTint::Highlight
    } else {
        TileTint::Neutral
    }
}

/// The texture index the cell shows when the Next-Type Cursor holds
/// `next`: a hovered cell previews the type the next placement would
/// stamp; every other cell shows its placed type, or 0 when empty.
pub open spec fn texture_spec(cell: Cell, next: u32) -> u32 {
    if cell.is_hovered {
        next
    } else {
        match cell.type_index {
            Some(t) => t,
            None => 0,
        }
    }
}

/// The texture index the renderer shows for this cell each frame.
pub fn render_texture_index(cell: &Cell, next: &NextTileTextureIndex) -> (r: u32)
    ensures
        r == texture_spec(*cell, next.0),
{
    if cell.is_hovered {
        next.0
    } else {
        match cell.type_index {
            Some(t) => t,
            None => 0,
        }
    }
}

/// The Next-Type Cursor: the process-wide selector, cyclic in `[1, 4]`,
/// of the tile type the next placement stamps.
#[derive(Clone, Copy, Debug, PartialEq, Eq, Structural)]
pub struct NextTileTextureIndex(pub u32);

/// One advance of the Next-Type Cursor: `(c % 4) + 1`, so repeated
/// advances from 1 walk the cycle 1, 2, 3, 4, 1, ...
pub open spec fn next_type_spec(c: u32) -> u32 {
    ((c % 4) + 1) as u32
}

/// The Next-Type Cursor walks exactly the cycle 1, 2, 3, 4, 1, ...: each
/// advance from a value of the cycle yields the next one, stays within
/// `[1, 4]`, and four advances return to the start.
pub proof fn lemma_cursor_cycle(c: u32)
    requires
        1 <= c <= 4,
    ensures
        1 <= next_type_spec(c) <= 4,
        next_type_spec(c) as int == if c == 4 {
            1int
        } else {
            c as int + 1
        },
        next_type_spec(next_type_spec(next_type_spec(next_type_spec(c)))) == c,
{
}

impl Default for NextTileTextureIndex {
    /// The cursor starts at the first tile type.
    fn default() -> (r: NextTileTextureIndex)
        ensures
            r.0 == 1,
    {
        NextTileTextureIndex(1)
    }
}

impl NextTileTextureIndex {
    /// Advances the cursor one step along its cycle.  The result is never
    /// 0 and never exceeds 4, whatever the cursor held before.
    pub fn next(&mut self)
        ensures
            final (self).0 == next_type_spec(old(self).0),
            1 <= final (self).0 <= 4,
    {
        self.0 = (self.0 % 4) + 1;
    }
}

/// The mathematical model of a [`TileStore`]: the grid's dimensions, the
/// sequence of cells in row-major order (`y * width + x`), the Next-Type
/// Cursor, and the shared rotation counter.
#[verifier::ext_equal]
pub struct StoreModel {
    pub width: int,
    pub height: int,
    pub cells: Seq<Cell>,
    pub next: u32,
    pub rot_counter: u32,
}

impl StoreModel {
    /// Well-formedness: positive dimensions matched by the cell table's
    /// length, the cursor within its cyclic range, the rotation counter
    /// within its 4-cycle.
    pub open spec fn wf(self) -> bool {
        &&& 0 < self.width <= 0x8000
        &&& 0 < self.height <= 0x8000
        &&& self.cells.len() == self.width * self.height
        &&& 1 <= self.next <= 4
        &&& self.rot_counter < 4
    }

    /// Whether `(x, y)` is a coordinate of this store's grid.
    pub open spec fn in_bounds(self, x: int, y: int) -> bool {
        0 <= x < self.width && 0 <= y < self.height
    }

    /// The row-major index of coordinate `(x, y)`.
    pub open spec fn idx(self, x: int, y: int) -> int {
        y * self.width + x
    }

    /// The cell at coordinate `(x, y)`.
    pub open spec fn cell(self, x: int, y: int) -> Cell {
        self.cells[self.idx(x, y)]
    }
}

/// A row-major index formed from an in-bounds coordinate is itself in
/// range of the cell table.
pub proof fn lemma_idx_in_range(w: int, h: int, x: int, y: int)
    requires
        0 <= x < w,
        0 <= y < h,
    ensures
        0 <= y * w + x < h * w,
        0 <= y * w + x < w * h,
{
    assert(0 <= y * w + x < h * w && 0 <= y * w + x < w * h) by (nonlinear_arith)
        requires
            0 <= x < w,
            0 <= y < h,
    ;
}

/// The Tile State Store: one [`Cell`] per grid coordinate in a dense
/// row-major table, fixed dimensions set at construction, plus the
/// Next-Type Cursor and the shared rotation counter.
pub struct TileStore {
    pub width: u32,
    pub height: u32,
    pub cells: Vec<Cell>,
    pub next: NextTileTextureIndex,
    pub rot_counter: u32,
}

impl View for TileStore {
    type V = StoreModel;

    open spec fn view(&self) -> StoreModel {
        StoreModel {
            width: self.width as int,
            height: self.height as int,
            cells: self.cells@,
            next: self.next.0,
            rot_counter: self.rot_counter,
        }
    }
}

impl TileStore {
    /// Builds the store for a `width` by `height` grid, every cell empty,
    /// the Next-Type Cursor at 1 and the rotation counter at 0.  The
    /// dimension bounds keep the cell count within addressable range.
    pub fn new(width: u32, height: u32) -> (s: TileStore)
        requires
            0 < width <= 0x8000,
            0 < height <= 0x8000,
        ensures
            s@.wf(),
            s@.width == width as int,
            s@.height == height as int,
            s@.next == 1,
            s@.rot_counter == 0,
            forall|i: int| 0 <= i < s@.cells.len() ==> s@.cells[i] == Cell::empty_spec(),
    {
        proof {
            assert(width * height <= 0x4000_0000) by (nonlinear_arith)
                requires
                    0 < width <= 0x8000,
                    0 < height <= 0x8000,
            ;
        }
        let n: usize = (width as usize) * (height as usize);
        let mut cells: Vec<Cell> = Vec::new();
        while cells.len() < n
            invariant
                cells.len() <= n,
                forall|i: int| 0 <= i < cells.len() ==> cells@[i] == Cell::empty_spec(),
            decreases n - cells.len(),
        {
            cells.push(Cell::empty());
        }
        TileStore {
            width,
            height,
            cells,
            next: NextTileTextureIndex(1),
            rot_counter: 0,
        }
    }

    /// Row-major index of the in-bounds coordinate `pos`, in range of the
    /// cell table.
    fn index_of(&self, pos: TilePos) -> (i: usize)
        requires
            self@.wf(),
            self@.in_bounds(pos.x as int, pos.y as int),
        ensures
            i as int == self@.idx(pos.x as int, pos.y as int),
            i < self.cells.len(),
    {
        proof {
            lemma_idx_in_range(self@.width, self@.height, pos.x as int, pos.y as int);
            assert(self@.height * self@.width <= 0x4000_0000) by (nonlinear_arith)
                requires
                    0 < self@.width <= 0x8000,
                    0 < self@.height <= 0x8000,
            ;
        }
        (pos.y as usize) * (self.width as usize) + (pos.x as usize)
    }

    /// The cell at the in-bounds coordinate `pos`.
    pub fn cell_at(&self, pos: TilePos) -> (c: Cell)
        requires
            self@.wf(),
            self@.in_bounds(pos.x as int, pos.y as int),
        ensures
            c == self@.cell(pos.x as int, pos.y as int),
    {
        let i = self.index_of(pos);
        self.cells[i]
    }

    /// Sets the placed tile type of the cell at `pos`, leaving every
    /// other attribute and every other cell unchanged.
    pub fn set_type_index(&mut self, pos: TilePos, t: Option<u32>)
        requires
            old(self)@.wf(),
            old(self)@.in_bounds(pos.x as int, pos.y as int),
        ensures
            final (self)@.wf(),
            final (self)@ == (StoreModel {
                cells: old(self)@.cells.update(
                    old(self)@.idx(pos.x as int, pos.y as int),
                    (Cell {
                        type_index: t,
                        ..old(self)@.cell(pos.x as int, pos.y as int)
                    }),
                ),
                ..old(self)@
            }),
    {
        let i = self.index_of(pos);
        let c = self.cells[i];
        self.cells[i] = Cell { type_index: t, ..c };
    }

    /// Sets the orientation of the cell at `pos`, leaving every other
    /// attribute and every other cell unchanged.
    pub fn set_rotation(&mut self, pos: TilePos, r: RotationState)
        requires
            old(self)@.wf(),
            old(self)@.in_bounds(pos.x as int, pos.y as int),
        ensures
            final (self)@.wf(),
            final (self)@ == (StoreModel {
                cells: old(self)@.cells.update(
                    old(self)@.idx(pos.x as int, pos.y as int),
                    (Cell {
                        rotation: r,
                        ..old(self)@.cell(pos.x as int, pos.y as int)
                    }),
                ),
                ..old(self)@
            }),
    {
        let i = self.index_of(pos);
        let c = self.cells[i];
        self.cells[i] = Cell { rotation: r, ..c };
    }
}

} // verus!
