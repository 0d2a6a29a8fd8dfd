//! One editing session: the grid's fixed geometry, the last known pointer
//! position, and the Tile State Store, driven frame by frame.  Each frame
//! runs the strict sequence the core prescribes: cursor update, then
//! coordinate resolution, then hover propagation, then event translation,
//! so the translator always acts on the current frame's hover flags.

use vstd::prelude::*;

verus! {

use crate::events::{InputEvent, cursor_after, update_cursor_pos};
use crate::grid::{CursorPos, GridConfig, TilePos, resolve, resolve_spec};
use crate::hover::{lemma_refreshed_cell_at, orth_adjacent, refreshed};
use crate::store::{StoreModel, TileStore, lemma_idx_in_range};
use crate::translate::{store_after_action, store_after_events};

/// No input event moves a tile attribute's hover or illumination flag,
/// nor the grid's dimensions: only the propagator touches the flags, only
/// construction fixes the dimensions.
pub proof fn lemma_action_preserves_frame_flags(m: StoreModel, ev: InputEvent)
    ensures
        store_after_action(m, ev).width == m.width,
        store_after_action(m, ev).height == m.height,
        store_after_action(m, ev).cells.len() == m.cells.len(),
        forall|i: int|
            0 <= i < m.cells.len() ==> (#[trigger] store_after_action(m, ev).cells[i]).is_hovered
                == m.cells[i].is_hovered && store_after_action(m, ev).cells[i].is_illuminated
                == m.cells[i].is_illuminated,
{
}

/// A whole frame's events leave the hover and illumination flags, and the
/// grid's dimensions, exactly as the propagator set them.
pub proof fn lemma_events_preserve_frame_flags(m: StoreModel, evs: Seq<InputEvent>)
    ensures
        store_after_events(m, evs).width == m.width,
        store_after_events(m, evs).height == m.height,
        store_after_events(m, evs).cells.len() == m.cells.len(),
        forall|i: int|
            0 <= i < m.cells.len() ==> (#[trigger] store_after_events(m, evs).cells[i]).is_hovered
                == m.cells[i].is_hovered && store_after_events(m, evs).cells[i].is_illuminated
                == m.cells[i].is_illuminated,
    decreases evs.len(),
{
    if evs.len() > 0 {
        lemma_action_preserves_frame_flags(m, evs[0]);
        lemma_events_preserve_frame_flags(store_after_action(m, evs[0]), evs.drop_first());
    }
}

/// One editing session over a fixed grid.
pub struct Session {
    pub config: GridConfig,
    pub cursor: CursorPos,
    pub store: TileStore,
}

impl Session {
    /// Well-formedness: a well-formed geometry, a well-formed store, and
    /// a store whose coordinate space exactly matches the grid's declared
    /// dimensions.
    pub open spec fn wf(self) -> bool {
        &&& self.config.wf()
        &&& self.store@.wf()
        &&& self.store@.width == self.config.width as int
        &&& self.store@.height == self.config.height as int
    }

    /// Opens a session on the grid `config` describes: every cell empty,
    /// the Next-Type Cursor at 1, the rotation counter at 0, and the
    /// pointer at its far-away sentinel so nothing is hovered.
    pub fn new(config: GridConfig) -> (s: Session)
        requires
            config.wf(),
        ensures
            s.wf(),
            s.config == config,
            s.cursor == (CursorPos { x: crate::grid::FAR_AWAY, y: crate::grid::FAR_AWAY }),
            s.store@.next == 1,
            s.store@.rot_counter == 0,
            forall|i: int|
                0 <= i < s.store@.cells.len() ==> s.store@.cells[i]
                    == crate::store::Cell::empty_spec(),
    {
        Session {
            config,
            cursor: CursorPos::default(),
            store: TileStore::new(config.width, config.height),
        }
    }

    /// Runs one frame: drains this frame's pointer movements into the
    /// cursor, resolves the cursor to a hovered coordinate, recomputes
    /// the hover and illumination flags from it, then applies the frame's
    /// press events in arrival order against those fresh flags.
    ///
    /// Afterwards a cell is hovered exactly when the (updated) cursor
    /// resolves to it, and illuminated exactly when it is an orthogonal
    /// in-bounds neighbor of the hovered cell; the tile types, rotations
    /// and Next-Type Cursor are what the frame's events made of them.
    pub fn frame(&mut self, events: &Vec<InputEvent>)
        requires
            old(self).wf(),
        ensures
            final (self).wf(),
            final (self).config == old(self).config,
            final (self).cursor == cursor_after(old(self).cursor, events@),
            final (self).store@ == store_after_events(
                refreshed(
                    old(self).store@,
                    resolve_spec(
                        old(self).config,
                        final (self).cursor.x as int,
                        final (self).cursor.y as int,
                    ),
                ),
                events@,
            ),
            forall|x: int, y: int|
                old(self).store@.in_bounds(x, y) ==> (#[trigger] final (self).store@.cell(
                    x,
                    y,
                )).is_hovered == (resolve_spec(
                    old(self).config,
                    final (self).cursor.x as int,
                    final (self).cursor.y as int,
                ) matches Some(h) && h.x as int == x && h.y as int == y),
            forall|x: int, y: int|
                old(self).store@.in_bounds(x, y) ==> (#[trigger] final (self).store@.cell(
                    x,
                    y,
                )).is_illuminated == (resolve_spec(
                    old(self).config,
                    final (self).cursor.x as int,
                    final (self).cursor.y as int,
                ) matches Some(h) && orth_adjacent(h, x, y)),
    {
        update_cursor_pos(&mut self.cursor, events);
        let hovered = resolve(&self.config, &self.cursor);
        proof {
            if hovered is Some {
                assert(self.store@.in_bounds(
                    hovered->Some_0.x as int,
                    hovered->Some_0.y as int,
                ));
            }
        }
        self.store.refresh_hover(hovered);
        let ghost mr = self.store@;
        let ghost evs = events@;
        let n = events.len();
        proof {
            assert(evs.subrange(0, n as int) =~= evs);
        }
        let mut k: usize = 0;
        while k < n
            invariant
                self.config == old(self).config,
                self.config.wf(),
                self.cursor == cursor_after(old(self).cursor, evs),
                evs == events@,
                n == events.len(),
                k <= n,
                self.store@.wf(),
                self.store@.width == self.config.width as int,
                self.store@.height == self.config.height as int,
                store_after_events(mr, evs) == store_after_events(
                    self.store@,
                    evs.subrange(k as int, n as int),
                ),
            decreases n - k,
        {
            proof {
                assert(evs.subrange(k as int, n as int)[0] == evs[k as int]);
                assert(evs.subrange(k as int, n as int).drop_first() =~= evs.subrange(
                    k as int + 1,
                    n as int,
                ));
            }
            self.store.apply_action(&events[k]);
            k = k + 1;
        }
        proof {
            assert(evs.subrange(n as int, n as int) =~= Seq::<InputEvent>::empty());
            assert(store_after_events(mr, evs) == self.store@);
            let ghost hov = resolve_spec(
                old(self).config,
                self.cursor.x as int,
                self.cursor.y as int,
            );
            lemma_events_preserve_frame_flags(mr, evs);
            assert forall|x: int, y: int| old(self).store@.in_bounds(x, y) implies {
                &&& (#[trigger] self.store@.cell(x, y)).is_hovered == (hov matches Some(h) && h.x
                    as int == x && h.y as int == y)
                &&& self.store@.cell(x, y).is_illuminated == (hov matches Some(h) && orth_adjacent(
                    h,
                    x,
                    y,
                ))
            } by {
                lemma_idx_in_range(mr.width, mr.height, x, y);
                lemma_refreshed_cell_at(old(self).store@, hov, x, y);
            }
        }
    }
}

} // verus!
