//! The Input-to-Mutation Translator: applies the frame's discrete input
//! events, in arrival order, to the Tile State Store.  A left-button
//! press stamps the Next-Type Cursor's value on every hovered cell, a
//! right-button press turns every hovered cell to the next state of the
//! shared rotation counter's 4-cycle, a space-key press advances the
//! Next-Type Cursor; releases and every other button or key are ignored,
//! and a press with no hovered cell is a silent no-op.

use vstd::prelude::*;

verus! {

use crate::events::{InputEvent, KeyId, PointerButtonId, PressEdge};
use crate::store::{Cell, StoreModel, TileStore, next_type_spec, rotation_for, rotation_of};

/// Whether any cell of `m` is currently hovered.
pub open spec fn any_hovered(m: StoreModel) -> bool {
    exists|i: int| 0 <= i < m.cells.len() && (#[trigger] m.cells[i]).is_hovered
}

/// The store after a left-button press: every hovered cell's type becomes
/// the Next-Type Cursor's value; nothing else changes.
pub open spec fn placed(m: StoreModel) -> StoreModel {
    StoreModel {
        cells: m.cells.map(
            |i: int, c: Cell|
                if c.is_hovered {
                    Cell { type_index: Some(m.next), ..c }
                } else {
                    c
                },
        ),
        ..m
    }
}

/// The store after a right-button press: when some cell is hovered, the
/// shared rotation counter advances one step of its 4-cycle and every
/// hovered cell turns to the orientation that counter value selects, in
/// lockstep; with no hovered cell nothing changes.
pub open spec fn rotated(m: StoreModel) -> StoreModel {
    if any_hovered(m) {
        let rc = ((m.rot_counter + 1) % 4) as u32;
        StoreModel {
            rot_counter: rc,
            cells: m.cells.map(
                |i: int, c: Cell|
                    if c.is_hovered {
                        Cell { rotation: rotation_for(rc as int), ..c }
                    } else {
                        c
                    },
            ),
            ..m
        }
    } else {
        m
    }
}

/// The store after a space-key press: the Next-Type Cursor advances one
/// step of its cycle; nothing else changes.
pub open spec fn cursor_advanced(m: StoreModel) -> StoreModel {
    StoreModel { next: next_type_spec(m.next), ..m }
}

/// The store after one input event: the three press events act as above,
/// every release and every other button, key or pointer movement leaves
/// the store unchanged.
pub open spec fn store_after_action(m: StoreModel, ev: InputEvent) -> StoreModel {
    match ev {
        InputEvent::PointerButton { button: PointerButtonId::Left, edge: PressEdge::Pressed } => placed(
            m,
        ),
        InputEvent::PointerButton { button: PointerButtonId::Right, edge: PressEdge::Pressed } => rotated(
            m,
        ),
        InputEvent::Key { key: KeyId::Space, edge: PressEdge::Pressed } => cursor_advanced(m),
        _ => m,
    }
}

/// The store after a whole frame's events, applied in arrival order.
pub open spec fn store_after_events(m: StoreModel, evs: Seq<InputEvent>) -> StoreModel
    decreases evs.len(),
{
    if evs.len() == 0 {
        m
    } else {
        store_after_events(store_after_action(m, evs[0]), evs.drop_first())
    }
}

/// Persistence of a cell's placed state: an input event changes a cell's
/// orientation only when it is a right press and the cell is hovered,
/// changes a cell's tile type only when it is a left press and the cell
/// is hovered, and then to the Next-Type Cursor's value, and never
/// clears a placed type back to empty.
pub proof fn lemma_placed_state_persists(m: StoreModel, ev: InputEvent)
    ensures
        forall|i: int|
            0 <= i < m.cells.len() ==> (#[trigger] store_after_action(m, ev).cells[i]).rotation
                == m.cells[i].rotation || (ev == (InputEvent::PointerButton {
                button: PointerButtonId::Right,
                edge: PressEdge::Pressed,
            }) && m.cells[i].is_hovered),
        forall|i: int|
            0 <= i < m.cells.len() ==> (#[trigger] store_after_action(m, ev).cells[i]).type_index
                == m.cells[i].type_index || (ev == (InputEvent::PointerButton {
                button: PointerButtonId::Left,
                edge: PressEdge::Pressed,
            }) && m.cells[i].is_hovered && store_after_action(m, ev).cells[i].type_index == Some(
                m.next,
            )),
        forall|i: int|
            0 <= i < m.cells.len() && (#[trigger] m.cells[i]).type_index is Some ==> store_after_action(
                m,
                ev,
            ).cells[i].type_index is Some,
{
}

/// Placement is idempotent: with the same hovered cells and the same
/// Next-Type Cursor value, a second left-button press in succession
/// leaves exactly the tile types the first one produced.
pub proof fn lemma_place_idempotent(m: StoreModel, ev: InputEvent)
    requires
        ev == (InputEvent::PointerButton {
            button: PointerButtonId::Left,
            edge: PressEdge::Pressed,
        }),
    ensures
        store_after_action(store_after_action(m, ev), ev) == store_after_action(m, ev),
{
    let m1 = placed(m);
    assert(placed(m1).cells =~= m1.cells);
    assert(placed(m1) =~= m1);
}

/// The rotation cycle has length exactly 4: four right-button presses
/// with the same hovered cells return the shared counter, and with it
/// every hovered cell's orientation, to where they started, provided
/// each hovered cell's orientation agrees with the shared counter, as it
/// does in a fresh store and after any rotation that targeted the cell.
pub proof fn lemma_rotation_cycle(m: StoreModel, ev: InputEvent)
    requires
        m.wf(),
        ev == (InputEvent::PointerButton {
            button: PointerButtonId::Right,
            edge: PressEdge::Pressed,
        }),
        forall|i: int|
            0 <= i < m.cells.len() && (#[trigger] m.cells[i]).is_hovered ==> m.cells[i].rotation
                == rotation_for(m.rot_counter as int),
    ensures
        store_after_action(
            store_after_action(store_after_action(store_after_action(m, ev), ev), ev),
            ev,
        ) == m,
{
    if any_hovered(m) {
        let w = choose|i: int| 0 <= i < m.cells.len() && (#[trigger] m.cells[i]).is_hovered;
        let m1 = rotated(m);
        assert(m1.cells[w].is_hovered && 0 <= w < m1.cells.len());
        let m2 = rotated(m1);
        assert(m2.cells[w].is_hovered && 0 <= w < m2.cells.len());
        let m3 = rotated(m2);
        assert(m3.cells[w].is_hovered && 0 <= w < m3.cells.len());
        let m4 = rotated(m3);
        assert(m4.rot_counter == m.rot_counter);
        assert forall|i: int| 0 <= i < m.cells.len() implies m4.cells[i] == m.cells[i] by {
            if m.cells[i].is_hovered {
                assert(m4.cells[i].rotation == rotation_for(m.rot_counter as int));
            }
        }
        assert(m4.cells =~= m.cells);
        assert(m4 =~= m);
    } else {
        assert(rotated(m) == m);
    }
}

impl TileStore {
    /// Stamps the Next-Type Cursor's value as the tile type of every
    /// currently hovered cell, leaving every other cell and every other
    /// attribute unchanged.
    pub fn place_on_hovered(&mut self)
        requires
            old(self)@.wf(),
        ensures
            final (self)@.wf(),
            final (self)@ == placed(old(self)@),
    {
        let ghost m0 = self@;
        let n = self.cells.len();
        let t = self.next.0;
        let mut i: usize = 0;
        while i < n
            invariant
                self.width == old(self).width,
                self.height == old(self).height,
                self.next == old(self).next,
                self.rot_counter == old(self).rot_counter,
                m0 == old(self)@,
                m0.wf(),
                t == m0.next,
                n == self.cells.len(),
                n as int == m0.cells.len(),
                i <= n,
                forall|j: int| 0 <= j < i ==> self.cells@[j] == placed(m0).cells[j],
                forall|j: int| i <= j < n ==> self.cells@[j] == m0.cells[j],
            decreases n - i,
        {
            if self.cells[i].is_hovered {
                let c = self.cells[i];
                self.cells[i] = Cell { type_index: Some(t), ..c };
            }
            i = i + 1;
        }
        proof {
            assert(self@.cells =~= placed(m0).cells);
            assert(self@ =~= placed(m0));
        }
    }

    /// Turns every currently hovered cell to the next state of the shared
    /// rotation counter's 4-cycle.  When no cell is hovered, neither the
    /// counter nor any cell changes.
    pub fn rotate_hovered(&mut self)
        requires
            old(self)@.wf(),
        ensures
            final (self)@.wf(),
            final (self)@ == rotated(old(self)@),
    {
        let ghost m0 = self@;
        let n = self.cells.len();
        let mut found = false;
        let mut i: usize = 0;
        while i < n
            invariant
                self == old(self),
                m0 == self@,
                n == self.cells.len(),
                i <= n,
                found <==> exists|j: int| 0 <= j < i && (#[trigger] m0.cells[j]).is_hovered,
            decreases n - i,
        {
            if self.cells[i].is_hovered {
                found = true;
            }
            i = i + 1;
        }
        if !found {
            proof {
                assert(!any_hovered(m0));
            }
            return;
        }
        assert(any_hovered(m0));
        let rc = (self.rot_counter + 1) % 4;
        self.rot_counter = rc;
        let r = rotation_of(rc);
        let mut k: usize = 0;
        while k < n
            invariant
                self.width == old(self).width,
                self.height == old(self).height,
                self.next == old(self).next,
                self.rot_counter == rc,
                rc as int == (m0.rot_counter + 1) % 4,
                r == rotation_for(rc as int),
                m0 == old(self)@,
                m0.wf(),
                any_hovered(m0),
                n == self.cells.len(),
                n as int == m0.cells.len(),
                k <= n,
                forall|j: int| 0 <= j < k ==> self.cells@[j] == rotated(m0).cells[j],
                forall|j: int| k <= j < n ==> self.cells@[j] == m0.cells[j],
            decreases n - k,
        {
            if self.cells[k].is_hovered {
                let c = self.cells[k];
                self.cells[k] = Cell { rotation: r, ..c };
            }
            k = k + 1;
        }
        proof {
            assert(self@.cells =~= rotated(m0).cells);
            assert(self@ =~= rotated(m0));
        }
    }

    /// Advances the Next-Type Cursor one step of its cycle.
    pub fn advance_next_type(&mut self)
        requires
            old(self)@.wf(),
        ensures
            final (self)@.wf(),
            final (self)@ == cursor_advanced(old(self)@),
    {
        self.next.next();
    }

    /// Applies one input event to the store, as the translator's contract
    /// prescribes: place on a left press, rotate on a right press,
    /// advance the cursor on a space press, ignore everything else.
    pub fn apply_action(&mut self, ev: &InputEvent)
        requires
            old(self)@.wf(),
        ensures
            final (self)@.wf(),
            final (self)@ == store_after_action(old(self)@, *ev),
    {
        match *ev {
            InputEvent::PointerButton { button: PointerButtonId::Left, edge: PressEdge::Pressed } => {
                self.place_on_hovered();
            },
            InputEvent::PointerButton {
                button: PointerButtonId::Right,
                edge: PressEdge::Pressed,
            } => {
                self.rotate_hovered();
            },
            InputEvent::Key { key: KeyId::Space, edge: PressEdge::Pressed } => {
                self.advance_next_type();
            },
            _ => {},
        }
    }
}

} // verus!
