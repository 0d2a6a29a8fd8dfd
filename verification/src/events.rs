//! The discrete input events the host's event loop hands the core each
//! frame, and the cursor update that tracks the last pointer position.

use vstd::prelude::*;

verus! {

use crate::grid::CursorPos;

/// Whether a button or key transition is a press or a release.
#[derive(Clone, Copy, Debug, PartialEq, Eq, Structural)]
pub enum PressEdge {
    Pressed,
    Released,
}

/// The pointer button a transition event concerns.  Only the left and
/// right buttons drive actions; every other button is ignored.
#[derive(Clone, Copy, Debug, PartialEq, Eq, Structural)]
pub enum PointerButtonId {
    Left,
    Right,
    Other,
}

/// The key a transition event concerns.  Only the space key drives an
/// action; every other key is ignored.
#[derive(Clone, Copy, Debug, PartialEq, Eq, Structural)]
pub enum KeyId {
    Space,
    Other,
}

/// One discrete input event, as produced by the host since the previous
/// frame: a pointer movement (in world coordinates), a pointer-button
/// transition, or a key transition.
#[derive(Clone, Copy, Debug, PartialEq, Eq, Structural)]
pub enum InputEvent {
    PointerMoved { x: i64, y: i64 },
    PointerButton { button: PointerButtonId, edge: PressEdge },
    Key { key: KeyId, edge: PressEdge },
}

/// The pointer position after the events `evs` have been observed: the
/// position carried by the last pointer movement among them, or `c`
/// unchanged when none of them moves the pointer.
pub open spec fn cursor_after(c: CursorPos, evs: Seq<InputEvent>) -> CursorPos
    decreases evs.len(),
{
    if evs.len() == 0 {
        c
    } else {
        match evs.last() {
            InputEvent::PointerMoved { x, y } => CursorPos { x, y },
            _ => cursor_after(c, evs.drop_last()),
        }
    }
}

/// Keeps the cursor position updated from this frame's pointer-movement
/// events, in arrival order, so the cursor ends at the last observed
/// position.
pub fn update_cursor_pos(cursor: &mut CursorPos, events: &Vec<InputEvent>)
    ensures
        *final (cursor) == cursor_after(*old(cursor), events@),
{
    let ghost evs = events@;
    let mut k: usize = 0;
    while k < events.len()
        invariant
            k <= events.len(),
            events@ == evs,
            *cursor == cursor_after(*old(cursor), evs.subrange(0, k as int)),
        decreases events.len() - k,
    {
        proof {
            assert(evs.subrange(0, k + 1).drop_last() =~= evs.subrange(0, k as int));
            assert(evs.subrange(0, k + 1).last() == evs[k as int]);
        }
        match events[k] {
            InputEvent::PointerMoved { x, y } => {
                *cursor = CursorPos { x, y };
            },
            _ => {},
        }
        k = k + 1;
    }
    proof {
        assert(evs.subrange(0, evs.len() as int) =~= evs);
    }
}

} // verus!
