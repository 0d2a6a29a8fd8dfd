use nightcage::events::{InputEvent, KeyId, PointerButtonId, PressEdge};
use nightcage::grid::{resolve, CursorPos, GridConfig, TilePos};
use nightcage::session::Session;
use nightcage::store::{
    render_texture_index, render_tint, rotation_of, NextTileTextureIndex, RotationState, TileFlip,
    TileStore, TileTint,
};

/// The 7x7 grid of 128-unit cells centered on the world origin.
fn cfg7() -> GridConfig {
    GridConfig { width: 7, height: 7, cell_size: 128, origin_x: -448, origin_y: -448 }
}

fn moved(x: i64, y: i64) -> InputEvent {
    InputEvent::PointerMoved { x, y }
}

fn left_press() -> InputEvent {
    InputEvent::PointerButton { button: PointerButtonId::Left, edge: PressEdge::Pressed }
}

fn right_press() -> InputEvent {
    InputEvent::PointerButton { button: PointerButtonId::Right, edge: PressEdge::Pressed }
}

fn space_press() -> InputEvent {
    InputEvent::Key { key: KeyId::Space, edge: PressEdge::Pressed }
}

fn flag_counts(s: &Session) -> (usize, usize) {
    let mut hovered = 0;
    let mut illuminated = 0;
    for y in 0..s.config.height {
        for x in 0..s.config.width {
            let c = s.store.cell_at(TilePos { x, y });
            if c.is_hovered {
                hovered += 1;
            }
            if c.is_illuminated {
                illuminated += 1;
            }
        }
    }
    (hovered, illuminated)
}

#[test]
fn resolve_inside_positions() {
    let cfg = cfg7();
    // World origin sits in the middle cell of the centered 7x7 grid.
    assert_eq!(
        resolve(&cfg, &CursorPos { x: 0, y: 0 }),
        Some(TilePos { x: 3, y: 3 })
    );
    // Corner cell: just inside the lower-left world bound.
    assert_eq!(
        resolve(&cfg, &CursorPos { x: -448, y: -448 }),
        Some(TilePos { x: 0, y: 0 })
    );
    // Just inside the upper-right world bound.
    assert_eq!(
        resolve(&cfg, &CursorPos { x: 447, y: 447 }),
        Some(TilePos { x: 6, y: 6 })
    );
}

#[test]
fn resolve_outside_positions() {
    let cfg = cfg7();
    assert_eq!(resolve(&cfg, &CursorPos { x: 448, y: 0 }), None);
    assert_eq!(resolve(&cfg, &CursorPos { x: 0, y: -449 }), None);
    assert_eq!(resolve(&cfg, &CursorPos { x: 10_000, y: 10_000 }), None);
    // The sentinel a cursor starts at never resolves to a cell.
    assert_eq!(resolve(&cfg, &CursorPos::default()), None);
}

#[test]
fn update_cursor_pos_keeps_last_movement() {
    let mut cursor = CursorPos::default();
    let events = vec![moved(10, 20), left_press(), moved(-7, 9), space_press()];
    nightcage::events::update_cursor_pos(&mut cursor, &events);
    assert_eq!(cursor, CursorPos { x: -7, y: 9 });

    let no_moves = vec![left_press(), space_press()];
    nightcage::events::update_cursor_pos(&mut cursor, &no_moves);
    assert_eq!(cursor, CursorPos { x: -7, y: 9 });
}

#[test]
fn fresh_session_has_no_flags_and_empty_cells() {
    let s = Session::new(cfg7());
    let (hov, ill) = flag_counts(&s);
    assert_eq!((hov, ill), (0, 0));
    assert_eq!(s.store.next.0, 1);
    for y in 0..7 {
        for x in 0..7 {
            let c = s.store.cell_at(TilePos { x, y });
            assert_eq!(c.type_index, None);
            assert_eq!(c.rotation, RotationState::Deg0);
        }
    }
}

#[test]
fn hover_interior_illuminates_four_neighbors() {
    let mut s = Session::new(cfg7());
    s.frame(&vec![moved(0, 0)]);
    assert!(s.store.cell_at(TilePos { x: 3, y: 3 }).is_hovered);
    assert!(!s.store.cell_at(TilePos { x: 3, y: 3 }).is_illuminated);
    for (x, y) in [(2, 3), (4, 3), (3, 2), (3, 4)] {
        assert!(s.store.cell_at(TilePos { x, y }).is_illuminated);
        assert!(!s.store.cell_at(TilePos { x, y }).is_hovered);
    }
    // Diagonals are excluded.
    assert!(!s.store.cell_at(TilePos { x: 2, y: 2 }).is_illuminated);
    assert!(!s.store.cell_at(TilePos { x: 4, y: 4 }).is_illuminated);
    let (hov, ill) = flag_counts(&s);
    assert_eq!((hov, ill), (1, 4));
}

#[test]
fn hover_corner_illuminates_two_neighbors() {
    let mut s = Session::new(cfg7());
    // A world position mapping to the corner cell (0, 0).
    s.frame(&vec![moved(-440, -440)]);
    assert!(s.store.cell_at(TilePos { x: 0, y: 0 }).is_hovered);
    assert!(s.store.cell_at(TilePos { x: 1, y: 0 }).is_illuminated);
    assert!(s.store.cell_at(TilePos { x: 0, y: 1 }).is_illuminated);
    let (hov, ill) = flag_counts(&s);
    assert_eq!((hov, ill), (1, 2));
}

#[test]
fn hover_edge_illuminates_three_neighbors() {
    let mut s = Session::new(cfg7());
    // A world position mapping to the edge cell (3, 0).
    s.frame(&vec![moved(0, -440)]);
    assert!(s.store.cell_at(TilePos { x: 3, y: 0 }).is_hovered);
    let (hov, ill) = flag_counts(&s);
    assert_eq!((hov, ill), (1, 3));
}

#[test]
fn hover_moves_leave_no_stale_flags() {
    let mut s = Session::new(cfg7());
    s.frame(&vec![moved(0, 0)]);
    assert_eq!(flag_counts(&s), (1, 4));
    // Pointer moved off the grid: the next pass clears every flag.
    s.frame(&vec![moved(10_000, 10_000)]);
    assert_eq!(flag_counts(&s), (0, 0));
}

#[test]
fn place_then_advance_then_place_scenario() {
    let mut s = Session::new(cfg7());
    // Pointer resolves to (3, 3); left click with the cursor at 1.
    s.frame(&vec![moved(0, 0), left_press()]);
    assert_eq!(s.store.cell_at(TilePos { x: 3, y: 3 }).type_index, Some(1));
    // The space key advances the Next-Type Cursor to 2.
    s.frame(&vec![space_press()]);
    assert_eq!(s.store.next.0, 2);
    // Pointer moves to (4, 3); left click stamps type 2 there.
    s.frame(&vec![moved(100, 0), left_press()]);
    assert_eq!(s.store.cell_at(TilePos { x: 4, y: 3 }).type_index, Some(2));
    // The earlier placement persists.
    assert_eq!(s.store.cell_at(TilePos { x: 3, y: 3 }).type_index, Some(1));
}

#[test]
fn placing_twice_is_idempotent() {
    let mut s = Session::new(cfg7());
    // Two left clicks in one frame both stamp the same type.
    s.frame(&vec![moved(0, 0), left_press(), left_press()]);
    assert_eq!(s.store.cell_at(TilePos { x: 3, y: 3 }).type_index, Some(1));
    assert_eq!(s.store.next.0, 1);
    // And another click in the next frame changes nothing either.
    s.frame(&vec![left_press()]);
    assert_eq!(s.store.cell_at(TilePos { x: 3, y: 3 }).type_index, Some(1));
}

#[test]
fn events_apply_in_arrival_order_within_one_frame() {
    let mut s = Session::new(cfg7());
    // Stamp type 1, advance the cursor, stamp again: the later press
    // must see the advanced cursor, all within a single frame.
    s.frame(&vec![moved(0, 0), left_press(), space_press(), left_press()]);
    assert_eq!(s.store.cell_at(TilePos { x: 3, y: 3 }).type_index, Some(2));
    assert_eq!(s.store.next.0, 2);
}

#[test]
fn press_with_no_hovered_cell_is_a_no_op() {
    let mut s = Session::new(cfg7());
    s.frame(&vec![left_press(), right_press()]);
    for y in 0..7 {
        for x in 0..7 {
            let c = s.store.cell_at(TilePos { x, y });
            assert_eq!(c.type_index, None);
            assert_eq!(c.rotation, RotationState::Deg0);
        }
    }
}

#[test]
fn releases_and_other_buttons_are_ignored() {
    let mut s = Session::new(cfg7());
    let events = vec![
        moved(0, 0),
        InputEvent::PointerButton { button: PointerButtonId::Left, edge: PressEdge::Released },
        InputEvent::PointerButton { button: PointerButtonId::Other, edge: PressEdge::Pressed },
        InputEvent::Key { key: KeyId::Space, edge: PressEdge::Released },
        InputEvent::Key { key: KeyId::Other, edge: PressEdge::Pressed },
    ];
    s.frame(&events);
    assert_eq!(s.store.cell_at(TilePos { x: 3, y: 3 }).type_index, None);
    assert_eq!(s.store.cell_at(TilePos { x: 3, y: 3 }).rotation, RotationState::Deg0);
    assert_eq!(s.store.next.0, 1);
}

#[test]
fn next_type_cursor_cycles_one_to_four() {
    let mut next = NextTileTextureIndex::default();
    assert_eq!(next.0, 1);
    let mut seen = Vec::new();
    for _ in 0..8 {
        next.next();
        seen.push(next.0);
        assert!(next.0 >= 1 && next.0 <= 4);
    }
    assert_eq!(seen, vec![2, 3, 4, 1, 2, 3, 4, 1]);
}

#[test]
fn rotation_cycle_returns_to_identity() {
    let mut s = Session::new(cfg7());
    s.frame(&vec![moved(0, 0), right_press()]);
    assert_eq!(s.store.cell_at(TilePos { x: 3, y: 3 }).rotation, RotationState::Deg90);
    s.frame(&vec![right_press()]);
    assert_eq!(s.store.cell_at(TilePos { x: 3, y: 3 }).rotation, RotationState::Deg180);
    s.frame(&vec![right_press()]);
    assert_eq!(s.store.cell_at(TilePos { x: 3, y: 3 }).rotation, RotationState::Deg270);
    s.frame(&vec![right_press()]);
    // Four rotate events on the same hovered cell: back where it started.
    assert_eq!(s.store.cell_at(TilePos { x: 3, y: 3 }).rotation, RotationState::Deg0);
}

#[test]
fn rotation_counter_is_shared_across_cells() {
    let mut s = Session::new(cfg7());
    // One rotate at (3, 3) advances the shared counter to 1.
    s.frame(&vec![moved(0, 0), right_press()]);
    assert_eq!(s.store.cell_at(TilePos { x: 3, y: 3 }).rotation, RotationState::Deg90);
    // A rotate at (4, 3) continues the shared cycle rather than starting
    // its own: the cell jumps straight to the half-turn state.
    s.frame(&vec![moved(100, 0), right_press()]);
    assert_eq!(s.store.cell_at(TilePos { x: 4, y: 3 }).rotation, RotationState::Deg180);
    // The first cell keeps the orientation it was left in.
    assert_eq!(s.store.cell_at(TilePos { x: 3, y: 3 }).rotation, RotationState::Deg90);
}

#[test]
fn rotation_flip_flag_mapping() {
    assert_eq!(
        RotationState::Deg0.flip(),
        TileFlip { x: false, y: false, d: false }
    );
    assert_eq!(
        RotationState::Deg90.flip(),
        TileFlip { x: true, y: false, d: true }
    );
    assert_eq!(
        RotationState::Deg180.flip(),
        TileFlip { x: true, y: true, d: false }
    );
    assert_eq!(
        RotationState::Deg270.flip(),
        TileFlip { x: false, y: true, d: true }
    );
    assert_eq!(rotation_of(0), RotationState::Deg0);
    assert_eq!(rotation_of(1), RotationState::Deg90);
    assert_eq!(rotation_of(2), RotationState::Deg180);
    assert_eq!(rotation_of(3), RotationState::Deg270);
}

#[test]
fn render_outputs_follow_the_flags() {
    let mut s = Session::new(cfg7());
    s.frame(&vec![moved(0, 0)]);
    let hovered = s.store.cell_at(TilePos { x: 3, y: 3 });
    let neighbor = s.store.cell_at(TilePos { x: 4, y: 3 });
    let far = s.store.cell_at(TilePos { x: 0, y: 6 });
    // A hovered cell previews the type the next placement would stamp.
    assert_eq!(render_texture_index(&hovered, &s.store.next), 1);
    // An empty cell elsewhere renders as texture 0.
    assert_eq!(render_texture_index(&far, &s.store.next), 0);
    // Illuminated neighbors get the highlight color, others the default.
    assert_eq!(render_tint(&neighbor), TileTint::Highlight);
    assert_eq!(render_tint(&hovered), TileTint::Neutral);
    assert_eq!(render_tint(&far), TileTint::Neutral);
    // A placed type shows through once the cell is no longer hovered.
    s.frame(&vec![left_press()]);
    s.frame(&vec![moved(10_000, 10_000)]);
    let placed = s.store.cell_at(TilePos { x: 3, y: 3 });
    assert_eq!(render_texture_index(&placed, &s.store.next), 1);
}

#[test]
fn store_setters_update_single_cells() {
    let mut store = TileStore::new(7, 7);
    store.set_type_index(TilePos { x: 2, y: 5 }, Some(3));
    store.set_rotation(TilePos { x: 2, y: 5 }, RotationState::Deg180);
    let c = store.cell_at(TilePos { x: 2, y: 5 });
    assert_eq!(c.type_index, Some(3));
    assert_eq!(c.rotation, RotationState::Deg180);
    let untouched = store.cell_at(TilePos { x: 5, y: 2 });
    assert_eq!(untouched.type_index, None);
    assert_eq!(untouched.rotation, RotationState::Deg0);
}
