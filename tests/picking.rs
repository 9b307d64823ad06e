use chinese_chess::board::{Piece, PieceType, Side};
use chinese_chess::geometry::get_board_coordinates;
use chinese_chess::picking::{
    hit_test, MouseRaycastSystem, PickError, PieceStore, PointerSample, WorldPoint, HITBOX,
};

fn reference_board() -> PieceStore {
    let mut store = PieceStore::new();
    store.spawn(Piece::new(PieceType::General, Side::Red, 0));
    store.spawn(Piece::new(PieceType::Chariot, Side::Red, 0));
    store.spawn(Piece::new(PieceType::Horse, Side::Red, 0));
    store.spawn(Piece::new(PieceType::General, Side::Black, 0));
    store
}

fn highlights(store: &PieceStore) -> Vec<bool> {
    (0..store.len()).map(|h| store.get(h).highlighted).collect()
}

#[test]
fn hit_at_piece_position() {
    let (x, y) = get_board_coordinates(3, 7);
    assert!(hit_test(x, y, WorldPoint { x, y }));
}

#[test]
fn hit_box_boundary_is_exclusive() {
    let (x, y) = get_board_coordinates(3, 7);
    assert!(!hit_test(x, y, WorldPoint { x: x + HITBOX, y }));
    assert!(!hit_test(x, y, WorldPoint { x, y: y - HITBOX }));
    assert!(hit_test(x, y, WorldPoint { x: x + HITBOX - 1, y: y - HITBOX + 1 }));
}

#[test]
fn hit_test_at_extreme_coordinates() {
    assert!(!hit_test(i64::MAX, 0, WorldPoint { x: i64::MIN, y: 0 }));
    assert!(hit_test(i64::MIN, i64::MAX, WorldPoint { x: i64::MIN, y: i64::MAX }));
}

#[test]
fn store_hands_out_handles_in_order() {
    let store = reference_board();
    assert_eq!(store.len(), 4);
    assert_eq!(store.get(0).piece_type, PieceType::General);
    assert_eq!(store.get(3).side, Side::Black);
    assert_eq!(highlights(&store), vec![false, false, false, false]);
}

#[test]
fn pointer_on_red_general_highlights_it_alone() {
    let mut store = reference_board();
    let (x, y) = get_board_coordinates(0, 4);
    let mut system = MouseRaycastSystem;
    let r = system.run(&mut store, PointerSample::OnBoard(WorldPoint { x, y }));
    assert_eq!(r, Ok(()));
    assert_eq!(highlights(&store), vec![true, false, false, false]);
}

#[test]
fn pointer_equidistant_from_every_piece_highlights_none() {
    let mut store = PieceStore::new();
    store.spawn(Piece::new(PieceType::General, Side::Red, 0));
    store.spawn(Piece::new(PieceType::General, Side::Black, 0));
    let mut system = MouseRaycastSystem;
    // Both generals stand in column 4: the midpoint between them is far from both.
    let (x0, y0) = get_board_coordinates(0, 4);
    let (_, y9) = get_board_coordinates(9, 4);
    assert!(y9 - (y0 + y9) / 2 > HITBOX);
    let r = system.run(&mut store, PointerSample::OnBoard(WorldPoint { x: x0, y: (y0 + y9) / 2 }));
    assert_eq!(r, Ok(()));
    assert_eq!(highlights(&store), vec![false, false]);
}

#[test]
fn miss_clears_earlier_highlight() {
    let mut store = reference_board();
    let mut system = MouseRaycastSystem;
    let (x, y) = get_board_coordinates(0, 0);
    system.run(&mut store, PointerSample::OnBoard(WorldPoint { x, y })).unwrap();
    assert_eq!(highlights(&store), vec![false, true, false, false]);
    system.run(&mut store, PointerSample::OnBoard(WorldPoint { x: 0, y: 0 })).unwrap();
    assert_eq!(highlights(&store), vec![false, false, false, false]);
}

#[test]
fn absent_pointer_changes_nothing() {
    let mut store = reference_board();
    let mut system = MouseRaycastSystem;
    let (x, y) = get_board_coordinates(9, 4);
    system.run(&mut store, PointerSample::OnBoard(WorldPoint { x, y })).unwrap();
    let r = system.run(&mut store, PointerSample::Absent);
    assert_eq!(r, Err(PickError::NoPointerSample));
    assert_eq!(highlights(&store), vec![false, false, false, true]);
}

#[test]
fn unprojectable_pointer_changes_nothing() {
    let mut store = reference_board();
    let mut system = MouseRaycastSystem;
    let (x, y) = get_board_coordinates(0, 1);
    system.run(&mut store, PointerSample::OnBoard(WorldPoint { x, y })).unwrap();
    let r = system.run(&mut store, PointerSample::Unprojectable);
    assert_eq!(r, Err(PickError::DegenerateProjection));
    assert_eq!(highlights(&store), vec![false, false, true, false]);
}

#[test]
fn overlapping_pieces_are_all_highlighted() {
    let mut store = PieceStore::new();
    // Both cannons start on the same cell.
    store.spawn(Piece::new(PieceType::Cannon, Side::Red, 0));
    store.spawn(Piece::new(PieceType::Cannon, Side::Black, 0));
    store.spawn(Piece::new(PieceType::Pawn, Side::Red, 0));
    let (x, y) = get_board_coordinates(2, 1);
    let mut system = MouseRaycastSystem;
    system.run(&mut store, PointerSample::OnBoard(WorldPoint { x: x + 10, y: y - 10 })).unwrap();
    assert_eq!(highlights(&store), vec![true, true, false]);
}

#[test]
fn point_between_neighbours_hits_neither() {
    let mut store = PieceStore::new();
    store.spawn(Piece::new(PieceType::Chariot, Side::Red, 0));
    store.spawn(Piece::new(PieceType::Horse, Side::Red, 0));
    let (x0, y) = get_board_coordinates(0, 0);
    let (x1, _) = get_board_coordinates(0, 1);
    let mut system = MouseRaycastSystem;
    system.run(&mut store, PointerSample::OnBoard(WorldPoint { x: (x0 + x1) / 2, y })).unwrap();
    assert_eq!(highlights(&store), vec![false, false]);
}
