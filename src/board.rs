//! Pieces of the board and the fixed starting layout.

use vstd::prelude::*;

verus! {

/// The kind of a piece.
#[derive(Clone, Copy, Debug, PartialEq, Eq, Structural)]
pub enum PieceType {
    Pawn,
    Horse,
    Cannon,
    Elephant,
    Scholar,
    Chariot,
    General,
}

/// The side a piece plays for.
#[derive(Clone, Copy, Debug, PartialEq, Eq, Structural)]
pub enum Side {
    Red,
    Black,
}

/// A piece on the board: its kind, its side, its cell and whether the pointer
/// currently rests on it.
#[derive(Clone, Copy, Debug, PartialEq, Eq, Structural)]
pub struct Piece {
    pub piece_type: PieceType,
    pub side: Side,
    pub row: i32,
    pub column: i32,
    pub highlighted: bool,
}

/// The canonical starting cell `(row, column)` of each kind on each side.
pub open spec fn starting_cell(piece_type: PieceType, side: Side) -> (int, int) {
    match side {
        Side::Red => match piece_type {
            PieceType::Pawn => (3, 0),
            PieceType::Horse => (0, 1),
            PieceType::Cannon => (2, 1),
            PieceType::Elephant => (0, 2),
            PieceType::Scholar => (0, 3),
            PieceType::Chariot => (0, 0),
            PieceType::General => (0, 4),
        },
        Side::Black => match piece_type {
            PieceType::Pawn => (6, 0),
            PieceType::Horse => (9, 1),
            PieceType::Cannon => (2, 1),
            PieceType::Elephant => (7, 2),
            PieceType::Scholar => (9, 3),
            PieceType::Chariot => (9, 0),
            PieceType::General => (9, 4),
        },
    }
}

/// The position of each kind in its side's row of the piece sprite sheet.
pub open spec fn kind_sprite_slot(piece_type: PieceType) -> int {
    match piece_type {
        PieceType::General => 0,
        PieceType::Scholar => 1,
        PieceType::Horse => 2,
        PieceType::Elephant => 3,
        PieceType::Chariot => 4,
        PieceType::Cannon => 5,
        PieceType::Pawn => 6,
    }
}

/// Index of a piece's sprite in the piece sprite sheet: the red pieces come
/// first, then the black ones, each side in the same order of kinds.
pub open spec fn sprite_index(piece_type: PieceType, side: Side) -> int {
    match side {
        Side::Red => kind_sprite_slot(piece_type),
        Side::Black => 7 + kind_sprite_slot(piece_type),
    }
}

/// The starting cell `(row, column)` of a piece. Every piece of one kind and
/// side starts on the same cell, whatever its index.
pub fn get_starting_position(piece_type: PieceType, side: Side, piece_index: i32) -> (r: (i32, i32))
    ensures
        r.0 == starting_cell(piece_type, side).0,
        r.1 == starting_cell(piece_type, side).1,
        0 <= r.0 < 10,
        0 <= r.1 < 9,
{
    match side {
        Side::Red => match piece_type {
            PieceType::Pawn => (3, 0),
            PieceType::Horse => (0, 1),
            PieceType::Cannon => (2, 1),
            PieceType::Elephant => (0, 2),
            PieceType::Scholar => (0, 3),
            PieceType::Chariot => (0, 0),
            PieceType::General => (0, 4),
        },
        Side::Black => match piece_type {
            PieceType::Pawn => (6, 0),
            PieceType::Horse => (9, 1),
            PieceType::Cannon => (2, 1),
            PieceType::Elephant => (7, 2),
            PieceType::Scholar => (9, 3),
            PieceType::Chariot => (9, 0),
            PieceType::General => (9, 4),
        },
    }
}

/// Index of the sprite that draws a piece of this kind and side.
pub fn get_sprite_index(piece_type: PieceType, side: Side) -> (r: usize)
    ensures
        r == sprite_index(piece_type, side),
        r < 14,
{
    let slot: usize = match piece_type {
        PieceType::General => 0,
        PieceType::Scholar => 1,
        PieceType::Horse => 2,
        PieceType::Elephant => 3,
        PieceType::Chariot => 4,
        PieceType::Cannon => 5,
        PieceType::Pawn => 6,
    };
    match side {
        Side::Red => slot,
        Side::Black => 7 + slot,
    }
}

impl Piece {
    /// A piece of the given kind and side on its starting cell, not highlighted.
    pub fn new(piece_type: PieceType, side: Side, piece_index: i32) -> (r: Piece)
        ensures
            r.piece_type == piece_type,
            r.side == side,
            r.row == starting_cell(piece_type, side).0,
            r.column == starting_cell(piece_type, side).1,
            !r.highlighted,
    {
        let (row, column) = get_starting_position(piece_type, side, piece_index);
        Piece { piece_type, side, row, column, highlighted: false }
    }
}

} // verus!
