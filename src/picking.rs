//! Resolving the pointer's point on the board plane into highlighted pieces.

use vstd::prelude::*;

use crate::board::Piece;
use crate::geometry::{cell_to_world, get_board_coordinates};

verus! {

/// Half width of the square hit box around a piece, in tenths of a pixel
/// (30 pixels: half the scaled cell width, so that hit boxes of neighbouring
/// cells never overlap).
pub const HITBOX: i64 = 300;

/// A point of the board plane `z = 0`, in tenths of a pixel.
#[derive(Clone, Copy, Debug, PartialEq, Eq, Structural)]
pub struct WorldPoint {
    pub x: i64,
    pub y: i64,
}

/// What the pointer gave this tick, once projected onto the board plane.
#[derive(Clone, Copy, Debug, PartialEq, Eq, Structural)]
pub enum PointerSample {
    /// No pointer position is available (outside the window, not moved yet).
    Absent,
    /// The pointer's ray is parallel to the board plane and never meets it.
    Unprojectable,
    /// The pointer's ray meets the board plane at this point.
    OnBoard(WorldPoint),
}

/// Why a tick made no pick.
#[derive(Clone, Copy, Debug, PartialEq, Eq, Structural)]
pub enum PickError {
    NoPointerSample,
    DegenerateProjection,
}

/// `|a - b|`.
pub open spec fn distance(a: int, b: int) -> int {
    if a >= b {
        a - b
    } else {
        b - a
    }
}

/// Whether `(x, y)` lies strictly inside the hit box centred on `centre`.
pub open spec fn within_hitbox(centre: (int, int), x: int, y: int) -> bool {
    distance(centre.0, x) < HITBOX && distance(centre.1, y) < HITBOX
}

/// Whether a point of the board plane lies on a piece, whose world position
/// is computed from its cell.
pub open spec fn piece_hit(piece: Piece, at: WorldPoint) -> bool {
    within_hitbox(cell_to_world(piece.row as int, piece.column as int), at.x as int, at.y as int)
}

/// The piece with its highlight flag set to `highlighted`, all else kept.
pub open spec fn with_highlight(piece: Piece, highlighted: bool) -> Piece {
    Piece {
        piece_type: piece.piece_type,
        side: piece.side,
        row: piece.row,
        column: piece.column,
        highlighted,
    }
}

/// The pieces after a picking pass at `at`: each piece is highlighted exactly
/// when `at` lies on it; nothing else changes.
pub open spec fn picked(pieces: Seq<Piece>, at: WorldPoint) -> Seq<Piece> {
    pieces.map_values(|p: Piece| with_highlight(p, piece_hit(p, at)))
}

/// Whether the point `at` lies strictly inside the hit box centred on
/// `(piece_x, piece_y)`.
pub fn hit_test(piece_x: i64, piece_y: i64, at: WorldPoint) -> (r: bool)
    ensures
        r == within_hitbox((piece_x as int, piece_y as int), at.x as int, at.y as int),
{
    let dx: i128 = piece_x as i128 - at.x as i128;
    let dy: i128 = piece_y as i128 - at.y as i128;
    let h: i128 = HITBOX as i128;
    -h < dx && dx < h && -h < dy && dy < h
}

/// A point at a piece's own position is on it; a point one hit box width to
/// its right is not: the box is open.
pub proof fn lemma_hitbox_boundary(x: int, y: int)
    ensures
        within_hitbox((x, y), x, y),
        !within_hitbox((x, y), x + HITBOX, y),
        !within_hitbox((x, y), x - HITBOX, y),
        !within_hitbox((x, y), x, y + HITBOX),
        !within_hitbox((x, y), x, y - HITBOX),
{
}

/// On a board whose pieces stand on pairwise distinct cells, a picking pass
/// highlights at most one piece.
pub proof fn lemma_at_most_one_highlighted(pieces: Seq<Piece>, at: WorldPoint)
    requires
        forall|i: int, j: int|
            0 <= i < pieces.len() && 0 <= j < pieces.len() && i != j ==> (pieces[i].row
                != pieces[j].row || pieces[i].column != pieces[j].column),
    ensures
        forall|i: int, j: int|
            0 <= i < pieces.len() && 0 <= j < pieces.len() && picked(pieces, at)[i].highlighted
                && picked(pieces, at)[j].highlighted ==> i == j,
{
    assert forall|i: int, j: int|
        0 <= i < pieces.len() && 0 <= j < pieces.len() && picked(pieces, at)[i].highlighted
            && picked(pieces, at)[j].highlighted implies i == j by {
        let pi = pieces[i];
        let pj = pieces[j];
        assert(piece_hit(pi, at));
        assert(piece_hit(pj, at));
        if i != j {
            crate::geometry::lemma_row_y_spacing(pi.row as int, pj.row as int);
        }
    }
}

/// The pieces on the board, each found by its handle: the index at which it
/// was added.
pub struct PieceStore {
    pieces: Vec<Piece>,
}

impl View for PieceStore {
    type V = Seq<Piece>;

    closed spec fn view(&self) -> Seq<Piece> {
        self.pieces@
    }
}

impl PieceStore {
    /// An empty store.
    pub fn new() -> (r: PieceStore)
        ensures
            r@ == Seq::<Piece>::empty(),
    {
        PieceStore { pieces: Vec::new() }
    }

    /// Adds a piece and returns its handle.
    pub fn spawn(&mut self, piece: Piece) -> (r: usize)
        ensures
            final(self)@ == old(self)@.push(piece),
            r == old(self)@.len(),
    {
        let handle = self.pieces.len();
        self.pieces.push(piece);
        handle
    }

    /// Number of pieces in the store.
    pub fn len(&self) -> (r: usize)
        ensures
            r == self@.len(),
    {
        self.pieces.len()
    }

    /// The piece with the given handle.
    pub fn get(&self, handle: usize) -> (r: &Piece)
        requires
            handle < self@.len(),
        ensures
            *r == self@[handle as int],
    {
        &self.pieces[handle]
    }

    /// Recomputes every piece's highlight flag from the point `at` alone: a
    /// piece is highlighted exactly when `at` lies inside the hit box around
    /// its cell's world position.
    pub fn refresh_highlights(&mut self, at: WorldPoint)
        ensures
            final(self)@ == picked(old(self)@, at),
    {
        let n = self.pieces.len();
        let mut i: usize = 0;
        while i < n
            invariant
                n == old(self)@.len(),
                self.pieces@.len() == n,
                0 <= i <= n,
                forall|j: int| 0 <= j < i ==> self.pieces@[j] == picked(old(self)@, at)[j],
                forall|j: int| i <= j < n ==> self.pieces@[j] == old(self)@[j],
            decreases n - i,
        {
            let (x, y) = get_board_coordinates(self.pieces[i].row, self.pieces[i].column);
            let hit = hit_test(x, y, at);
            self.pieces[i].highlighted = hit;
            i = i + 1;
        }
        assert(self.pieces@ =~= picked(old(self)@, at));
    }
}

/// The per-tick picking pass over the pieces of the board.
#[derive(Clone, Copy, Debug, PartialEq, Eq, Structural)]
pub struct MouseRaycastSystem;

impl MouseRaycastSystem {
    /// Runs one tick. Without a pointer sample, or when the pointer's ray never
    /// meets the board plane, the tick is skipped and no piece changes.
    /// Otherwise every piece is highlighted exactly when the pointer's point
    /// lies on it, so that a point on no piece leaves every piece plain.
    pub fn run(&mut self, pieces: &mut PieceStore, sample: PointerSample) -> (r: Result<
        (),
        PickError,
    >)
        ensures
            match sample {
                PointerSample::Absent => r == Err::<(), PickError>(PickError::NoPointerSample)
                    && final(pieces)@ == old(pieces)@,
                PointerSample::Unprojectable => r == Err::<(), PickError>(
                    PickError::DegenerateProjection,
                ) && final(pieces)@ == old(pieces)@,
                PointerSample::OnBoard(at) => {
                    &&& r == Ok::<(), PickError>(())
                    &&& final(pieces)@ == picked(old(pieces)@, at)
                    &&& (forall|i: int|
                        0 <= i < old(pieces)@.len() ==> !piece_hit(#[trigger] old(pieces)@[i], at))
                        ==> forall|i: int|
                        0 <= i < final(pieces)@.len() ==> !(#[trigger] final(pieces)@[i]).highlighted
                },
            },
    {
        match sample {
            PointerSample::Absent => Err(PickError::NoPointerSample),
            PointerSample::Unprojectable => Err(PickError::DegenerateProjection),
            PointerSample::OnBoard(at) => {
                pieces.refresh_highlights(at);
                Ok(())
            },
        }
    }
}

} // verus!
