//! The model of a position.
//!
//! A position of the rules library is opaque; [`PositionView`] says what it
//! is: the pieces on their squares, the side to move, and what else the
//! rules of chess depend on. The controller itself reads the pieces and the
//! side to move, and everything here is defined over those two.

use vstd::prelude::*;
use shakmaty::Chess;
use crate::oracle::{role_at, us, view_of};
use crate::pieces::{Color, Piece, Role};
use crate::square::Square;

verus! {

/// What a position is.
pub struct PositionView {
    /// The pieces on the board, each under its square.
    pub pieces: Map<Square, Piece>,
    /// The side to move.
    pub turn: Color,
    /// The rooks with which their king may still castle.
    pub castling_rights: Set<Square>,
    /// The square that a pawn has just passed with a double step.
    pub en_passant: Option<Square>,
    /// The number of half-moves since the last capture or pawn move.
    pub halfmoves: nat,
    /// The number of the move, which grows after every move of black.
    pub fullmoves: nat,
}

/// The squares that hold a piece of the given colour.
pub open spec fn squares_of(position: PositionView, color: Color) -> Set<Square> {
    Set::new(
        |square: Square|
            position.pieces.dom().contains(square) && position.pieces[square].color
                == color,
    )
}

/// The squares that hold a piece of the side to move.
pub open spec fn friendly_squares(position: PositionView) -> Set<Square> {
    squares_of(position, position.turn)
}

/// The squares that hold a piece of the side not to move.
pub open spec fn enemy_squares(position: PositionView) -> Set<Square> {
    squares_of(position, position.turn.other())
}

/// The squares that hold any piece.
pub open spec fn occupied_squares(position: PositionView) -> Set<Square> {
    position.pieces.dom()
}

/// The type of the piece on a square, if the square holds one.
pub open spec fn role_on(position: PositionView, square: Square) -> Option<Role> {
    if position.pieces.dom().contains(square) {
        Some(position.pieces[square].role)
    } else {
        None
    }
}

/// What stands on a square, as the side to move sees it.
#[derive(Clone, Copy, Debug, PartialEq, Eq, Hash, Structural)]
pub enum Occupant {
    /// No piece.
    Empty,
    /// A piece of the side to move.
    Friendly(Role),
    /// A piece of the side not to move.
    Enemy(Role),
}

impl Occupant {
    /// The type of the piece, whichever side it belongs to.
    pub open spec fn spec_role(self) -> Option<Role> {
        match self {
            Occupant::Empty => None,
            Occupant::Friendly(role) => Some(role),
            Occupant::Enemy(role) => Some(role),
        }
    }

    /// The type of the piece, whichever side it belongs to.
    #[verifier::when_used_as_spec(spec_role)]
    pub fn role(self) -> (role: Option<Role>)
        ensures
            role == self.spec_role(),
    {
        match self {
            Occupant::Empty => None,
            Occupant::Friendly(role) => Some(role),
            Occupant::Enemy(role) => Some(role),
        }
    }
}

/// What stands on a square of a position.
pub open spec fn occupant(position: PositionView, square: Square) -> Occupant {
    if !position.pieces.dom().contains(square) {
        Occupant::Empty
    } else if position.pieces[square].color == position.turn {
        Occupant::Friendly(position.pieces[square].role)
    } else {
        Occupant::Enemy(position.pieces[square].role)
    }
}

/// The square holds a piece of the side to move.
pub open spec fn is_friendly(position: PositionView, square: Square) -> bool {
    occupant(position, square) is Friendly
}

/// The square holds a piece of the side not to move.
pub open spec fn is_enemy(position: PositionView, square: Square) -> bool {
    occupant(position, square) is Enemy
}

/// The occupant of a square is friendly, hostile or none exactly as the
/// square belongs to the friendly squares, the enemy squares or neither, and
/// its type is the type of the piece there.
pub proof fn lemma_occupant_matches_squares(position: PositionView, square: Square)
    ensures
        is_friendly(position, square) <==> friendly_squares(position).contains(square),
        is_enemy(position, square) <==> enemy_squares(position).contains(square),
        occupant(position, square) is Empty <==> !occupied_squares(position).contains(square),
        occupant(position, square).spec_role() == role_on(position, square),
{
}

/// Looks up what stands on a square.
pub fn occupant_at(position: &Chess, square: Square) -> (found: Occupant)
    requires
        square.wf(),
    ensures
        found == occupant(view_of(*position), square),
{
    match role_at(position, square) {
        None => Occupant::Empty,
        Some(role) => {
            if us(position).contains(square) {
                Occupant::Friendly(role)
            } else {
                Occupant::Enemy(role)
            }
        },
    }
}

} // verus!
