//! Piece colours and piece types.

use vstd::prelude::*;

verus! {

/// The two sides of a game.
#[derive(Clone, Copy, Debug, PartialEq, Eq, Hash, Structural)]
pub enum Color {
    White,
    Black,
}

impl Color {
    /// The opposite side.
    pub open spec fn spec_other(self) -> Color {
        match self {
            Color::White => Color::Black,
            Color::Black => Color::White,
        }
    }

    /// The opposite side.
    #[verifier::when_used_as_spec(spec_other)]
    pub fn other(self) -> (c: Color)
        ensures
            c == self.spec_other(),
    {
        match self {
            Color::White => Color::Black,
            Color::Black => Color::White,
        }
    }

    /// Whether this is the white side.
    pub fn is_white(self) -> (w: bool)
        ensures
            w == (self == Color::White),
    {
        match self {
            Color::White => true,
            Color::Black => false,
        }
    }

    /// Whether this is the black side.
    pub fn is_black(self) -> (b: bool)
        ensures
            b == (self == Color::Black),
    {
        match self {
            Color::White => false,
            Color::Black => true,
        }
    }
}

/// Inverting a colour twice gives it back.
pub proof fn lemma_other_is_involution(c: Color)
    ensures
        c.other().other() == c,
        c.other() != c,
{
}

/// The six piece types.
#[derive(Clone, Copy, Debug, PartialEq, Eq, Hash, Structural)]
pub enum Role {
    Pawn,
    Knight,
    Bishop,
    Rook,
    Queen,
    King,
}

/// A piece: its side and its type.
#[derive(Clone, Copy, Debug, PartialEq, Eq, Hash, Structural)]
pub struct Piece {
    pub color: Color,
    pub role: Role,
}

/// How a game has ended.
#[derive(Clone, Copy, Debug, PartialEq, Eq, Hash, Structural)]
pub enum Outcome {
    /// One side has won.
    Decisive { winner: Color },
    /// Neither side has won.
    Draw,
}

impl Role {
    /// The number of the piece type, from 1 for the pawn to 6 for the king.
    pub open spec fn spec_number(self) -> u8 {
        match self {
            Role::Pawn => 1,
            Role::Knight => 2,
            Role::Bishop => 3,
            Role::Rook => 4,
            Role::Queen => 5,
            Role::King => 6,
        }
    }

    /// The piece type with the given number, if there is one.
    pub open spec fn spec_from_number(n: u8) -> Option<Role> {
        if n == 1 {
            Some(Role::Pawn)
        } else if n == 2 {
            Some(Role::Knight)
        } else if n == 3 {
            Some(Role::Bishop)
        } else if n == 4 {
            Some(Role::Rook)
        } else if n == 5 {
            Some(Role::Queen)
        } else if n == 6 {
            Some(Role::King)
        } else {
            None
        }
    }

    /// The number of the piece type, from 1 for the pawn to 6 for the king.
    #[verifier::when_used_as_spec(spec_number)]
    pub fn number(self) -> (n: u8)
        ensures
            n == self.spec_number(),
            Role::spec_from_number(n) == Some(self),
    {
        match self {
            Role::Pawn => 1,
            Role::Knight => 2,
            Role::Bishop => 3,
            Role::Rook => 4,
            Role::Queen => 5,
            Role::King => 6,
        }
    }

    /// The piece type with the given number, or `None` when the number is
    /// not one of 1 to 6.
    pub fn from_number(n: u8) -> (role: Option<Role>)
        ensures
            role == Role::spec_from_number(n),
            role matches Some(r) ==> r.number() == n,
    {
        if n == 1 {
            Some(Role::Pawn)
        } else if n == 2 {
            Some(Role::Knight)
        } else if n == 3 {
            Some(Role::Bishop)
        } else if n == 4 {
            Some(Role::Rook)
        } else if n == 5 {
            Some(Role::Queen)
        } else if n == 6 {
            Some(Role::King)
        } else {
            None
        }
    }
}

} // verus!
