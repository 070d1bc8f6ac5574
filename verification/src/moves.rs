//! Chess moves as the board controller sees them.

use vstd::prelude::*;
use crate::pieces::Role;
use crate::square::Square;

verus! {

/// A move of one side.
#[derive(Clone, Copy, Debug, PartialEq, Eq, Hash, Structural)]
pub enum Move {
    /// A piece goes from one square to another, possibly capturing what
    /// stands there and possibly promoting.
    Normal { role: Role, from: Square, capture: Option<Role>, to: Square, promotion: Option<Role> },
    /// A pawn captures en passant: the captured pawn stands on the file of
    /// `to` and the rank of `from`.
    EnPassant { from: Square, to: Square },
    /// King and rook castle; both squares are those before the move.
    Castle { king: Square, rook: Square },
}

impl Move {
    /// Every square the move names lies on the board.
    pub open spec fn wf(self) -> bool {
        match self {
            Move::Normal { from, to, .. } => from.wf() && to.wf(),
            Move::EnPassant { from, to } => from.wf() && to.wf(),
            Move::Castle { king, rook } => king.wf() && rook.wf(),
        }
    }

    /// The type of the piece that moves; the king for castling.
    pub open spec fn spec_role(self) -> Role {
        match self {
            Move::Normal { role, .. } => role,
            Move::EnPassant { .. } => Role::Pawn,
            Move::Castle { .. } => Role::King,
        }
    }

    /// The square the moving piece leaves; the king's square for castling.
    pub open spec fn spec_from(self) -> Square {
        match self {
            Move::Normal { from, .. } => from,
            Move::EnPassant { from, .. } => from,
            Move::Castle { king, .. } => king,
        }
    }

    /// The square the moving piece goes to; the rook's square for castling.
    pub open spec fn spec_to(self) -> Square {
        match self {
            Move::Normal { to, .. } => to,
            Move::EnPassant { to, .. } => to,
            Move::Castle { rook, .. } => rook,
        }
    }

    /// The type of the captured piece, if the move captures.
    pub open spec fn spec_capture(self) -> Option<Role> {
        match self {
            Move::Normal { capture, .. } => capture,
            Move::EnPassant { .. } => Some(Role::Pawn),
            Move::Castle { .. } => None,
        }
    }

    /// The type the moving pawn turns into, if the move promotes.
    pub open spec fn spec_promotion(self) -> Option<Role> {
        match self {
            Move::Normal { promotion, .. } => promotion,
            _ => None,
        }
    }

    /// Whether the move takes a piece off the board, en passant included.
    pub open spec fn spec_is_capture(self) -> bool {
        self.spec_capture().is_some()
    }

    /// Whether the move is a capture en passant.
    pub open spec fn spec_is_en_passant(self) -> bool {
        self is EnPassant
    }

    /// Whether the move is a castling.
    pub open spec fn spec_is_castle(self) -> bool {
        self is Castle
    }

    /// Whether the move turns a pawn into another piece.
    pub open spec fn spec_is_promotion(self) -> bool {
        self.spec_promotion().is_some()
    }

    /// The type of the piece that moves; the king for castling.
    #[verifier::when_used_as_spec(spec_role)]
    pub fn role(self) -> (r: Role)
        ensures
            r == self.spec_role(),
    {
        match self {
            Move::Normal { role, .. } => role,
            Move::EnPassant { .. } => Role::Pawn,
            Move::Castle { .. } => Role::King,
        }
    }

    /// The square the moving piece leaves; the king's square for castling.
    #[verifier::when_used_as_spec(spec_from)]
    pub fn from(self) -> (sq: Square)
        ensures
            sq == self.spec_from(),
    {
        match self {
            Move::Normal { from, .. } => from,
            Move::EnPassant { from, .. } => from,
            Move::Castle { king, .. } => king,
        }
    }

    /// The square the moving piece goes to; the rook's square for castling.
    #[verifier::when_used_as_spec(spec_to)]
    pub fn to(self) -> (sq: Square)
        ensures
            sq == self.spec_to(),
    {
        match self {
            Move::Normal { to, .. } => to,
            Move::EnPassant { to, .. } => to,
            Move::Castle { rook, .. } => rook,
        }
    }

    /// The type of the captured piece, if the move captures.
    #[verifier::when_used_as_spec(spec_capture)]
    pub fn capture(self) -> (c: Option<Role>)
        ensures
            c == self.spec_capture(),
    {
        match self {
            Move::Normal { capture, .. } => capture,
            Move::EnPassant { .. } => Some(Role::Pawn),
            Move::Castle { .. } => None,
        }
    }

    /// The type the moving pawn turns into, if the move promotes.
    #[verifier::when_used_as_spec(spec_promotion)]
    pub fn promotion(self) -> (p: Option<Role>)
        ensures
            p == self.spec_promotion(),
    {
        match self {
            Move::Normal { promotion, .. } => promotion,
            _ => None,
        }
    }

    /// Whether the move takes a piece off the board, en passant included.
    #[verifier::when_used_as_spec(spec_is_capture)]
    pub fn is_capture(self) -> (b: bool)
        ensures
            b == self.spec_is_capture(),
    {
        match self {
            Move::Normal { capture: Some(_), .. } => true,
            Move::EnPassant { .. } => true,
            _ => false,
        }
    }

    /// Whether the move is a capture en passant.
    #[verifier::when_used_as_spec(spec_is_en_passant)]
    pub fn is_en_passant(self) -> (b: bool)
        ensures
            b == self.spec_is_en_passant(),
    {
        match self {
            Move::EnPassant { .. } => true,
            _ => false,
        }
    }

    /// Whether the move is a castling.
    #[verifier::when_used_as_spec(spec_is_castle)]
    pub fn is_castle(self) -> (b: bool)
        ensures
            b == self.spec_is_castle(),
    {
        match self {
            Move::Castle { .. } => true,
            _ => false,
        }
    }

    /// Whether the move turns a pawn into another piece.
    #[verifier::when_used_as_spec(spec_is_promotion)]
    pub fn is_promotion(self) -> (b: bool)
        ensures
            b == self.spec_is_promotion(),
    {
        match self {
            Move::Normal { promotion: Some(_), .. } => true,
            _ => false,
        }
    }
}

/// A move in plain numbers, as it crosses the border to the rules library:
/// piece types by their number from 1 to 6, squares by their index.
#[derive(Clone, Copy, Debug, PartialEq, Eq, Hash, Structural)]
pub struct MoveRecord {
    /// The move is a castling; `from` is the king's square and `to` the
    /// rook's.
    pub castle: bool,
    /// The move is a capture en passant.
    pub en_passant: bool,
    /// The type of the moving piece.
    pub role: u8,
    /// The square that the piece leaves; none for a piece dropped onto the
    /// board, which standard chess does not have.
    pub from: Option<u8>,
    /// The square that the piece reaches.
    pub to: u8,
    /// The type of the captured piece.
    pub capture: Option<u8>,
    /// The type that a pawn turns into.
    pub promotion: Option<u8>,
}

/// The piece type behind an optional number: `Some(None)` for no number,
/// `Some(Some(role))` for the number of a piece type, `None` for any other
/// number.
pub open spec fn spec_optional_role(n: Option<u8>) -> Option<Option<Role>> {
    match n {
        None => Some(None),
        Some(k) => match Role::spec_from_number(k) {
            Some(role) => Some(Some(role)),
            None => None,
        },
    }
}

impl MoveRecord {
    /// The move that the record stands for. There is none when the record
    /// has no origin square, names a square off the board, or holds a number
    /// that is no piece type.
    pub open spec fn spec_decode(self) -> Option<Move> {
        match self.from {
            None => None,
            Some(origin) => {
                let from = Square { index: origin };
                let to = Square { index: self.to };
                if !from.wf() || !to.wf() {
                    None
                } else if self.castle {
                    Some(Move::Castle { king: from, rook: to })
                } else if self.en_passant {
                    Some(Move::EnPassant { from, to })
                } else {
                    match (
                        Role::spec_from_number(self.role),
                        spec_optional_role(self.capture),
                        spec_optional_role(self.promotion),
                    ) {
                        (Some(role), Some(capture), Some(promotion)) => Some(
                            Move::Normal { role, from, capture, to, promotion },
                        ),
                        _ => None,
                    }
                }
            },
        }
    }

    /// The move that the record stands for, if it stands for one.
    #[verifier::when_used_as_spec(spec_decode)]
    pub fn decode(self) -> (mv: Option<Move>)
        ensures
            mv == self.spec_decode(),
            mv matches Some(m) ==> m.wf(),
    {
        let origin = match self.from {
            None => {
                return None;
            },
            Some(origin) => origin,
        };
        if origin >= 64 || self.to >= 64 {
            return None;
        }
        let from = Square { index: origin };
        let to = Square { index: self.to };
        if self.castle {
            return Some(Move::Castle { king: from, rook: to });
        }
        if self.en_passant {
            return Some(Move::EnPassant { from, to });
        }
        let role = match Role::from_number(self.role) {
            None => {
                return None;
            },
            Some(role) => role,
        };
        let capture = match optional_role(self.capture) {
            None => {
                return None;
            },
            Some(capture) => capture,
        };
        let promotion = match optional_role(self.promotion) {
            None => {
                return None;
            },
            Some(promotion) => promotion,
        };
        Some(Move::Normal { role, from, capture, to, promotion })
    }
}

/// The piece type behind an optional number.
pub fn optional_role(n: Option<u8>) -> (r: Option<Option<Role>>)
    ensures
        r == spec_optional_role(n),
{
    match n {
        None => Some(None),
        Some(k) => match Role::from_number(k) {
            Some(role) => Some(Some(role)),
            None => None,
        },
    }
}

impl Move {
    /// The record of the move in plain numbers.
    pub open spec fn spec_record(self) -> MoveRecord {
        MoveRecord {
            castle: self.spec_is_castle(),
            en_passant: self.spec_is_en_passant(),
            role: self.spec_role().number(),
            from: Some(self.spec_from().index),
            to: self.spec_to().index,
            capture: match self.spec_capture() {
                Some(role) => Some(role.number()),
                None => None,
            },
            promotion: match self.spec_promotion() {
                Some(role) => Some(role.number()),
                None => None,
            },
        }
    }
}

/// Decoding the record of a move gives the move back.
pub proof fn lemma_record_roundtrip(mv: Move)
    requires
        mv.wf(),
    ensures
        mv.spec_record().spec_decode() == Some(mv),
{
}

} // verus!
