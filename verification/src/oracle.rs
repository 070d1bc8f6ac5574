//! The rules oracle: what `shakmaty` answers about a position.
//!
//! A [`Chess`] value is opaque to the verifier. What it holds is named by
//! [`view_of`]. What the rules make of it (attacks, legality, the next
//! position, notation) is named by one specification function per question,
//! of what the position holds and the question's arguments. Each question is
//! a wrapper here. Nothing in this module is proved: the contracts restate
//! what the `shakmaty` source shows.

use vstd::prelude::*;
use shakmaty::san::{ParseSanError, San, SanError};
use shakmaty::Bitboard as ChessBitboard;
use shakmaty::Chess;
use shakmaty::Color as ChessColor;
use shakmaty::Move as ChessMove;
use shakmaty::Outcome as ChessOutcome;
use shakmaty::PlayError;
use shakmaty::Position;
use shakmaty::Role as ChessRole;
use shakmaty::Square as ChessSquare;
use crate::bitboard::Bitboard;
use crate::moves::{Move, MoveRecord};
use crate::pieces::{Color, Outcome, Role};
use crate::position::{enemy_squares, friendly_squares, role_on, PositionView};
use crate::square::Square;

verus! {

/// `shakmaty::Chess`, a position of standard chess.
#[verifier::external_type_specification]
#[verifier::external_body]
pub struct ExChess(shakmaty::Chess);

/// `shakmaty::san::ParseSanError`: a text is no algebraic notation.
#[verifier::external_type_specification]
#[verifier::external_body]
pub struct ExParseSanError(shakmaty::san::ParseSanError);

/// `shakmaty::san::SanError`: a notation stands for no move, or for several.
#[verifier::external_type_specification]
#[verifier::external_body]
pub struct ExSanError(shakmaty::san::SanError);

/// `shakmaty::PlayError`: a move was refused as illegal.
#[verifier::external_type_specification]
#[verifier::external_body]
#[verifier::reject_recursive_types(P)]
pub struct ExPlayError<P>(shakmaty::PlayError<P>);

/// What a position holds: the pieces as `Board::piece_at` reports them
/// square by square, the side to move as `Position::turn` reports it, the
/// castling rights as `Castles::castling_rights`, the en passant square as
/// `Position::maybe_ep_square`, and the two move counters as
/// `Position::halfmoves` and `Position::fullmoves`.
pub uninterp spec fn view_of(position: Chess) -> PositionView;

/// The squares attacked by the piece on a square, as `Board::attacks_from`
/// reports them.
pub uninterp spec fn attacks_from(position: PositionView, square: Square) -> Set<Square>;

/// The pieces of one colour that attack a square when the given squares
/// block sliding pieces, as `Board::attacks_to` reports them.
pub uninterp spec fn attackers_to(
    position: PositionView,
    square: Square,
    attacker: Color,
    blockers: Set<Square>,
) -> Set<Square>;

/// The pieces of one colour that a king on a square would have to deal
/// with, as `Position::king_attackers` reports them.
pub uninterp spec fn king_attackers_of(
    position: PositionView,
    square: Square,
    attacker: Color,
    blockers: Set<Square>,
) -> Set<Square>;

/// Whether a move is legal in a position, as `Position::is_legal` reports it.
pub uninterp spec fn is_legal(position: PositionView, mv: Move) -> bool;

/// The position that a legal move leads to, as `Position::play` returns it.
pub uninterp spec fn position_after(position: PositionView, mv: Move) -> PositionView;

/// A move in standard algebraic notation, as `San::from_move` builds it and
/// its `Display` writes it.
pub uninterp spec fn san_of(position: PositionView, mv: Move) -> Seq<char>;

/// The move that a text stands for in a position: the notation that
/// `San::from_str` reads from the text, turned into a move by `San::to_move`.
/// `None` where the text is no notation, or the notation stands for no legal
/// move or for several.
pub uninterp spec fn san_move(position: PositionView, text: Seq<char>) -> Option<MoveRecord>;

/// Whether the game has ended, as `Position::is_game_over` reports it.
pub uninterp spec fn game_over(position: PositionView) -> bool;

/// How the game has ended, as `Position::outcome` reports it.
pub uninterp spec fn outcome_of(position: PositionView) -> Option<Outcome>;

/// Calls `Position::turn`. Claims that it reports the side to move of what
/// the position holds.
#[verifier::external_body]
pub(crate) fn turn(position: &Chess) -> (color: Color)
    ensures
        color == view_of(*position).turn,
{
    match position.turn() {
        ChessColor::White => Color::White,
        ChessColor::Black => Color::Black,
    }
}

/// Calls `Position::us`. Claims that it reports the squares whose piece
/// belongs to the side to move.
#[verifier::external_body]
pub(crate) fn us(position: &Chess) -> (squares: Bitboard)
    ensures
        squares@ == friendly_squares(view_of(*position)),
{
    Bitboard(position.us().0)
}

/// Calls `Position::them`. Claims that it reports the squares whose piece
/// belongs to the side not to move.
#[verifier::external_body]
pub(crate) fn them(position: &Chess) -> (squares: Bitboard)
    ensures
        squares@ == enemy_squares(view_of(*position)),
{
    Bitboard(position.them().0)
}

/// Calls `Board::occupied` on the position's board. Claims that it reports
/// the squares that hold a piece.
#[verifier::external_body]
pub(crate) fn occupied(position: &Chess) -> (squares: Bitboard)
    ensures
        squares@ == view_of(*position).pieces.dom(),
{
    Bitboard(position.board().occupied().0)
}

/// Calls `Board::role_at` on the position's board. Claims that it reports
/// the type of the piece on the square, and none for an empty square.
/// `Square::new` panics off the board, so the square has to lie on it.
#[verifier::external_body]
pub(crate) fn role_at(position: &Chess, square: Square) -> (role: Option<Role>)
    requires
        square.wf(),
    ensures
        role == role_on(view_of(*position), square),
{
    match position.board().role_at(ChessSquare::new(u32::from(square.index))) {
        None => None,
        Some(ChessRole::Pawn) => Some(Role::Pawn),
        Some(ChessRole::Knight) => Some(Role::Knight),
        Some(ChessRole::Bishop) => Some(Role::Bishop),
        Some(ChessRole::Rook) => Some(Role::Rook),
        Some(ChessRole::Queen) => Some(Role::Queen),
        Some(ChessRole::King) => Some(Role::King),
    }
}

/// Calls `Board::attacks_from` on the position's board. Claims that its
/// answer depends on what the position holds and on the square alone.
#[verifier::external_body]
pub(crate) fn attacks_of(position: &Chess, square: Square) -> (squares: Bitboard)
    requires
        square.wf(),
    ensures
        squares@ == attacks_from(view_of(*position), square),
{
    Bitboard(position.board().attacks_from(ChessSquare::new(u32::from(square.index))).0)
}

/// Calls `Board::attacks_to` on the position's board, a table lookup that
/// takes any mask of blockers. Claims that its answer depends on what the
/// position holds and on the three arguments alone.
#[verifier::external_body]
pub(crate) fn attacks_to(
    position: &Chess,
    square: Square,
    attacker: Color,
    blockers: Bitboard,
) -> (squares: Bitboard)
    requires
        square.wf(),
    ensures
        squares@ == attackers_to(view_of(*position), square, attacker, blockers@),
{
    let side = match attacker {
        Color::White => ChessColor::White,
        Color::Black => ChessColor::Black,
    };
    let target = ChessSquare::new(u32::from(square.index));
    Bitboard(position.board().attacks_to(target, side, ChessBitboard(blockers.0)).0)
}

/// Calls `Position::king_attackers`. Claims that its answer depends on what
/// the position holds and on the three arguments alone.
#[verifier::external_body]
pub(crate) fn king_attackers(
    position: &Chess,
    square: Square,
    attacker: Color,
    blockers: Bitboard,
) -> (squares: Bitboard)
    requires
        square.wf(),
    ensures
        squares@ == king_attackers_of(view_of(*position), square, attacker, blockers@),
{
    let side = match attacker {
        Color::White => ChessColor::White,
        Color::Black => ChessColor::Black,
    };
    let target = ChessSquare::new(u32::from(square.index));
    Bitboard(position.king_attackers(target, side, ChessBitboard(blockers.0)).0)
}

/// Calls `Position::is_legal`, which looks the move up among the legal moves
/// that the position generates. Claims that its answer depends on what the
/// position holds and on the move alone. The move is rebuilt field by field,
/// each piece type looked up in `Role::ALL`, which lists them from pawn to
/// king as [`Role`] declares them.
#[verifier::external_body]
pub(crate) fn legal(position: &Chess, mv: &Move) -> (ok: bool)
    requires
        mv.wf(),
    ensures
        ok == is_legal(view_of(*position), *mv),
{
    let sq = |s: Square| ChessSquare::new(u32::from(s.index));
    let ro = |r: Role| ChessRole::ALL[r as usize];
    position.is_legal(&match *mv {
        Move::Normal { role, from, capture, to, promotion } => ChessMove::Normal {
            role: ro(role),
            from: sq(from),
            capture: capture.map(ro),
            to: sq(to),
            promotion: promotion.map(ro),
        },
        Move::EnPassant { from, to } => ChessMove::EnPassant { from: sq(from), to: sq(to) },
        Move::Castle { king, rook } => ChessMove::Castle { king: sq(king), rook: sq(rook) },
    })
}

/// Calls `Position::play` on a copy of the position. Claims that it plays
/// the move exactly where `Position::is_legal` accepts it, and that what the
/// new position holds depends on what the old one held and on the move
/// alone. The move is rebuilt as for `Position::is_legal`.
#[verifier::external_body]
pub(crate) fn play(position: &Chess, mv: &Move) -> (r: Result<Chess, PlayError<Chess>>)
    requires
        mv.wf(),
    ensures
        r matches Ok(next) ==> is_legal(view_of(*position), *mv) && view_of(next) == position_after(
            view_of(*position),
            *mv,
        ),
        r.is_err() ==> !is_legal(view_of(*position), *mv),
{
    let sq = |s: Square| ChessSquare::new(u32::from(s.index));
    let ro = |r: Role| ChessRole::ALL[r as usize];
    position.clone().play(&match *mv {
        Move::Normal { role, from, capture, to, promotion } => ChessMove::Normal {
            role: ro(role),
            from: sq(from),
            capture: capture.map(ro),
            to: sq(to),
            promotion: promotion.map(ro),
        },
        Move::EnPassant { from, to } => ChessMove::EnPassant { from: sq(from), to: sq(to) },
        Move::Castle { king, rook } => ChessMove::Castle { king: sq(king), rook: sq(rook) },
    })
}

/// Calls `San::from_move` and writes the notation out. Claims that the text
/// depends on what the position holds and on the move alone. The move is
/// rebuilt as for `Position::is_legal`.
#[verifier::external_body]
pub(crate) fn san_text(position: &Chess, mv: &Move) -> (text: String)
    requires
        mv.wf(),
    ensures
        text@ == san_of(view_of(*position), *mv),
{
    let sq = |s: Square| ChessSquare::new(u32::from(s.index));
    let ro = |r: Role| ChessRole::ALL[r as usize];
    San::from_move(position, &match *mv {
        Move::Normal { role, from, capture, to, promotion } => ChessMove::Normal {
            role: ro(role),
            from: sq(from),
            capture: capture.map(ro),
            to: sq(to),
            promotion: promotion.map(ro),
        },
        Move::EnPassant { from, to } => ChessMove::EnPassant { from: sq(from), to: sq(to) },
        Move::Castle { king, rook } => ChessMove::Castle { king: sq(king), rook: sq(rook) },
    }).to_string()
}

/// Calls `San::from_str` on the text and `San::to_move` on the notation
/// read, and reads the move found through its accessors, piece types and
/// squares as the numbers that `u8::from` gives them. Claims that the record
/// depends on what the position holds and on the text alone, and that there
/// is one exactly when both calls succeed.
#[verifier::external_body]
pub(crate) fn san_to_move(position: &Chess, text: &str) -> (r: Result<
    Result<MoveRecord, SanError>,
    ParseSanError,
>)
    ensures
        r matches Ok(Ok(record)) ==> san_move(view_of(*position), text@) == Some(record),
        !(r matches Ok(Ok(_))) ==> san_move(view_of(*position), text@).is_none(),
{
    let record = |m: ChessMove| MoveRecord {
        castle: m.is_castle(),
        en_passant: m.is_en_passant(),
        role: u8::from(m.role()),
        from: m.from().map(u8::from),
        to: u8::from(m.to()),
        capture: m.capture().map(u8::from),
        promotion: m.promotion().map(u8::from),
    };
    text.parse::<San>().map(|san| san.to_move(position).map(record))
}

/// Calls `Position::is_game_over`. Claims that its answer depends on what
/// the position holds alone.
#[verifier::external_body]
pub(crate) fn is_game_over(position: &Chess) -> (over: bool)
    ensures
        over == game_over(view_of(*position)),
{
    position.is_game_over()
}

/// Calls `Position::outcome`. Claims that its answer depends on what the
/// position holds alone.
#[verifier::external_body]
pub(crate) fn outcome(position: &Chess) -> (result: Option<Outcome>)
    ensures
        result == outcome_of(view_of(*position)),
{
    match position.outcome() {
        None => None,
        Some(ChessOutcome::Draw) => Some(Outcome::Draw),
        Some(ChessOutcome::Decisive { winner: ChessColor::White }) => Some(
            Outcome::Decisive { winner: Color::White },
        ),
        Some(ChessOutcome::Decisive { winner: ChessColor::Black }) => Some(
            Outcome::Decisive { winner: Color::Black },
        ),
    }
}

} // verus!
