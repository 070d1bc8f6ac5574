//! The LED hints: which squares glow in which colour channel.
//!
//! The hints depend on the position and on what the player holds. They show
//! where a lifted piece may go and what it may take, which square an
//! operation under way is waiting for, and which square has to be cleared
//! after a mistake.
//!
//! As in the state machine, the rules are stated and computed over plain
//! values, and [`get_rgb`] applies them to what the rules oracle says about
//! a position.

use vstd::prelude::*;
use shakmaty::Chess;
use crate::bitboard::{all_squares, shifted, Bitboard};
use crate::fsm::{friendly_attackers, king_landing, king_landing_square, State};
use crate::oracle::{
    attacks_from, attacks_of, attacks_to, occupied, role_at, them, turn, view_of,
};
use crate::pieces::{Color, Role};
use crate::position::{enemy_squares, occupied_squares, role_on, PositionView};
use crate::square::{Rank, Square};

verus! {

/// The three colour channels of the board's LEDs, one set of squares each.
#[allow(clippy::upper_case_acronyms)]
#[derive(Clone, Copy, Debug, PartialEq, Eq, Structural)]
pub struct RGB {
    pub r: Bitboard,
    pub g: Bitboard,
    pub b: Bitboard,
}

/// The squares that glow in each channel.
pub struct Lights {
    pub r: Set<Square>,
    pub g: Set<Square>,
    pub b: Set<Square>,
}

impl View for RGB {
    type V = Lights;

    open spec fn view(&self) -> Lights {
        Lights { r: self.r@, g: self.g@, b: self.b@ }
    }
}

/// No square glows.
pub open spec fn dark() -> Lights {
    Lights { r: Set::empty(), g: Set::empty(), b: Set::empty() }
}

/// By how many indices a pawn of `color` advances with one step.
pub open spec fn pawn_push(color: Color) -> int {
    match color {
        Color::White => 8,
        Color::Black => -8,
    }
}

/// The square is on the rank where the pawns of `color` start.
pub open spec fn on_pawn_home_rank(color: Color, square: Square) -> bool {
    match color {
        Color::White => square.rank() == Rank::Second,
        Color::Black => square.rank() == Rank::Seventh,
    }
}

/// The square is on the rank from which a pawn of `color` promotes with its
/// next step.
pub open spec fn on_rank_before_promotion(color: Color, square: Square) -> bool {
    match color {
        Color::White => square.rank() == Rank::Seventh,
        Color::Black => square.rank() == Rank::Second,
    }
}

/// The empty squares to which a pawn of `mover` may advance from `square`
/// when the squares `taken` are occupied: one step, and from its home rank a
/// second one when the first is free.
pub open spec fn pawn_advances(square: Square, mover: Color, taken: Set<Square>) -> Set<Square> {
    let one = shifted(set![square], pawn_push(mover));
    if on_pawn_home_rank(mover, square) && !one.difference(taken).is_empty() {
        one.union(shifted(set![square], 2 * pawn_push(mover))).difference(taken)
    } else {
        one.difference(taken)
    }
}

/// The empty squares to which the piece lifted from `square` may go: the
/// advances of a pawn, and for any other piece the squares it attacks that
/// are not occupied.
pub open spec fn free_targets(
    square: Square,
    mover: Color,
    role: Option<Role>,
    attacks: Set<Square>,
    taken: Set<Square>,
) -> Set<Square> {
    if role == Some(Role::Pawn) {
        pawn_advances(square, mover, taken)
    } else {
        attacks.difference(taken)
    }
}

/// The hints for a friendly piece of type `role` lifted from `square`,
/// which attacks the squares `attacks`, on a board where the squares `taken`
/// are occupied, those of `enemies` by the other side.
///
/// Ordinarily the squares the piece may go to are green, and those where it
/// takes a piece red as well. When the piece is a pawn one step from
/// promotion with a free square to advance to, all of them are red, the free
/// ones blue and the captures green.
pub open spec fn lifted_rule(
    square: Square,
    mover: Color,
    role: Option<Role>,
    attacks: Set<Square>,
    taken: Set<Square>,
    enemies: Set<Square>,
) -> Lights {
    let moves = free_targets(square, mover, role, attacks, taken);
    let captures = attacks.intersect(enemies);
    if role == Some(Role::Pawn) && on_rank_before_promotion(mover, square) && !moves.is_empty() {
        Lights { r: moves.union(captures), g: captures, b: moves }
    } else {
        Lights { r: captures, g: moves.union(captures), b: Set::empty() }
    }
}

/// The hints for a lifted enemy piece: the friendly pieces that attack it,
/// in green.
pub open spec fn attackers_rule(attackers: Set<Square>) -> Lights {
    Lights { g: attackers, ..dark() }
}

/// The hints for the states that show a fixed square: the target of a
/// capture in green, the square that castling waits for in red and blue, the
/// offending square of a recoverable error in red, and the whole board in
/// red for an error. A lifted piece alone shows nothing here: its hints come
/// from [`lifted_rule`] and [`attackers_rule`].
pub open spec fn marker_rule(state: State, mover: Color) -> Lights {
    match state {
        State::Idle => dark(),
        State::FriendlyPU(_) => dark(),
        State::EnemyPU(_) => dark(),
        State::FriendlyAndEnemyPU(_, enemy) => Lights { g: set![enemy], ..dark() },
        State::Castling(_, rook) => {
            let target = king_landing(mover, rook);
            Lights { r: set![target], g: Set::empty(), b: set![target] }
        },
        State::CastlingPutRookDown(_, _, target) => Lights {
            r: set![target],
            g: Set::empty(),
            b: set![target],
        },
        State::InvalidPiecePU(_, square) => Lights { r: set![square], ..dark() },
        State::InvalidMove(_, square) => Lights { r: set![square], ..dark() },
        State::Error => Lights { r: all_squares(), ..dark() },
    }
}

/// The hints for a position and an interaction state.
pub open spec fn project(position: PositionView, state: State) -> Lights {
    match state {
        State::FriendlyPU(square) => lifted_rule(
            square,
            position.turn,
            role_on(position, square),
            attacks_from(position, square),
            occupied_squares(position),
            enemy_squares(position),
        ),
        State::EnemyPU(square) => attackers_rule(friendly_attackers(position, square)),
        _ => marker_rule(state, position.turn),
    }
}

/// The empty squares to which a pawn of `mover` may advance from `square`.
pub fn pawn_advance_squares(square: Square, mover: Color, taken: Bitboard) -> (squares: Bitboard)
    requires
        square.wf(),
    ensures
        squares@ == pawn_advances(square, mover, taken@),
{
    let forward: i32 = match mover {
        Color::White => 8,
        Color::Black => -8,
    };
    let rank = square.rank();
    let at_home = match mover {
        Color::White => rank == Rank::Second,
        Color::Black => rank == Rank::Seventh,
    };
    let pawn = Bitboard::from_square(square);
    let one = pawn.shift(forward);
    if at_home && one.without(taken).any() {
        one.with(pawn.shift(2 * forward)).without(taken)
    } else {
        one.without(taken)
    }
}

/// Applies [`lifted_rule`].
pub fn lifted_lights(
    square: Square,
    mover: Color,
    role: Option<Role>,
    attacks: Bitboard,
    taken: Bitboard,
    enemies: Bitboard,
) -> (rgb: RGB)
    requires
        square.wf(),
    ensures
        rgb@ == lifted_rule(square, mover, role, attacks@, taken@, enemies@),
{
    let is_pawn = role == Some(Role::Pawn);
    let moves = if is_pawn {
        pawn_advance_squares(square, mover, taken)
    } else {
        attacks.without(taken)
    };
    let captures = attacks.intersect(enemies);
    let rank = square.rank();
    let before_promotion = match mover {
        Color::White => rank == Rank::Seventh,
        Color::Black => rank == Rank::Second,
    };
    if is_pawn && before_promotion && moves.any() {
        RGB { r: moves.with(captures), g: captures, b: moves }
    } else {
        RGB { r: captures, g: moves.with(captures), b: Bitboard::empty() }
    }
}

/// Applies [`attackers_rule`].
pub fn attackers_lights(attackers: Bitboard) -> (rgb: RGB)
    ensures
        rgb@ == attackers_rule(attackers@),
{
    RGB { r: Bitboard::empty(), g: attackers, b: Bitboard::empty() }
}

/// Applies [`marker_rule`].
pub fn marker_lights(state: State, mover: Color) -> (rgb: RGB)
    requires
        state.wf(),
    ensures
        rgb@ == marker_rule(state, mover),
{
    let none = Bitboard::empty();
    match state {
        State::Idle => RGB { r: none, g: none, b: none },
        State::FriendlyPU(_) => RGB { r: none, g: none, b: none },
        State::EnemyPU(_) => RGB { r: none, g: none, b: none },
        State::FriendlyAndEnemyPU(_, enemy) => RGB {
            r: none,
            g: Bitboard::from_square(enemy),
            b: none,
        },
        State::Castling(_, rook) => {
            let target = Bitboard::from_square(king_landing_square(mover, rook));
            RGB { r: target, g: none, b: target }
        },
        State::CastlingPutRookDown(_, _, target) => {
            let target = Bitboard::from_square(target);
            RGB { r: target, g: none, b: target }
        },
        State::InvalidPiecePU(_, square) => RGB {
            r: Bitboard::from_square(square),
            g: none,
            b: none,
        },
        State::InvalidMove(_, square) => RGB { r: Bitboard::from_square(square), g: none, b: none },
        State::Error => RGB { r: Bitboard::full(), g: none, b: none },
    }
}

/// Computes the LED hints for a position and an interaction state.
pub fn get_rgb(position: &Chess, state: State) -> (rgb: RGB)
    requires
        state.wf(),
    ensures
        rgb@ == project(view_of(*position), state),
{
    match state {
        State::FriendlyPU(square) => lifted_lights(
            square,
            turn(position),
            role_at(position, square),
            attacks_of(position, square),
            occupied(position),
            them(position),
        ),
        State::EnemyPU(square) => attackers_lights(
            attacks_to(position, square, turn(position), occupied(position)),
        ),
        _ => marker_lights(state, turn(position)),
    }
}

} // verus!
