//! The board interaction state machine.
//!
//! A reed switch reports only that a square changed between empty and
//! occupied. [`update_state`] interprets one such event against the current
//! position and the state left by the events before it, and answers with the
//! next state and, once the pieces have landed, the move they made.
//!
//! The module has three layers. The rules (`idle_rule`, `friendly_rule` and
//! so on) say what each state does with an event, given what stands on the
//! squares involved and what the chess rules say about them; the functions
//! `on_idle`, `on_friendly` and so on compute them from plain values. The
//! machine [`step`] applies the rules to what a position holds, and
//! [`update_state`] computes it by asking the rules oracle. The laws at the
//! end of the module are statements about [`step`].

use vstd::prelude::*;
use shakmaty::Chess;
use crate::moves::Move;
use crate::oracle::{
    attackers_to, attacks_from, attacks_of, attacks_to, is_legal, king_attackers,
    king_attackers_of, legal, occupied, turn, view_of,
};
use crate::pieces::{Color, Role};
use crate::position::{
    is_enemy, is_friendly, occupant, occupant_at, occupied_squares, Occupant, PositionView,
};
use crate::square::{File, Rank, Square};

verus! {

/// What the machine remembers between two events.
#[derive(Clone, Copy, Debug, PartialEq, Eq, Hash, Structural)]
pub enum State {
    /// Every piece stands on its square.
    Idle,
    /// A piece of the side to move was lifted from the square.
    FriendlyPU(Square),
    /// A piece of the other side was lifted from the square, which a
    /// friendly piece attacks.
    EnemyPU(Square),
    /// A friendly piece (first) and an enemy piece (second) are lifted: a
    /// capture is under way.
    FriendlyAndEnemyPU(Square, Square),
    /// King (first) and rook (second) are lifted and may castle; the king
    /// has to land next.
    Castling(Square, Square),
    /// The king has landed; the rook has to land on the third square.
    CastlingPutRookDown(Square, Square, Square),
    /// A piece was lifted from the second square that may not be; putting it
    /// back returns to the state that the first square stands for.
    InvalidPiecePU(Option<Square>, Square),
    /// The piece lifted from the first square was put on the second, where
    /// it may not go; lifting it there again returns to `FriendlyPU`.
    InvalidMove(Square, Square),
    /// The board and the machine disagree beyond repair.
    Error,
}

impl State {
    /// Every square the state names lies on the board.
    pub open spec fn wf(self) -> bool {
        match self {
            State::Idle => true,
            State::FriendlyPU(a) => a.wf(),
            State::EnemyPU(a) => a.wf(),
            State::FriendlyAndEnemyPU(a, b) => a.wf() && b.wf(),
            State::Castling(a, b) => a.wf() && b.wf(),
            State::CastlingPutRookDown(a, b, c) => a.wf() && b.wf() && c.wf(),
            State::InvalidPiecePU(a, b) => b.wf() && (a matches Some(p) ==> p.wf()),
            State::InvalidMove(a, b) => a.wf() && b.wf(),
            State::Error => true,
        }
    }

    /// How many pieces the player holds above the board in this state.
    pub open spec fn pieces_in_hand(self) -> nat {
        match self {
            State::Idle => 0,
            State::FriendlyPU(_) => 1,
            State::EnemyPU(_) => 1,
            State::FriendlyAndEnemyPU(_, _) => 2,
            State::Castling(_, _) => 2,
            State::CastlingPutRookDown(_, _, _) => 1,
            State::InvalidPiecePU(None, _) => 1,
            State::InvalidPiecePU(Some(_), _) => 2,
            State::InvalidMove(_, _) => 0,
            State::Error => 0,
        }
    }
}

// ---------------------------------------------------------------------
// The rules, over plain values
// ---------------------------------------------------------------------

/// The square lies on the first or the eighth rank.
pub open spec fn on_back_rank(square: Square) -> bool {
    square.rank() == Rank::First || square.rank() == Rank::Eighth
}

/// The rank on which a side's king and rooks start.
pub open spec fn home_rank(color: Color) -> Rank {
    match color {
        Color::White => Rank::First,
        Color::Black => Rank::Eighth,
    }
}

/// Where the king of `color` lands when it castles with the rook on
/// `rook`: the c-file for the rook of the a-file, else the g-file.
pub open spec fn king_landing(color: Color, rook: Square) -> Square {
    if rook.file() == File::A {
        Square::spec_from_coords(File::C, home_rank(color))
    } else {
        Square::spec_from_coords(File::G, home_rank(color))
    }
}

/// Where the rook on `rook` lands when the king of `color` castles with
/// it: the d-file for the rook of the a-file, else the f-file.
pub open spec fn rook_landing(color: Color, rook: Square) -> Square {
    if rook.file() == File::A {
        Square::spec_from_coords(File::D, home_rank(color))
    } else {
        Square::spec_from_coords(File::F, home_rank(color))
    }
}

/// What a pawn turns into on `to`: a queen on a back rank. Other pieces
/// stay what they are.
pub open spec fn promotion_on(role: Role, to: Square) -> Option<Role> {
    if role == Role::Pawn && on_back_rank(to) {
        Some(Role::Queen)
    } else {
        None
    }
}

/// The castling that lifting the piece on `square` after the piece on
/// `prev` stands for: a rook was lifted and `square` holds the king of the
/// side to move, or a king was lifted and `square` holds a rook of the side
/// to move.
pub open spec fn castle_pair(prev: Square, square: Square, lifted: Occupant, touched: Occupant) -> Option<
    Move,
> {
    if lifted.spec_role() == Some(Role::Rook) && touched == Occupant::Friendly(Role::King) {
        Some(Move::Castle { king: square, rook: prev })
    } else if lifted.spec_role() == Some(Role::King) && touched == Occupant::Friendly(Role::Rook) {
        Some(Move::Castle { king: prev, rook: square })
    } else {
        None
    }
}

/// The move without capture that carries the lifted piece from `prev` to
/// `square`. There is none when no piece stood on `prev`.
pub open spec fn quiet_move(prev: Square, square: Square, lifted: Occupant) -> Option<Move> {
    match lifted.spec_role() {
        None => None,
        Some(role) => Some(
            Move::Normal {
                role,
                from: prev,
                capture: None,
                to: square,
                promotion: promotion_on(role, square),
            },
        ),
    }
}

/// The move by which the piece from `friendly` takes the piece on `enemy`.
/// There is none when no piece stood on `friendly`.
pub open spec fn capturing_move(
    friendly: Square,
    enemy: Square,
    capturer: Occupant,
    victim: Occupant,
) -> Option<Move> {
    match capturer.spec_role() {
        None => None,
        Some(role) => Some(
            Move::Normal {
                role,
                from: friendly,
                capture: victim.spec_role(),
                to: enemy,
                promotion: promotion_on(role, enemy),
            },
        ),
    }
}

/// From `Idle` every event is a lift. A friendly piece may always be
/// lifted, an enemy piece when a friendly piece attacks it; lifting from an
/// empty square is an error.
pub open spec fn idle_rule(square: Square, touched: Occupant, attacked: bool) -> State {
    match touched {
        Occupant::Friendly(_) => State::FriendlyPU(square),
        Occupant::Enemy(_) => if attacked {
            State::EnemyPU(square)
        } else {
            State::InvalidPiecePU(None, square)
        },
        Occupant::Empty => State::Error,
    }
}

/// With a friendly piece lifted from `prev`.
///
/// `lifted` and `touched` are what the position holds on `prev` and on
/// `square`, `reaches` says whether the lifted piece attacks `square`,
/// `castle_legal` whether the castling of [`castle_pair`] is legal and
/// `move_legal` whether the move of [`quiet_move`] is.
///
/// An event on `prev` puts the piece back. A second lift that makes a legal
/// castling starts castling. Another friendly piece, or an enemy piece that
/// the lifted one does not attack, is an invalid pickup; an enemy piece that
/// it attacks starts a capture. On an empty square the piece lands: a pawn
/// on a back rank promotes at once, any other landing is tested for
/// legality.
pub open spec fn friendly_rule(
    prev: Square,
    square: Square,
    lifted: Occupant,
    touched: Occupant,
    reaches: bool,
    castle_legal: bool,
    move_legal: bool,
) -> (State, Option<Move>) {
    if square == prev {
        (State::Idle, None)
    } else if castle_pair(prev, square, lifted, touched).is_some() && castle_legal {
        let castle = castle_pair(prev, square, lifted, touched).unwrap();
        (State::Castling(castle.spec_from(), castle.spec_to()), None)
    } else if touched is Friendly || (touched is Enemy && !reaches) {
        (State::InvalidPiecePU(Some(prev), square), None)
    } else if touched is Enemy {
        (State::FriendlyAndEnemyPU(prev, square), None)
    } else {
        match quiet_move(prev, square, lifted) {
            Some(mv) => if mv.spec_is_promotion() || move_legal {
                (State::Idle, Some(mv))
            } else {
                (State::InvalidMove(prev, square), None)
            },
            None => (State::InvalidMove(prev, square), None),
        }
    }
}

/// With an enemy piece lifted from `prev`.
///
/// `touched` is what the position holds on `square`, `attacks` says whether
/// the piece there is among the friendly pieces that attack `prev`, and
/// `defended` whether an enemy piece defends `prev`.
///
/// An event on `prev` puts the piece back. A friendly piece that attacks
/// `prev` is lifted to capture, unless it is the king and `prev` is
/// defended. Any other lift is an invalid pickup.
pub open spec fn enemy_rule(
    prev: Square,
    square: Square,
    touched: Occupant,
    attacks: bool,
    defended: bool,
) -> State {
    if square == prev {
        State::Idle
    } else if touched is Friendly && attacks && !(touched == Occupant::Friendly(Role::King)
        && defended) {
        State::FriendlyAndEnemyPU(square, prev)
    } else {
        State::InvalidPiecePU(Some(prev), square)
    }
}

/// With a friendly piece lifted from `friendly` and an enemy piece lifted
/// from `enemy`; `capturer` and `victim` are what the position holds there.
///
/// Putting the friendly piece back leaves the enemy piece lifted. Landing
/// on the enemy's square completes the capture. Anything else is an error.
pub open spec fn capture_rule(
    friendly: Square,
    enemy: Square,
    square: Square,
    capturer: Occupant,
    victim: Occupant,
) -> (State, Option<Move>) {
    if square == friendly {
        (State::EnemyPU(enemy), None)
    } else if square == enemy {
        match capturing_move(friendly, enemy, capturer, victim) {
            Some(mv) => (State::Idle, Some(mv)),
            None => (State::Error, None),
        }
    } else {
        (State::Error, None)
    }
}

/// With king and rook lifted for castling: the king has to land on its
/// landing square.
pub open spec fn castling_rule(king: Square, rook: Square, square: Square, mover: Color) -> State {
    if square == king_landing(mover, rook) {
        State::CastlingPutRookDown(king, rook, rook_landing(mover, rook))
    } else {
        State::Error
    }
}

/// With the castling king landed: the rook has to land on `target`, which
/// completes the castling.
pub open spec fn rook_down_rule(king: Square, rook: Square, target: Square, square: Square) -> (
    State,
    Option<Move>,
) {
    if square == target {
        (State::Idle, Some(Move::Castle { king, rook }))
    } else {
        (State::Error, None)
    }
}

/// With a piece lifted from `offender` that may not be: it has to go back.
/// The state then is the one before the pickup, told from what the position
/// holds on the remembered square `prev`.
pub open spec fn invalid_piece_rule(
    prev: Option<Square>,
    offender: Square,
    square: Square,
    remembered: Occupant,
) -> State {
    if square != offender {
        State::Error
    } else {
        match prev {
            None => State::Idle,
            Some(p) => match remembered {
                Occupant::Friendly(_) => State::FriendlyPU(p),
                Occupant::Enemy(_) => State::EnemyPU(p),
                Occupant::Empty => State::Error,
            },
        }
    }
}

/// With the piece from `from` standing on `to`, where it may not go: it
/// has to be lifted from there again.
pub open spec fn invalid_move_rule(from: Square, to: Square, square: Square) -> State {
    if square == to {
        State::FriendlyPU(from)
    } else {
        State::Error
    }
}

/// Whether the square lies on the first or the eighth rank.
pub fn is_on_back_rank(square: Square) -> (b: bool)
    requires
        square.wf(),
    ensures
        b == on_back_rank(square),
{
    let rank = square.rank();
    rank == Rank::First || rank == Rank::Eighth
}

/// The square on which the king of `color` lands when it castles with the
/// rook on `rook`.
pub fn king_landing_square(color: Color, rook: Square) -> (sq: Square)
    requires
        rook.wf(),
    ensures
        sq == king_landing(color, rook),
        sq.wf(),
{
    let rank = match color {
        Color::White => Rank::First,
        Color::Black => Rank::Eighth,
    };
    if rook.file() == File::A {
        Square::from_coords(File::C, rank)
    } else {
        Square::from_coords(File::G, rank)
    }
}

/// The square on which the rook on `rook` lands when the king of `color`
/// castles with it.
pub fn rook_landing_square(color: Color, rook: Square) -> (sq: Square)
    requires
        rook.wf(),
    ensures
        sq == rook_landing(color, rook),
        sq.wf(),
{
    let rank = match color {
        Color::White => Rank::First,
        Color::Black => Rank::Eighth,
    };
    if rook.file() == File::A {
        Square::from_coords(File::D, rank)
    } else {
        Square::from_coords(File::F, rank)
    }
}

/// What a pawn turns into on `to`.
pub fn promotion_for(role: Role, to: Square) -> (p: Option<Role>)
    requires
        to.wf(),
    ensures
        p == promotion_on(role, to),
{
    if role == Role::Pawn && is_on_back_rank(to) {
        Some(Role::Queen)
    } else {
        None
    }
}

/// The castling that lifting the piece on `square` after the piece on
/// `prev` stands for, if it stands for one.
pub fn castle_candidate(prev: Square, square: Square, lifted: Occupant, touched: Occupant) -> (c:
    Option<Move>)
    ensures
        c == castle_pair(prev, square, lifted, touched),
{
    let role = lifted.role();
    if role == Some(Role::Rook) && touched == Occupant::Friendly(Role::King) {
        Some(Move::Castle { king: square, rook: prev })
    } else if role == Some(Role::King) && touched == Occupant::Friendly(Role::Rook) {
        Some(Move::Castle { king: prev, rook: square })
    } else {
        None
    }
}

/// The move without capture that carries the lifted piece from `prev` to
/// `square`, if a piece was lifted.
pub fn quiet_candidate(prev: Square, square: Square, lifted: Occupant) -> (c: Option<Move>)
    requires
        square.wf(),
    ensures
        c == quiet_move(prev, square, lifted),
{
    match lifted.role() {
        None => None,
        Some(role) => Some(
            Move::Normal {
                role,
                from: prev,
                capture: None,
                to: square,
                promotion: promotion_for(role, square),
            },
        ),
    }
}

/// Applies [`idle_rule`].
pub fn on_idle(square: Square, touched: Occupant, attacked: bool) -> (next: State)
    ensures
        next == idle_rule(square, touched, attacked),
{
    match touched {
        Occupant::Friendly(_) => State::FriendlyPU(square),
        Occupant::Enemy(_) => {
            if attacked {
                State::EnemyPU(square)
            } else {
                State::InvalidPiecePU(None, square)
            }
        },
        Occupant::Empty => State::Error,
    }
}

/// Applies [`friendly_rule`].
pub fn on_friendly(
    prev: Square,
    square: Square,
    lifted: Occupant,
    touched: Occupant,
    reaches: bool,
    castle_legal: bool,
    move_legal: bool,
) -> (r: (State, Option<Move>))
    requires
        square.wf(),
    ensures
        r == friendly_rule(prev, square, lifted, touched, reaches, castle_legal, move_legal),
{
    if square == prev {
        return (State::Idle, None);
    }
    if castle_legal {
        match castle_candidate(prev, square, lifted, touched) {
            Some(castle) => {
                return (State::Castling(castle.from(), castle.to()), None);
            },
            None => {},
        }
    }
    match touched {
        Occupant::Friendly(_) => (State::InvalidPiecePU(Some(prev), square), None),
        Occupant::Enemy(_) => {
            if reaches {
                (State::FriendlyAndEnemyPU(prev, square), None)
            } else {
                (State::InvalidPiecePU(Some(prev), square), None)
            }
        },
        Occupant::Empty => match quiet_candidate(prev, square, lifted) {
            Some(mv) => {
                if mv.is_promotion() || move_legal {
                    (State::Idle, Some(mv))
                } else {
                    (State::InvalidMove(prev, square), None)
                }
            },
            None => (State::InvalidMove(prev, square), None),
        },
    }
}

/// Applies [`enemy_rule`].
pub fn on_enemy(prev: Square, square: Square, touched: Occupant, attacks: bool, defended: bool) -> (next:
    State)
    ensures
        next == enemy_rule(prev, square, touched, attacks, defended),
{
    if square == prev {
        return State::Idle;
    }
    let intended = match touched {
        Occupant::Friendly(role) => attacks && !(role == Role::King && defended),
        _ => false,
    };
    if intended {
        State::FriendlyAndEnemyPU(square, prev)
    } else {
        State::InvalidPiecePU(Some(prev), square)
    }
}

/// Applies [`capture_rule`].
pub fn on_capture(
    friendly: Square,
    enemy: Square,
    square: Square,
    capturer: Occupant,
    victim: Occupant,
) -> (r: (State, Option<Move>))
    requires
        enemy.wf(),
    ensures
        r == capture_rule(friendly, enemy, square, capturer, victim),
{
    if square == friendly {
        (State::EnemyPU(enemy), None)
    } else if square == enemy {
        match capturer.role() {
            None => (State::Error, None),
            Some(role) => {
                let mv = Move::Normal {
                    role,
                    from: friendly,
                    capture: victim.role(),
                    to: enemy,
                    promotion: promotion_for(role, enemy),
                };
                (State::Idle, Some(mv))
            },
        }
    } else {
        (State::Error, None)
    }
}

/// Applies [`castling_rule`].
pub fn on_castling(king: Square, rook: Square, square: Square, mover: Color) -> (next: State)
    requires
        rook.wf(),
    ensures
        next == castling_rule(king, rook, square, mover),
{
    if square == king_landing_square(mover, rook) {
        State::CastlingPutRookDown(king, rook, rook_landing_square(mover, rook))
    } else {
        State::Error
    }
}

/// Applies [`rook_down_rule`].
pub fn on_rook_down(king: Square, rook: Square, target: Square, square: Square) -> (r: (
    State,
    Option<Move>,
))
    ensures
        r == rook_down_rule(king, rook, target, square),
{
    if square == target {
        (State::Idle, Some(Move::Castle { king, rook }))
    } else {
        (State::Error, None)
    }
}

/// Applies [`invalid_piece_rule`].
pub fn on_invalid_piece(
    prev: Option<Square>,
    offender: Square,
    square: Square,
    remembered: Occupant,
) -> (next: State)
    ensures
        next == invalid_piece_rule(prev, offender, square, remembered),
{
    if square != offender {
        return State::Error;
    }
    match prev {
        None => State::Idle,
        Some(p) => match remembered {
            Occupant::Friendly(_) => State::FriendlyPU(p),
            Occupant::Enemy(_) => State::EnemyPU(p),
            Occupant::Empty => State::Error,
        },
    }
}

/// Applies [`invalid_move_rule`].
pub fn on_invalid_move(from: Square, to: Square, square: Square) -> (next: State)
    ensures
        next == invalid_move_rule(from, to, square),
{
    if square == to {
        State::FriendlyPU(from)
    } else {
        State::Error
    }
}

// ---------------------------------------------------------------------
// The machine, over a position
// ---------------------------------------------------------------------

/// The friendly pieces that attack the square.
pub open spec fn friendly_attackers(position: PositionView, square: Square) -> Set<Square> {
    attackers_to(position, square, position.turn, occupied_squares(position))
}

/// The enemy pieces that defend the square, as a king that wants to go
/// there sees them.
pub open spec fn enemy_defenders(position: PositionView, square: Square) -> Set<Square> {
    king_attackers_of(
        position,
        square,
        position.turn.other(),
        occupied_squares(position),
    )
}

/// There is a candidate move, and it is legal in the position.
pub open spec fn is_legal_candidate(position: PositionView, candidate: Option<Move>) -> bool {
    candidate matches Some(mv) && is_legal(position, mv)
}

/// What the remembered square of an invalid pickup holds; nothing where
/// none is remembered.
pub open spec fn remembered_occupant(position: PositionView, prev: Option<Square>) -> Occupant {
    match prev {
        None => Occupant::Empty,
        Some(p) => occupant(position, p),
    }
}

/// The machine: the state after the event on `square`, and the move that
/// the event completes, if it completes one.
pub open spec fn step(position: PositionView, state: State, square: Square) -> (State, Option<Move>) {
    match state {
        State::Idle => (
            idle_rule(
                square,
                occupant(position, square),
                !friendly_attackers(position, square).is_empty(),
            ),
            None,
        ),
        State::FriendlyPU(prev) => {
            let lifted = occupant(position, prev);
            let touched = occupant(position, square);
            friendly_rule(
                prev,
                square,
                lifted,
                touched,
                attacks_from(position, prev).contains(square),
                is_legal_candidate(position, castle_pair(prev, square, lifted, touched)),
                is_legal_candidate(position, quiet_move(prev, square, lifted)),
            )
        },
        State::EnemyPU(prev) => (
            enemy_rule(
                prev,
                square,
                occupant(position, square),
                friendly_attackers(position, prev).contains(square),
                !enemy_defenders(position, prev).is_empty(),
            ),
            None,
        ),
        State::FriendlyAndEnemyPU(friendly, enemy) => capture_rule(
            friendly,
            enemy,
            square,
            occupant(position, friendly),
            occupant(position, enemy),
        ),
        State::Castling(king, rook) => (
            castling_rule(king, rook, square, position.turn),
            None,
        ),
        State::CastlingPutRookDown(king, rook, target) => rook_down_rule(
            king,
            rook,
            target,
            square,
        ),
        State::InvalidPiecePU(prev, offender) => (
            invalid_piece_rule(prev, offender, square, remembered_occupant(position, prev)),
            None,
        ),
        State::InvalidMove(from, to) => (invalid_move_rule(from, to, square), None),
        State::Error => (State::Error, None),
    }
}

fn candidate_is_legal(position: &Chess, candidate: Option<Move>) -> (ok: bool)
    requires
        candidate matches Some(mv) ==> mv.wf(),
    ensures
        ok == is_legal_candidate(view_of(*position), candidate),
{
    match candidate {
        Some(mv) => legal(position, &mv),
        None => false,
    }
}

fn step_from_friendly(position: &Chess, prev: Square, square: Square) -> (r: (State, Option<Move>))
    requires
        prev.wf(),
        square.wf(),
    ensures
        r == step(view_of(*position), State::FriendlyPU(prev), square),
{
    let lifted = occupant_at(position, prev);
    let touched = occupant_at(position, square);
    let reaches = attacks_of(position, prev).contains(square);
    let castle_legal = candidate_is_legal(position, castle_candidate(prev, square, lifted, touched));
    let move_legal = candidate_is_legal(position, quiet_candidate(prev, square, lifted));
    on_friendly(prev, square, lifted, touched, reaches, castle_legal, move_legal)
}

fn step_from_enemy(position: &Chess, prev: Square, square: Square) -> (next: State)
    requires
        prev.wf(),
        square.wf(),
    ensures
        next == step(view_of(*position), State::EnemyPU(prev), square).0,
{
    let blockers = occupied(position);
    let mover = turn(position);
    let attacks = attacks_to(position, prev, mover, blockers).contains(square);
    let defended = king_attackers(position, prev, mover.other(), blockers).any();
    on_enemy(prev, square, occupant_at(position, square), attacks, defended)
}

/// Advances the machine by one event: `instruction` is the index of the
/// square whose occupancy changed.
///
/// The answer is a function of position, state and event alone, and the
/// position is only read. When a move comes back the state is `Idle` again;
/// the caller plays the move before it hands in the next event.
pub fn update_state(position: &Chess, instruction: u32, state: State) -> (r: (State, Option<Move>))
    requires
        instruction < 64,
        state.wf(),
    ensures
        r == step(view_of(*position), state, Square { index: instruction as u8 }),
        r.0.wf(),
        r.1 matches Some(mv) ==> mv.wf(),
{
    let square = Square::new(instruction);
    match state {
        State::Idle => {
            let attacked = attacks_to(position, square, turn(position), occupied(position)).any();
            (on_idle(square, occupant_at(position, square), attacked), None)
        },
        State::FriendlyPU(prev) => step_from_friendly(position, prev, square),
        State::EnemyPU(prev) => (step_from_enemy(position, prev, square), None),
        State::FriendlyAndEnemyPU(friendly, enemy) => on_capture(
            friendly,
            enemy,
            square,
            occupant_at(position, friendly),
            occupant_at(position, enemy),
        ),
        State::Castling(king, rook) => (on_castling(king, rook, square, turn(position)), None),
        State::CastlingPutRookDown(king, rook, target) => on_rook_down(king, rook, target, square),
        State::InvalidPiecePU(prev, offender) => {
            let remembered = match prev {
                None => Occupant::Empty,
                Some(p) => occupant_at(position, p),
            };
            (on_invalid_piece(prev, offender, square, remembered), None)
        },
        State::InvalidMove(from, to) => (on_invalid_move(from, to, square), None),
        State::Error => (State::Error, None),
    }
}

// ---------------------------------------------------------------------
// Laws
// ---------------------------------------------------------------------

/// What holds of every state that the machine reaches from `Idle` while the
/// position stays the same: the squares it remembers hold the pieces that
/// put them there, and a castling under way is legal.
pub open spec fn consistent(position: PositionView, state: State) -> bool {
    match state {
        State::Idle => true,
        State::FriendlyPU(s) => is_friendly(position, s),
        State::EnemyPU(s) => is_enemy(position, s),
        State::FriendlyAndEnemyPU(friendly, enemy) => is_friendly(position, friendly) && is_enemy(
            position,
            enemy,
        ),
        State::Castling(king, rook) => is_legal(position, Move::Castle { king, rook }),
        State::CastlingPutRookDown(king, rook, _) => is_legal(
            position,
            Move::Castle { king, rook },
        ),
        State::InvalidPiecePU(None, _) => true,
        State::InvalidPiecePU(Some(p), _) => is_friendly(position, p) || is_enemy(position, p),
        State::InvalidMove(from, _) => is_friendly(position, from),
        State::Error => true,
    }
}

/// The square whose event undoes the last lift: the lifted piece's own
/// square, and with two pieces in hand that of the friendly one.
pub open spec fn put_back_square(state: State) -> Square
    recommends
        state is FriendlyPU || state is EnemyPU || state is FriendlyAndEnemyPU,
{
    match state {
        State::FriendlyPU(s) => s,
        State::EnemyPU(s) => s,
        State::FriendlyAndEnemyPU(friendly, _) => friendly,
        _ => arbitrary(),
    }
}

/// The square whose event leaves a recoverable error: the one that the
/// offending piece has to leave or return to.
pub open spec fn recovery_square(state: State) -> Square
    recommends
        state is InvalidPiecePU || state is InvalidMove,
{
    match state {
        State::InvalidPiecePU(_, offender) => offender,
        State::InvalidMove(_, to) => to,
        _ => arbitrary(),
    }
}

/// The state after a run of events, from `state` on, while the position
/// stays as it is.
pub open spec fn run(position: PositionView, state: State, events: Seq<Square>) -> State
    decreases events.len(),
{
    if events.len() == 0 {
        state
    } else {
        run(position, step(position, state, events[0]).0, events.drop_first())
    }
}

/// The machine is total, and it stays on the board: for every position,
/// every state and every event it names a next state, and from squares on
/// the board that state and the move that comes back name squares on the
/// board only.
pub proof fn lemma_step_stays_on_board(position: PositionView, state: State, square: Square)
    requires
        state.wf(),
        square.wf(),
    ensures
        step(position, state, square).0.wf(),
        step(position, state, square).1 matches Some(mv) ==> mv.wf(),
{
}

/// `Idle` is consistent with every position, and no event leads from a
/// consistent state to an inconsistent one.
pub proof fn lemma_step_keeps_consistency(position: PositionView, state: State, square: Square)
    requires
        consistent(position, state),
    ensures
        consistent(position, State::Idle),
        consistent(position, step(position, state, square).0),
{
}

/// Every state that a run of events reaches from a consistent state, and so
/// from `Idle`, is consistent.
pub proof fn lemma_run_keeps_consistency(position: PositionView, state: State, events: Seq<Square>)
    requires
        consistent(position, state),
    ensures
        consistent(position, run(position, state, events)),
        consistent(position, run(position, State::Idle, events)),
    decreases events.len(),
{
    if events.len() > 0 {
        lemma_step_keeps_consistency(position, state, events[0]);
        lemma_run_keeps_consistency(
            position,
            step(position, state, events[0]).0,
            events.drop_first(),
        );
        lemma_step_keeps_consistency(position, State::Idle, events[0]);
        lemma_run_keeps_consistency(
            position,
            step(position, State::Idle, events[0]).0,
            events.drop_first(),
        );
    }
}

/// In a consistent state the lifted pieces are there: the landing of a
/// lifted friendly piece on an empty square always stands for a move of that
/// piece, and the landing of a capturing piece always brings back a capture
/// of the piece that stood on the enemy's square.
pub proof fn lemma_consistent_states_hold_pieces(position: PositionView, state: State, square: Square)
    requires
        consistent(position, state),
    ensures
        state matches State::FriendlyPU(prev) ==> quiet_move(
            prev,
            square,
            occupant(position, prev),
        ).is_some(),
        state matches State::FriendlyAndEnemyPU(friendly, enemy) ==> (square == enemy ==> (step(
            position,
            state,
            square,
        ).1 matches Some(mv) && mv.spec_is_capture() && mv.spec_capture() == occupant(
            position,
            enemy,
        ).spec_role() && Some(mv.spec_role()) == occupant(position, friendly).spec_role())),
{
}

/// A move comes back only together with the state `Idle`, and only when a
/// lifted friendly piece lands or a castling rook does.
pub proof fn lemma_commit_returns_to_idle(position: PositionView, state: State, square: Square)
    requires
        step(position, state, square).1.is_some(),
    ensures
        step(position, state, square).0 == State::Idle,
        state is FriendlyPU || state is FriendlyAndEnemyPU || state is CastlingPutRookDown,
{
}

/// A move that comes back from a consistent state, and neither captures nor
/// promotes, is legal in the position: it is a castling, whose legality was
/// tested when the second piece was lifted, or a move of one piece to an
/// empty square, tested when the piece landed. Captures and promotions come
/// back untested.
pub proof fn lemma_committed_move_is_legal(position: PositionView, state: State, square: Square)
    requires
        consistent(position, state),
        step(position, state, square).1 matches Some(mv) && !mv.spec_is_capture()
            && !mv.spec_is_promotion(),
    ensures
        step(position, state, square).1 matches Some(mv) && is_legal(position, mv),
{
}

/// After any run of events from `Idle`, a move that comes back and neither
/// captures nor promotes is legal.
pub proof fn lemma_reached_commit_is_legal(position: PositionView, events: Seq<Square>, square: Square)
    requires
        step(position, run(position, State::Idle, events), square).1 matches Some(mv)
            && !mv.spec_is_capture() && !mv.spec_is_promotion(),
    ensures
        step(position, run(position, State::Idle, events), square).1 matches Some(mv) && is_legal(
            position,
            mv,
        ),
{
    lemma_run_keeps_consistency(position, State::Idle, events);
    lemma_committed_move_is_legal(position, run(position, State::Idle, events), square);
}

/// A move that comes back promotes exactly when it carries a pawn to a back
/// rank, and then to a queen.
pub proof fn lemma_promotion_is_to_queen(position: PositionView, state: State, square: Square)
    requires
        step(position, state, square).1.is_some(),
    ensures
        ({
            let mv = step(position, state, square).1.unwrap();
            &&& mv.spec_promotion() == Some(Role::Queen) || mv.spec_promotion().is_none()
            &&& mv.spec_is_promotion() <==> mv.spec_role() == Role::Pawn && !mv.spec_is_castle()
                && on_back_rank(mv.spec_to())
        }),
{
}

/// Putting the lifted piece back on its square undoes the lift: one piece
/// fewer is in hand, no move comes back, and what was lifted before is
/// remembered as before.
pub proof fn lemma_put_back_undoes_lift(position: PositionView, state: State)
    requires
        state is FriendlyPU || state is EnemyPU || state is FriendlyAndEnemyPU,
    ensures
        ({
            let (next, mv) = step(position, state, put_back_square(state));
            &&& mv.is_none()
            &&& next.pieces_in_hand() + 1 == state.pieces_in_hand()
            &&& state is FriendlyPU || state is EnemyPU ==> next == State::Idle
            &&& state matches State::FriendlyAndEnemyPU(_, enemy) ==> next == State::EnemyPU(enemy)
        }),
{
}

/// The recovery event leaves a recoverable error for a state that is no
/// error, and brings no move back. For `InvalidPiecePU` this needs the
/// remembered square, where there is one, to hold a piece.
pub proof fn lemma_recovery_leaves_error(position: PositionView, state: State)
    requires
        state is InvalidPiecePU || state is InvalidMove,
        state matches State::InvalidPiecePU(Some(p), _) ==> is_friendly(position, p) || is_enemy(
            position,
            p,
        ),
    ensures
        ({
            let (next, mv) = step(position, state, recovery_square(state));
            &&& mv.is_none()
            &&& next is Idle || next is FriendlyPU || next is EnemyPU
            &&& state matches State::InvalidMove(from, _) ==> next == State::FriendlyPU(from)
            &&& state matches State::InvalidPiecePU(None, _) ==> next == State::Idle
        }),
{
}

/// After any run of events from `Idle`, a recoverable error is left by its
/// recovery event for a state that is no error.
pub proof fn lemma_reached_error_recovers(position: PositionView, events: Seq<Square>)
    requires
        run(position, State::Idle, events) is InvalidPiecePU || run(
            position,
            State::Idle,
            events,
        ) is InvalidMove,
    ensures
        ({
            let state = run(position, State::Idle, events);
            let (next, mv) = step(position, state, recovery_square(state));
            mv.is_none() && (next is Idle || next is FriendlyPU || next is EnemyPU)
        }),
{
    lemma_run_keeps_consistency(position, State::Idle, events);
    lemma_recovery_leaves_error(position, run(position, State::Idle, events));
}

/// Any other event in a recoverable error, and every event in `Error`, ends
/// in `Error`.
pub proof fn lemma_error_is_sticky(position: PositionView, state: State, square: Square)
    requires
        state is Error || ((state is InvalidPiecePU || state is InvalidMove) && square
            != recovery_square(state)),
    ensures
        step(position, state, square) == (State::Error, None::<Move>),
{
}

} // verus!
