//! The bookkeeping of the game loop.
//!
//! The loop itself waits on streams and lives outside this crate. What it
//! decides between two waits is here: what an event of the human player
//! leads to, what a reply of the opponent leads to, and how the counts of
//! captured pieces change. A [`Game`] owns the position, the interaction
//! state and those counts; nothing else changes them.

use vstd::prelude::*;
use shakmaty::Chess;
use crate::fsm::{step, update_state, State};
use crate::moves::Move;
use crate::oracle::{
    game_over, is_game_over, is_legal, outcome, outcome_of, play, position_after, san_move,
    san_of, san_text, san_to_move, turn, view_of,
};
use crate::pieces::{Color, Outcome};
use crate::planner::{move_to_steps, plan, Step};
use crate::position::PositionView;
use crate::square::Square;

verus! {

/// How many pieces of each colour have left the board.
#[derive(Clone, Copy, Debug, PartialEq, Eq, Hash, Structural)]
pub struct CaptureCounters {
    pub captured_whites: u8,
    pub captured_blacks: u8,
}

impl CaptureCounters {
    /// Both counts can still grow.
    pub open spec fn has_room(self) -> bool {
        self.captured_whites < u8::MAX && self.captured_blacks < u8::MAX
    }

    /// The counts after `mover` has played `mv`: a capture, en passant
    /// included, adds one to the count of the other colour; any other move
    /// changes nothing.
    pub open spec fn spec_record(self, mv: Move, mover: Color) -> CaptureCounters {
        if !mv.spec_is_capture() {
            self
        } else {
            match mover {
                Color::White => CaptureCounters {
                    captured_blacks: (self.captured_blacks + 1) as u8,
                    ..self
                },
                Color::Black => CaptureCounters {
                    captured_whites: (self.captured_whites + 1) as u8,
                    ..self
                },
            }
        }
    }

    /// No piece captured yet.
    pub fn new() -> (counters: CaptureCounters)
        ensures
            counters == (CaptureCounters { captured_whites: 0, captured_blacks: 0 }),
    {
        CaptureCounters { captured_whites: 0, captured_blacks: 0 }
    }

    /// The counts after `mover` has played `mv`.
    #[verifier::when_used_as_spec(spec_record)]
    pub fn record(self, mv: Move, mover: Color) -> (counters: CaptureCounters)
        requires
            self.has_room(),
        ensures
            counters == self.spec_record(mv, mover),
    {
        if !mv.is_capture() {
            self
        } else {
            match mover {
                Color::White => CaptureCounters {
                    captured_whites: self.captured_whites,
                    captured_blacks: self.captured_blacks + 1,
                },
                Color::Black => CaptureCounters {
                    captured_whites: self.captured_whites + 1,
                    captured_blacks: self.captured_blacks,
                },
            }
        }
    }
}

/// Recording a move never lowers a count, and raises the two together by
/// one for a capture and by nothing otherwise.
pub proof fn lemma_counters_are_monotone(counters: CaptureCounters, mv: Move, mover: Color)
    requires
        counters.has_room(),
    ensures
        ({
            let after = counters.spec_record(mv, mover);
            &&& after.captured_whites >= counters.captured_whites
            &&& after.captured_blacks >= counters.captured_blacks
            &&& after.captured_whites + after.captured_blacks == counters.captured_whites
                + counters.captured_blacks + if mv.spec_is_capture() {
                1int
            } else {
                0int
            }
            &&& mover == Color::White ==> after.captured_whites == counters.captured_whites
            &&& mover == Color::Black ==> after.captured_blacks == counters.captured_blacks
        }),
{
}

/// What ends the automated game for good.
#[derive(Clone, Copy, Debug, PartialEq, Eq, Hash, Structural)]
pub enum GameError {
    /// The opponent sent a line that is no notation of a legal move.
    ProtocolViolation,
    /// The pieces on the board no longer match the position: the
    /// interaction state is `Error`, or a move was made that is not legal.
    PhysicalDesync,
    /// A stream ended where the game needed more of it.
    Io,
}

/// Whether the game goes on.
#[derive(Clone, Copy, Debug, PartialEq, Eq, Hash, Structural)]
pub enum Status {
    Running,
    /// The game has ended, with the outcome where there is one.
    Over(Option<Outcome>),
}

/// What an event of the human player led to.
#[derive(Debug, PartialEq, Eq)]
pub enum HumanTurn {
    /// The move is not complete yet.
    Waiting,
    /// The player made a mistake that the next event can undo.
    Retry,
    /// The player has moved; `san` is the line for the opponent.
    Moved { mv: Move, san: String },
}

/// What a reply of the opponent led to.
#[derive(Debug, PartialEq, Eq)]
pub struct OpponentTurn {
    /// The move that the opponent made.
    pub mv: Move,
    /// The steps by which the gantry carries it out.
    pub steps: Vec<Step>,
}

/// A game in progress.
pub struct Game {
    pub position: Chess,
    pub state: State,
    pub captured: CaptureCounters,
}

/// What a game in progress is: a position, an interaction state and the
/// counts of captured pieces.
pub struct GameView {
    pub position: PositionView,
    pub state: State,
    pub captured: CaptureCounters,
}

impl View for Game {
    type V = GameView;

    open spec fn view(&self) -> GameView {
        GameView { position: view_of(self.position), state: self.state, captured: self.captured }
    }
}

/// The status of a game that is over or not, with the given outcome.
pub open spec fn status_rule(over: bool, outcome: Option<Outcome>) -> Status {
    if over {
        Status::Over(outcome)
    } else {
        Status::Running
    }
}

/// The status of a game in a position.
pub open spec fn status_of(position: PositionView) -> Status {
    status_rule(game_over(position), outcome_of(position))
}

/// What the player is told when an event completes no move: a state of
/// `Error` ends the game, a recoverable error asks for a retry, and any
/// other state waits for the next event.
pub open spec fn pending_rule(next: State) -> Result<HumanTurn, GameError> {
    match next {
        State::Error => Err(GameError::PhysicalDesync),
        State::InvalidPiecePU(_, _) => Ok(HumanTurn::Retry),
        State::InvalidMove(_, _) => Ok(HumanTurn::Retry),
        _ => Ok(HumanTurn::Waiting),
    }
}

/// Applies [`status_rule`].
pub fn status_for(over: bool, outcome: Option<Outcome>) -> (status: Status)
    ensures
        status == status_rule(over, outcome),
{
    if over {
        Status::Over(outcome)
    } else {
        Status::Running
    }
}

/// Applies [`pending_rule`].
pub fn pending_answer(next: State) -> (answer: Result<HumanTurn, GameError>)
    ensures
        answer == pending_rule(next),
{
    match next {
        State::Error => Err(GameError::PhysicalDesync),
        State::InvalidPiecePU(_, _) => Ok(HumanTurn::Retry),
        State::InvalidMove(_, _) => Ok(HumanTurn::Retry),
        _ => Ok(HumanTurn::Waiting),
    }
}

/// The move that a line of the opponent stands for: the line is the
/// notation of one move of standard chess, and the move is legal.
pub open spec fn opponent_move(position: PositionView, line: Seq<char>) -> Option<Move> {
    match san_move(position, line) {
        None => None,
        Some(record) => match record.spec_decode() {
            None => None,
            Some(mv) => if is_legal(position, mv) {
                Some(mv)
            } else {
                None
            },
        },
    }
}

/// What the human player's event on `square` does to a game, as a relation
/// between the game before, the game after and the answer.
pub open spec fn human_turn(
    before: GameView,
    square: Square,
    after: GameView,
    answer: Result<HumanTurn, GameError>,
) -> bool {
    let (next, mv) = step(before.position, before.state, square);
    match mv {
        None => {
            &&& after.position == before.position
            &&& after.captured == before.captured
            &&& after.state == next
            &&& answer == pending_rule(next)
        },
        Some(m) => if is_legal(before.position, m) {
            &&& after.position == position_after(before.position, m)
            &&& after.captured == before.captured.spec_record(m, before.position.turn)
            &&& after.state == State::Idle
            &&& answer matches Ok(HumanTurn::Moved { mv: played, san })
            &&& played == m
            &&& san@ == san_of(before.position, m)
        } else {
            &&& after.position == before.position
            &&& after.captured == before.captured
            &&& after.state == State::Error
            &&& answer == Err::<HumanTurn, GameError>(GameError::PhysicalDesync)
        },
    }
}

/// What a line of the opponent does to a game, as a relation between the
/// game before, the game after and the answer. The gantry's steps are
/// planned for the position and the counts before the move.
pub open spec fn opponent_turn(
    before: GameView,
    line: Seq<char>,
    after: GameView,
    answer: Result<OpponentTurn, GameError>,
) -> bool {
    match opponent_move(before.position, line) {
        None => {
            &&& after == before
            &&& answer == Err::<OpponentTurn, GameError>(GameError::ProtocolViolation)
        },
        Some(m) => {
            let mover = before.position.turn;
            &&& after.position == position_after(before.position, m)
            &&& after.captured == before.captured.spec_record(m, mover)
            &&& after.state == before.state
            &&& answer matches Ok(reply)
            &&& reply.mv == m
            &&& reply.steps@ == plan(
                m,
                mover,
                before.captured.captured_whites as int,
                before.captured.captured_blacks as int,
            )
        },
    }
}

/// The counts after a turn are those before it, or those before it with the
/// capture of a move that was played.
pub open spec fn counts_follow(before: GameView, after: GameView) -> bool {
    after.captured == before.captured || (exists|mv: Move|
        #![auto]
        mv.spec_is_capture() && is_legal(before.position, mv) && after.position == position_after(
            before.position,
            mv,
        ) && after.captured == before.captured.spec_record(mv, before.position.turn))
}

/// Whatever event the human player causes, no count of captured pieces
/// falls, and a count rises only by a capturing move that was played.
pub proof fn lemma_human_turn_counts_captures(
    before: GameView,
    square: Square,
    after: GameView,
    answer: Result<HumanTurn, GameError>,
)
    requires
        before.captured.has_room(),
        human_turn(before, square, after, answer),
    ensures
        after.captured.captured_whites >= before.captured.captured_whites,
        after.captured.captured_blacks >= before.captured.captured_blacks,
        counts_follow(before, after),
{
    let mv = step(before.position, before.state, square).1;
    if mv.is_some() && is_legal(before.position, mv.unwrap()) {
        lemma_counters_are_monotone(before.captured, mv.unwrap(), before.position.turn);
    }
}

/// Whatever line the opponent sends, no count of captured pieces falls, and
/// a count rises only by a capturing move that was played.
pub proof fn lemma_opponent_turn_counts_captures(
    before: GameView,
    line: Seq<char>,
    after: GameView,
    answer: Result<OpponentTurn, GameError>,
)
    requires
        before.captured.has_room(),
        opponent_turn(before, line, after, answer),
    ensures
        after.captured.captured_whites >= before.captured.captured_whites,
        after.captured.captured_blacks >= before.captured.captured_blacks,
        counts_follow(before, after),
{
    let mv = opponent_move(before.position, line);
    if mv.is_some() {
        lemma_counters_are_monotone(before.captured, mv.unwrap(), before.position.turn);
    }
}

impl Game {
    /// A game that starts from `position` with every piece on its square
    /// and nothing captured.
    pub fn new(position: Chess) -> (game: Game)
        ensures
            game.position == position,
            game@ == (GameView {
                position: view_of(position),
                state: State::Idle,
                captured: CaptureCounters { captured_whites: 0, captured_blacks: 0 },
            }),
    {
        Game { position, state: State::Idle, captured: CaptureCounters::new() }
    }

    /// Whether the game goes on, and how it ended if it does not.
    pub fn status(&self) -> (status: Status)
        ensures
            status == status_of(self@.position),
    {
        status_for(is_game_over(&self.position), outcome(&self.position))
    }

    /// Takes the end of the event stream: with every piece on its square the
    /// game may stop there, in the middle of a move it may not.
    pub fn end_of_events(&self) -> (answer: Result<(), GameError>)
        ensures
            answer == if self.state == State::Idle {
                Ok::<(), GameError>(())
            } else {
                Err::<(), GameError>(GameError::Io)
            },
    {
        if self.state == State::Idle {
            Ok(())
        } else {
            Err(GameError::Io)
        }
    }

    /// Takes one event of the human player: the occupancy of `square` has
    /// changed.
    ///
    /// The interaction state advances by the event. A move that the event
    /// completes is played, counted if it captures, and answered with its
    /// notation in the position before it. A state of `Error`, and a move
    /// that is not legal, end the game.
    pub fn human_event(&mut self, square: Square) -> (answer: Result<HumanTurn, GameError>)
        requires
            square.wf(),
            old(self).state.wf(),
            old(self).captured.has_room(),
        ensures
            human_turn(old(self)@, square, final(self)@, answer),
            final(self).state.wf(),
    {
        let (next, mv) = update_state(&self.position, square.index as u32, self.state);
        match mv {
            None => {
                self.state = next;
                pending_answer(next)
            },
            Some(m) => {
                let san = san_text(&self.position, &m);
                let mover = turn(&self.position);
                match play(&self.position, &m) {
                    Ok(position) => {
                        self.position = position;
                        self.captured = self.captured.record(m, mover);
                        self.state = State::Idle;
                        Ok(HumanTurn::Moved { mv: m, san })
                    },
                    Err(_) => {
                        self.state = State::Error;
                        Err(GameError::PhysicalDesync)
                    },
                }
            },
        }
    }

    /// Takes one line of the opponent: the notation of its move.
    ///
    /// The move is played, counted if it captures, and answered with the
    /// steps that carry it out on the board. A line that is no notation of a
    /// legal move is a protocol violation and changes nothing.
    pub fn opponent_reply(&mut self, line: &str) -> (answer: Result<OpponentTurn, GameError>)
        requires
            old(self).captured.has_room(),
        ensures
            opponent_turn(old(self)@, line@, final(self)@, answer),
            answer matches Ok(reply) ==> reply.mv.wf(),
    {
        let record = match san_to_move(&self.position, line) {
            Ok(Ok(record)) => record,
            _ => {
                return Err(GameError::ProtocolViolation);
            },
        };
        let mv = match record.decode() {
            Some(mv) => mv,
            None => {
                return Err(GameError::ProtocolViolation);
            },
        };
        let mover = turn(&self.position);
        match play(&self.position, &mv) {
            Ok(position) => {
                let steps = move_to_steps(
                    mv,
                    mover,
                    self.captured.captured_whites,
                    self.captured.captured_blacks,
                );
                self.position = position;
                self.captured = self.captured.record(mv, mover);
                Ok(OpponentTurn { mv, steps })
            },
            Err(_) => Err(GameError::ProtocolViolation),
        }
    }
}

} // verus!
