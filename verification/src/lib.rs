//! Control core of an automated physical chess board.
//!
//! A human plays on a board with a reed switch under every square; the
//! opponent's pieces are dragged by an electromagnet on a gantry. This crate
//! holds the pure components of that device and the bookkeeping of the loop
//! that drives them:
//!
//! * [`fsm`]: the interaction state machine that turns square toggles into
//!   chess moves,
//! * [`leds`]: the per-square RGB hints derived from position and state,
//! * [`planner`]: the gantry steps that carry out an opponent's move,
//! * [`game`]: capture counters and the per-ply decisions of the game loop,
//! * [`events`]: the lines of the reed-switch event stream,
//! * [`text`]: plain-text pictures for logs.
//!
//! Chess rules are not implemented here. They are answered by `shakmaty`
//! through the trusted wrappers of [`oracle`], and [`position`] gives their
//! answers a model. Everything else is verified: squares, bitboards and
//! moves in [`square`], [`bitboard`], [`pieces`] and [`moves`], and the
//! components above against the oracle's answers.

pub mod bitboard;
pub mod events;
pub mod fsm;
pub mod game;
pub mod leds;
pub mod moves;
pub mod oracle;
pub mod pieces;
pub mod planner;
pub mod position;
pub mod square;
pub mod text;
