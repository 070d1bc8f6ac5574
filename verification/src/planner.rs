//! The gantry path planner.
//!
//! An opponent's move becomes a list of [`Step`]s for the magnet under the
//! board. Coordinates count half squares: the centre of the a-file is at
//! `x = 2`, that of the h-file at `x = 16`, and likewise for the ranks. The
//! edges between squares lie on odd coordinates, where a dragged piece
//! passes between its neighbours. Captured pieces leave the board sideways:
//! black ones through the lane at `x = 17` to the column at `x = 18`, white
//! ones through the lane at `x = 1` to the column at `x = 0`.

use vstd::prelude::*;
use crate::moves::Move;
use crate::pieces::{Color, Role};
use crate::square::{File, Rank, Square};

verus! {

/// One movement of the magnet: go to `(x, y)`, in half squares, with the
/// magnet switched on or off on the way.
#[derive(Clone, Copy, Debug, PartialEq, Eq, Hash, Structural)]
pub struct Step {
    pub x: i32,
    pub y: i32,
    pub magnet: bool,
}

/// The lane beside the h-file through which captured black pieces travel.
pub const BLACK_LANE_X: i32 = 17;

/// The column in which captured black pieces are parked.
pub const BLACK_STORAGE_X: i32 = 18;

/// The lane beside the a-file through which captured white pieces travel.
pub const WHITE_LANE_X: i32 = 1;

/// The column in which captured white pieces are parked.
pub const WHITE_STORAGE_X: i32 = 0;

/// The x coordinate of a file's centre.
pub open spec fn file_x(file: File) -> int {
    2 * file.number()
}

/// The y coordinate of a rank's centre.
pub open spec fn rank_y(rank: Rank) -> int {
    2 * rank.number()
}

/// A step to `(x, y)`.
pub open spec fn step_to(x: int, y: int, magnet: bool) -> Step {
    Step { x: x as i32, y: y as i32, magnet }
}

/// The row in which the next captured piece is parked when `mover` takes
/// it: black pieces fill their column upwards from `y = 1`, white pieces
/// fill theirs downwards from `y = 17`, one half square per piece.
pub open spec fn parking_y(mover: Color, captured_whites: int, captured_blacks: int) -> int {
    match mover {
        Color::White => 1 + captured_blacks,
        Color::Black => 17 - captured_whites,
    }
}

/// The lane through which the piece that `mover` takes leaves the board.
pub open spec fn lane_x(mover: Color) -> int {
    match mover {
        Color::White => BLACK_LANE_X as int,
        Color::Black => WHITE_LANE_X as int,
    }
}

/// The column in which the piece that `mover` takes is parked.
pub open spec fn storage_x(mover: Color) -> int {
    match mover {
        Color::White => BLACK_STORAGE_X as int,
        Color::Black => WHITE_STORAGE_X as int,
    }
}

/// The edge on which a captured piece leaves its square at height `y`: the
/// lower one when the rows filled so far end below the square, else the
/// upper one.
pub open spec fn exit_y(y: int, mover: Color, captured_whites: int, captured_blacks: int) -> int {
    match mover {
        Color::White => if captured_blacks < y {
            y - 1
        } else {
            y + 1
        },
        Color::Black => if 17 - captured_whites < y {
            y - 1
        } else {
            y + 1
        },
    }
}

/// The route of a captured piece from `(x, y)` to its parking place.
pub open spec fn capture_route(
    x: int,
    y: int,
    mover: Color,
    captured_whites: int,
    captured_blacks: int,
) -> Seq<Step> {
    let edge = exit_y(y, mover, captured_whites, captured_blacks);
    let row = parking_y(mover, captured_whites, captured_blacks);
    seq![
        step_to(x, y, false),
        step_to(x, edge, true),
        step_to(lane_x(mover), edge, true),
        step_to(lane_x(mover), row, true),
        step_to(storage_x(mover), row, true),
    ]
}

/// The route of king and rook for castling, the king starting on `king`
/// and the rook on `rook`.
pub open spec fn castle_route(king: Square, rook: Square, mover: Color) -> Seq<Step> {
    let from_x = file_x(king.file());
    let from_y = rank_y(king.rank());
    let to_x = file_x(rook.file());
    let to_y = rank_y(rook.rank());
    let aside: int = match mover {
        Color::White => -1,
        Color::Black => 1,
    };
    let kingside = rook.file() == File::H;
    let offset: int = if kingside {
        -2
    } else {
        2
    };
    let queenside_king: int = if kingside {
        0
    } else {
        2
    };
    seq![
        step_to(from_x, from_y, false),
        step_to(to_x + offset + queenside_king, to_y, true),
        step_to(to_x, to_y, false),
        step_to(to_x, to_y + aside, true),
        step_to(from_x - offset, to_y + aside, true),
        step_to(from_x - offset, from_y, true),
    ]
}

/// The square of the piece that the move takes off the board: the target
/// square, or for en passant the square behind it as the mover sees it.
pub open spec fn victim_xy(mv: Move, mover: Color) -> (int, int) {
    let to_x = file_x(mv.spec_to().file());
    let to_y = rank_y(mv.spec_to().rank());
    if mv.spec_is_en_passant() {
        match mover {
            Color::White => (to_x, to_y - 2),
            Color::Black => (to_x, to_y + 2),
        }
    } else {
        (to_x, to_y)
    }
}

/// The route of the moving piece itself: a knight goes along the line
/// halfway between its two files, every other piece goes straight.
pub open spec fn travel_route(mv: Move) -> Seq<Step> {
    let from_x = file_x(mv.spec_from().file());
    let from_y = rank_y(mv.spec_from().rank());
    let to_x = file_x(mv.spec_to().file());
    let to_y = rank_y(mv.spec_to().rank());
    if mv.spec_role() == Role::Knight {
        seq![
            step_to(from_x, from_y, false),
            step_to((from_x + to_x) / 2, from_y, true),
            step_to((from_x + to_x) / 2, to_y, true),
            step_to(to_x, to_y, true),
        ]
    } else {
        seq![step_to(from_x, from_y, false), step_to(to_x, to_y, true)]
    }
}

/// The steps that carry out `mv` for the side `mover`, with the given
/// numbers of pieces captured so far.
pub open spec fn plan(mv: Move, mover: Color, captured_whites: int, captured_blacks: int) -> Seq<
    Step,
> {
    match mv {
        Move::Castle { king, rook } => castle_route(king, rook, mover),
        _ => if mv.spec_is_capture() {
            let (x, y) = victim_xy(mv, mover);
            capture_route(x, y, mover, captured_whites, captured_blacks) + travel_route(mv)
        } else {
            travel_route(mv)
        },
    }
}

/// The x coordinate of a file's centre.
pub fn file_to_x(file: File) -> (x: i32)
    ensures
        x == file_x(file),
        2 <= x <= 16,
{
    2 * (file.number() as i32)
}

/// The y coordinate of a rank's centre.
pub fn rank_to_y(rank: Rank) -> (y: i32)
    ensures
        y == rank_y(rank),
        2 <= y <= 16,
{
    2 * (rank.number() as i32)
}

/// Routes the piece that `current_color` takes from `(from_x, from_y)` to the
/// next free place of its graveyard.
pub fn capture_piece(
    from_x: i32,
    from_y: i32,
    current_color: Color,
    captured_whites: u8,
    captured_blacks: u8,
) -> (steps: Vec<Step>)
    requires
        0 <= from_x <= 18,
        0 <= from_y <= 18,
    ensures
        steps@ == capture_route(
            from_x as int,
            from_y as int,
            current_color,
            captured_whites as int,
            captured_blacks as int,
        ),
{
    let (lane, storage, row, below): (i32, i32, i32, bool) = match current_color {
        Color::White => (
            BLACK_LANE_X,
            BLACK_STORAGE_X,
            1 + captured_blacks as i32,
            (captured_blacks as i32) < from_y,
        ),
        Color::Black => (
            WHITE_LANE_X,
            WHITE_STORAGE_X,
            17 - captured_whites as i32,
            17 - (captured_whites as i32) < from_y,
        ),
    };
    let edge: i32 = if below {
        from_y - 1
    } else {
        from_y + 1
    };
    let mut steps: Vec<Step> = Vec::new();
    steps.push(Step { x: from_x, y: from_y, magnet: false });
    steps.push(Step { x: from_x, y: edge, magnet: true });
    steps.push(Step { x: lane, y: edge, magnet: true });
    steps.push(Step { x: lane, y: row, magnet: true });
    steps.push(Step { x: storage, y: row, magnet: true });
    steps
}

fn castle_steps(king: Square, rook: Square, current_color: Color) -> (steps: Vec<Step>)
    requires
        king.wf(),
        rook.wf(),
    ensures
        steps@ == castle_route(king, rook, current_color),
{
    let from_x = file_to_x(king.file());
    let from_y = rank_to_y(king.rank());
    let to_x = file_to_x(rook.file());
    let to_y = rank_to_y(rook.rank());
    let aside: i32 = match current_color {
        Color::White => -1,
        Color::Black => 1,
    };
    let (offset, queenside_king): (i32, i32) = if to_x == 16 {
        (-2, 0)
    } else {
        (2, 2)
    };
    let mut steps: Vec<Step> = Vec::new();
    steps.push(Step { x: from_x, y: from_y, magnet: false });
    steps.push(Step { x: to_x + offset + queenside_king, y: to_y, magnet: true });
    steps.push(Step { x: to_x, y: to_y, magnet: false });
    steps.push(Step { x: to_x, y: to_y + aside, magnet: true });
    steps.push(Step { x: from_x - offset, y: to_y + aside, magnet: true });
    steps.push(Step { x: from_x - offset, y: from_y, magnet: true });
    steps
}

/// Plans the gantry steps for a move of the side `current_color`.
///
/// A captured piece is carried to its graveyard first, then the moving
/// piece travels. Castling moves the rook, then the king.
pub fn move_to_steps(mv: Move, current_color: Color, captured_whites: u8, captured_blacks: u8) -> (steps:
    Vec<Step>)
    requires
        mv.wf(),
    ensures
        steps@ == plan(mv, current_color, captured_whites as int, captured_blacks as int),
{
    if let Move::Castle { king, rook } = mv {
        return castle_steps(king, rook, current_color);
    }
    let from_x = file_to_x(mv.from().file());
    let from_y = rank_to_y(mv.from().rank());
    let to_x = file_to_x(mv.to().file());
    let to_y = rank_to_y(mv.to().rank());

    let mut steps: Vec<Step> = Vec::new();
    if mv.is_en_passant() {
        let behind: i32 = match current_color {
            Color::White => -2,
            Color::Black => 2,
        };
        steps = capture_piece(to_x, to_y + behind, current_color, captured_whites, captured_blacks);
    } else if mv.is_capture() {
        steps = capture_piece(to_x, to_y, current_color, captured_whites, captured_blacks);
    }

    steps.push(Step { x: from_x, y: from_y, magnet: false });
    if mv.role() == Role::Knight {
        let middle: i32 = (from_x + to_x) / 2;
        steps.push(Step { x: middle, y: from_y, magnet: true });
        steps.push(Step { x: middle, y: to_y, magnet: true });
        steps.push(Step { x: to_x, y: to_y, magnet: true });
    } else {
        steps.push(Step { x: to_x, y: to_y, magnet: true });
    }
    steps
}

/// The step on which the moving piece arrives: the centre of the target
/// square, magnet on.
pub open spec fn arrival(mv: Move) -> Step {
    step_to(file_x(mv.spec_to().file()), rank_y(mv.spec_to().rank()), true)
}

/// The number of steps that a plan spends on the captured piece before the
/// moving piece is touched.
pub open spec fn capture_steps(mv: Move) -> int {
    if mv.spec_is_capture() {
        5
    } else {
        0
    }
}

/// Castling takes exactly six steps.
pub proof fn lemma_castle_takes_six_steps(
    mv: Move,
    mover: Color,
    captured_whites: u8,
    captured_blacks: u8,
)
    requires
        mv.spec_is_castle(),
    ensures
        plan(mv, mover, captured_whites as int, captured_blacks as int).len() == 6,
{
}

/// Every move but castling takes two steps, or four for a knight, after the
/// five of a capture, and ends with the moving piece dragged onto its target
/// square.
pub proof fn lemma_last_step_is_destination(
    mv: Move,
    mover: Color,
    captured_whites: u8,
    captured_blacks: u8,
)
    requires
        !mv.spec_is_castle(),
    ensures
        ({
            let steps = plan(mv, mover, captured_whites as int, captured_blacks as int);
            &&& steps.len() == capture_steps(mv) + if mv.spec_role() == Role::Knight {
                4int
            } else {
                2int
            }
            &&& steps.last() == arrival(mv)
        }),
{
}

/// A capture, en passant included, first carries the victim from its square
/// to the next free row of its graveyard: for a white mover to `(18, 1 +
/// captured_blacks)`, for a black mover to `(0, 17 - captured_whites)`. Only
/// then is the capturing piece touched, and it ends on its target square.
pub proof fn lemma_capture_reaches_graveyard(
    mv: Move,
    mover: Color,
    captured_whites: u8,
    captured_blacks: u8,
)
    requires
        mv.spec_is_capture(),
    ensures
        ({
            let steps = plan(mv, mover, captured_whites as int, captured_blacks as int);
            let (x, y) = victim_xy(mv, mover);
            &&& steps.len() >= 7
            &&& steps[0] == step_to(x, y, false)
            &&& forall|i: int| 1 <= i < 5 ==> (#[trigger] steps[i]).magnet
            &&& mover == Color::White ==> steps[4] == step_to(18, 1 + captured_blacks, true)
            &&& mover == Color::Black ==> steps[4] == step_to(0, 17 - captured_whites, true)
            &&& steps[5] == step_to(
                file_x(mv.spec_from().file()),
                rank_y(mv.spec_from().rank()),
                false,
            )
            &&& steps.last() == arrival(mv)
        }),
{
}

/// A knight travels along the line halfway between the file it leaves and
/// the file it reaches: the second and third step of its route have that
/// x coordinate, the second still on the rank it leaves and the third
/// already on the rank it reaches.
pub proof fn lemma_knight_path_uses_half_file(
    mv: Move,
    mover: Color,
    captured_whites: u8,
    captured_blacks: u8,
)
    requires
        mv matches Move::Normal { role: Role::Knight, .. },
    ensures
        ({
            let steps = plan(mv, mover, captured_whites as int, captured_blacks as int);
            let first = capture_steps(mv);
            let middle = mv.spec_from().file().number() + mv.spec_to().file().number();
            &&& steps[first + 1] == step_to(middle, rank_y(mv.spec_from().rank()), true)
            &&& steps[first + 2] == step_to(middle, rank_y(mv.spec_to().rank()), true)
            &&& steps[first + 1].x == steps[first + 2].x
        }),
{
}

/// A step lies within the gantry's reach: nine squares each way.
pub open spec fn on_gantry(step: Step) -> bool {
    0 <= step.x <= 18 && 0 <= step.y <= 18
}

/// While no graveyard holds more than its sixteen pieces, every step of a
/// plan lies within the gantry's reach. For a capture en passant the pawn
/// taken has to stand on the board: the capturing pawn does not land on its
/// own side's back rank.
pub proof fn lemma_steps_stay_on_gantry(
    mv: Move,
    mover: Color,
    captured_whites: u8,
    captured_blacks: u8,
    i: int,
)
    requires
        mv.wf(),
        captured_whites <= 16,
        captured_blacks <= 16,
        mv.spec_is_en_passant() ==> mv.spec_to().rank() != match mover {
            Color::White => Rank::First,
            Color::Black => Rank::Eighth,
        },
        0 <= i < plan(mv, mover, captured_whites as int, captured_blacks as int).len(),
    ensures
        on_gantry(plan(mv, mover, captured_whites as int, captured_blacks as int)[i]),
{
}

} // verus!
