use chessboard_core::moves::Move;
use chessboard_core::pieces::{Color, Role};
use chessboard_core::planner::{capture_piece, file_to_x, move_to_steps, rank_to_y, Step};
use chessboard_core::square::{File, Rank, Square};

fn sq(index: u32) -> Square {
    Square::new(index)
}

/// Steps in squares, as the gantry takes them.
fn in_squares(steps: &[Step]) -> Vec<(f64, f64, bool)> {
    steps.iter().map(|s| (f64::from(s.x) / 2.0, f64::from(s.y) / 2.0, s.magnet)).collect()
}

fn normal(role: Role, from: u32, to: u32, capture: Option<Role>) -> Move {
    Move::Normal { role, from: sq(from), capture, to: sq(to), promotion: None }
}

#[test]
fn coordinates_count_half_squares() {
    assert_eq!(file_to_x(File::A), 2);
    assert_eq!(file_to_x(File::E), 10);
    assert_eq!(file_to_x(File::H), 16);
    assert_eq!(rank_to_y(Rank::First), 2);
    assert_eq!(rank_to_y(Rank::Fourth), 8);
    assert_eq!(rank_to_y(Rank::Eighth), 16);
}

#[test]
fn quiet_pawn_move_is_two_steps() {
    let steps = move_to_steps(normal(Role::Pawn, 12, 28, None), Color::White, 0, 0);
    assert_eq!(in_squares(&steps), vec![(5.0, 2.0, false), (5.0, 4.0, true)]);
}

#[test]
fn knight_travels_between_the_files() {
    let steps = move_to_steps(normal(Role::Knight, 6, 21, None), Color::White, 0, 0);
    assert_eq!(
        in_squares(&steps),
        vec![(7.0, 1.0, false), (6.5, 1.0, true), (6.5, 3.0, true), (6.0, 3.0, true)]
    );
    assert_eq!(steps[1].x, steps[2].x);
}

#[test]
fn knight_two_files_apart_travels_on_the_file_between() {
    // g1 to e2
    let steps = move_to_steps(normal(Role::Knight, 6, 12, None), Color::White, 0, 0);
    assert_eq!(
        in_squares(&steps),
        vec![(7.0, 1.0, false), (6.0, 1.0, true), (6.0, 2.0, true), (5.0, 2.0, true)]
    );
}

#[test]
fn white_capture_parks_the_victim_on_the_right() {
    let mv = normal(Role::Bishop, 26, 53, Some(Role::Knight));
    let steps = move_to_steps(mv, Color::White, 0, 0);
    assert_eq!(
        in_squares(&steps),
        vec![
            (6.0, 7.0, false),
            (6.0, 6.5, true),
            (8.5, 6.5, true),
            (8.5, 0.5, true),
            (9.0, 0.5, true),
            (3.0, 4.0, false),
            (6.0, 7.0, true),
        ]
    );
}

#[test]
fn white_capture_with_a_filled_graveyard() {
    // eleven black pieces parked: rows up to 5.5 are taken, the next is 6.0
    let mv = normal(Role::Rook, 0, 8, Some(Role::Pawn));
    let steps = move_to_steps(mv, Color::White, 4, 11);
    assert_eq!(
        in_squares(&steps),
        vec![
            (1.0, 2.0, false),
            (1.0, 2.5, true),
            (8.5, 2.5, true),
            (8.5, 6.0, true),
            (9.0, 6.0, true),
            (1.0, 1.0, false),
            (1.0, 2.0, true),
        ]
    );
}

#[test]
fn black_capture_parks_the_victim_on_the_left() {
    // pawn e5 takes d4
    let mv = normal(Role::Pawn, 36, 27, Some(Role::Pawn));
    let steps = move_to_steps(mv, Color::Black, 3, 0);
    assert_eq!(
        in_squares(&steps),
        vec![
            (4.0, 4.0, false),
            (4.0, 4.5, true),
            (0.5, 4.5, true),
            (0.5, 7.0, true),
            (0.0, 7.0, true),
            (5.0, 5.0, false),
            (4.0, 4.0, true),
        ]
    );
}

#[test]
fn black_capture_above_the_filled_rows_leaves_downwards() {
    // queen takes on the eighth rank while the white graveyard is empty
    let mv = normal(Role::Queen, 59, 63, Some(Role::Rook));
    let steps = move_to_steps(mv, Color::Black, 2, 0);
    assert_eq!(in_squares(&steps)[..5].to_vec(), vec![
        (8.0, 8.0, false),
        (8.0, 7.5, true),
        (0.5, 7.5, true),
        (0.5, 7.5, true),
        (0.0, 7.5, true),
    ]);
}

#[test]
fn capture_piece_routes_to_the_next_free_row() {
    let white = capture_piece(12, 14, Color::White, 0, 5);
    assert_eq!(
        in_squares(&white),
        vec![(6.0, 7.0, false), (6.0, 6.5, true), (8.5, 6.5, true), (8.5, 3.0, true), (9.0, 3.0, true)]
    );
    let black = capture_piece(12, 4, Color::Black, 5, 0);
    assert_eq!(
        in_squares(&black),
        vec![(6.0, 2.0, false), (6.0, 2.5, true), (0.5, 2.5, true), (0.5, 6.0, true), (0.0, 6.0, true)]
    );
}

#[test]
fn en_passant_routes_the_passed_pawn_first() {
    // white pawn e5 takes d6, the victim stands on d5
    let white = move_to_steps(Move::EnPassant { from: sq(36), to: sq(43) }, Color::White, 0, 0);
    assert_eq!(
        in_squares(&white),
        vec![
            (4.0, 5.0, false),
            (4.0, 4.5, true),
            (8.5, 4.5, true),
            (8.5, 0.5, true),
            (9.0, 0.5, true),
            (5.0, 5.0, false),
            (4.0, 6.0, true),
        ]
    );
    // black pawn d4 takes e3, the victim stands on e4
    let black = move_to_steps(Move::EnPassant { from: sq(27), to: sq(20) }, Color::Black, 0, 0);
    assert_eq!(
        in_squares(&black),
        vec![
            (5.0, 4.0, false),
            (5.0, 4.5, true),
            (0.5, 4.5, true),
            (0.5, 8.5, true),
            (0.0, 8.5, true),
            (4.0, 4.0, false),
            (5.0, 3.0, true),
        ]
    );
}

#[test]
fn capturing_knight_travels_after_the_victim() {
    // knight f3 takes e5
    let mv = normal(Role::Knight, 21, 36, Some(Role::Pawn));
    let steps = move_to_steps(mv, Color::White, 0, 2);
    assert_eq!(steps.len(), 9);
    assert_eq!(in_squares(&steps)[4], (9.0, 1.5, true));
    assert_eq!(
        in_squares(&steps)[5..].to_vec(),
        vec![(6.0, 3.0, false), (5.5, 3.0, true), (5.5, 5.0, true), (5.0, 5.0, true)]
    );
}

#[test]
fn white_kingside_castle() {
    let steps = move_to_steps(Move::Castle { king: sq(4), rook: sq(7) }, Color::White, 0, 0);
    assert_eq!(
        in_squares(&steps),
        vec![
            (5.0, 1.0, false),
            (7.0, 1.0, true),
            (8.0, 1.0, false),
            (8.0, 0.5, true),
            (6.0, 0.5, true),
            (6.0, 1.0, true),
        ]
    );
}

#[test]
fn black_queenside_castle() {
    let steps = move_to_steps(Move::Castle { king: sq(60), rook: sq(56) }, Color::Black, 7, 7);
    assert_eq!(
        in_squares(&steps),
        vec![
            (5.0, 8.0, false),
            (3.0, 8.0, true),
            (1.0, 8.0, false),
            (1.0, 8.5, true),
            (4.0, 8.5, true),
            (4.0, 8.0, true),
        ]
    );
}

#[test]
fn castle_is_six_steps_whatever_the_side() {
    for (king, rook, color) in [
        (4, 7, Color::White),
        (4, 0, Color::White),
        (60, 63, Color::Black),
        (60, 56, Color::Black),
    ] {
        let steps = move_to_steps(Move::Castle { king: sq(king), rook: sq(rook) }, color, 3, 9);
        assert_eq!(steps.len(), 6);
    }
}

#[test]
fn last_step_is_the_destination_for_every_move_but_castling() {
    let roles = [Role::Pawn, Role::Knight, Role::Bishop, Role::Rook, Role::Queen, Role::King];
    for from in 0..64u32 {
        for to in 0..64u32 {
            for role in roles.iter() {
                for capture in [None, Some(Role::Pawn)] {
                    for color in [Color::White, Color::Black] {
                        let mv = normal(*role, from, to, capture);
                        let steps = move_to_steps(mv, color, 2, 5);
                        let last = steps[steps.len() - 1];
                        let target = sq(to);
                        assert_eq!(
                            last,
                            Step {
                                x: 2 * i32::from(target.file().number()),
                                y: 2 * i32::from(target.rank().number()),
                                magnet: true,
                            }
                        );
                        if capture.is_some() {
                            let parked = match color {
                                Color::White => Step { x: 18, y: 6, magnet: true },
                                Color::Black => Step { x: 0, y: 15, magnet: true },
                            };
                            assert_eq!(steps[4], parked);
                        }
                    }
                }
            }
        }
    }
}

#[test]
fn counters_at_their_limit_do_not_overflow() {
    let mv = normal(Role::Rook, 0, 56, Some(Role::Rook));
    let white = move_to_steps(mv, Color::White, 255, 255);
    assert_eq!(white[4], Step { x: 18, y: 256, magnet: true });
    let black = move_to_steps(mv, Color::Black, 255, 255);
    assert_eq!(black[4], Step { x: 0, y: -238, magnet: true });
}
