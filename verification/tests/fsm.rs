use chessboard_core::fsm::{is_on_back_rank, king_landing_square, rook_landing_square, update_state, State};
use chessboard_core::moves::Move;
use chessboard_core::pieces::{Color, Role};
use chessboard_core::square::Square;
use shakmaty::fen::Fen;
use shakmaty::{CastlingMode, Chess, Position};

fn position(fen: &str) -> Chess {
    fen.parse::<Fen>().unwrap().into_position(CastlingMode::Standard).unwrap()
}

fn sq(index: u32) -> Square {
    Square::new(index)
}

const ITALIAN: &str = "r1bqk1nr/pppp1ppp/2n5/2b1p3/2B1P3/5N2/PPPP1PPP/RNBQK2R w KQkq - 4 4";
const BISHOP_TAKES_F7: &str = "rnbqkb1r/pppp1npp/8/4p3/2B1P3/8/PPPP1PPP/RNBQK1NR w KQkq - 0 1";
const AFTER_E4_E5: &str = "rnbqkbnr/pppp1ppp/8/4p3/4P3/8/PPPP1PPP/RNBQKBNR w KQkq - 0 2";

#[test]
fn quiet_pawn_move_commits_on_landing() {
    let pos = Chess::default();
    let (state, mv) = update_state(&pos, 12, State::Idle);
    assert_eq!((state, mv), (State::FriendlyPU(sq(12)), None));
    let (state, mv) = update_state(&pos, 28, state);
    assert_eq!(state, State::Idle);
    assert_eq!(
        mv,
        Some(Move::Normal { role: Role::Pawn, from: sq(12), capture: None, to: sq(28), promotion: None })
    );
}

#[test]
fn knight_move_commits_on_landing() {
    let pos = Chess::default();
    let (state, _) = update_state(&pos, 6, State::Idle);
    assert_eq!(state, State::FriendlyPU(sq(6)));
    let (state, mv) = update_state(&pos, 21, state);
    assert_eq!(state, State::Idle);
    assert_eq!(
        mv,
        Some(Move::Normal { role: Role::Knight, from: sq(6), capture: None, to: sq(21), promotion: None })
    );
}

#[test]
fn capture_enemy_lifted_first() {
    let pos = position(BISHOP_TAKES_F7);
    let (state, mv) = update_state(&pos, 53, State::Idle);
    assert_eq!((state, mv), (State::EnemyPU(sq(53)), None));
    let (state, mv) = update_state(&pos, 26, state);
    assert_eq!((state, mv), (State::FriendlyAndEnemyPU(sq(26), sq(53)), None));
    let (state, mv) = update_state(&pos, 53, state);
    assert_eq!(state, State::Idle);
    assert_eq!(
        mv,
        Some(Move::Normal {
            role: Role::Bishop,
            from: sq(26),
            capture: Some(Role::Knight),
            to: sq(53),
            promotion: None,
        })
    );
}

#[test]
fn capture_friendly_lifted_first() {
    let pos = position(BISHOP_TAKES_F7);
    let (state, _) = update_state(&pos, 26, State::Idle);
    assert_eq!(state, State::FriendlyPU(sq(26)));
    let (state, mv) = update_state(&pos, 53, state);
    assert_eq!((state, mv), (State::FriendlyAndEnemyPU(sq(26), sq(53)), None));
    let (state, mv) = update_state(&pos, 53, state);
    assert_eq!(state, State::Idle);
    assert_eq!(mv.map(|m| m.capture()), Some(Some(Role::Knight)));
}

#[test]
fn kingside_castle_as_white() {
    let pos = position(ITALIAN);
    let (state, _) = update_state(&pos, 4, State::Idle);
    assert_eq!(state, State::FriendlyPU(sq(4)));
    let (state, mv) = update_state(&pos, 7, state);
    assert_eq!((state, mv), (State::Castling(sq(4), sq(7)), None));
    let (state, mv) = update_state(&pos, 6, state);
    assert_eq!((state, mv), (State::CastlingPutRookDown(sq(4), sq(7), sq(5)), None));
    let (state, mv) = update_state(&pos, 5, state);
    assert_eq!(state, State::Idle);
    assert_eq!(mv, Some(Move::Castle { king: sq(4), rook: sq(7) }));
}

#[test]
fn castle_rook_lifted_first() {
    let pos = position(ITALIAN);
    let (state, _) = update_state(&pos, 7, State::Idle);
    assert_eq!(state, State::FriendlyPU(sq(7)));
    let (state, mv) = update_state(&pos, 4, state);
    assert_eq!((state, mv), (State::Castling(sq(4), sq(7)), None));
}

#[test]
fn castle_that_is_not_legal_is_an_invalid_pickup() {
    // the bishop on f1 still stands between king and rook
    let pos = position(AFTER_E4_E5);
    let (state, _) = update_state(&pos, 4, State::Idle);
    let (state, mv) = update_state(&pos, 7, state);
    assert_eq!((state, mv), (State::InvalidPiecePU(Some(sq(4)), sq(7)), None));
    let (state, mv) = update_state(&pos, 7, state);
    assert_eq!((state, mv), (State::FriendlyPU(sq(4)), None));
}

#[test]
fn queenside_castle_as_black() {
    let pos = position("r3kbnr/pppqpppp/2n5/3p1b2/3P1B2/2N5/PPPQPPPP/R3KBNR b KQkq - 6 5");
    let (state, _) = update_state(&pos, 60, State::Idle);
    let (state, _) = update_state(&pos, 56, state);
    assert_eq!(state, State::Castling(sq(60), sq(56)));
    let (wrong, _) = update_state(&pos, 62, state);
    assert_eq!(wrong, State::Error);
    let (state, _) = update_state(&pos, 58, state);
    assert_eq!(state, State::CastlingPutRookDown(sq(60), sq(56), sq(59)));
    let (wrong, mv) = update_state(&pos, 61, state);
    assert_eq!((wrong, mv), (State::Error, None));
    let (state, mv) = update_state(&pos, 59, state);
    assert_eq!((state, mv), (State::Idle, Some(Move::Castle { king: sq(60), rook: sq(56) })));
}

#[test]
fn landing_squares_of_castling() {
    assert_eq!(king_landing_square(Color::White, sq(0)), sq(2));
    assert_eq!(king_landing_square(Color::White, sq(7)), sq(6));
    assert_eq!(king_landing_square(Color::Black, sq(56)), sq(58));
    assert_eq!(king_landing_square(Color::Black, sq(63)), sq(62));
    assert_eq!(rook_landing_square(Color::White, sq(0)), sq(3));
    assert_eq!(rook_landing_square(Color::White, sq(7)), sq(5));
    assert_eq!(rook_landing_square(Color::Black, sq(56)), sq(59));
    assert_eq!(rook_landing_square(Color::Black, sq(63)), sq(61));
}

#[test]
fn back_ranks_are_the_first_and_the_eighth() {
    for index in 0..64u32 {
        assert_eq!(is_on_back_rank(sq(index)), index < 8 || index >= 56);
    }
}

#[test]
fn lifting_an_empty_square_is_an_error() {
    let pos = Chess::default();
    assert_eq!(update_state(&pos, 35, State::Idle), (State::Error, None));
}

#[test]
fn unattacked_enemy_pickup_recovers() {
    let pos = position(AFTER_E4_E5);
    let (state, mv) = update_state(&pos, 36, State::Idle);
    assert_eq!((state, mv), (State::InvalidPiecePU(None, sq(36)), None));
    let (state, mv) = update_state(&pos, 36, state);
    assert_eq!((state, mv), (State::Idle, None));
}

#[test]
fn put_back_returns_to_less_committed_state() {
    let pos = position(BISHOP_TAKES_F7);
    assert_eq!(update_state(&pos, 26, State::FriendlyPU(sq(26))), (State::Idle, None));
    assert_eq!(update_state(&pos, 53, State::EnemyPU(sq(53))), (State::Idle, None));
    assert_eq!(
        update_state(&pos, 26, State::FriendlyAndEnemyPU(sq(26), sq(53))),
        (State::EnemyPU(sq(53)), None)
    );
}

#[test]
fn second_friendly_piece_is_an_invalid_pickup_that_recovers() {
    let pos = Chess::default();
    let (state, _) = update_state(&pos, 12, State::Idle);
    let (state, mv) = update_state(&pos, 11, state);
    assert_eq!((state, mv), (State::InvalidPiecePU(Some(sq(12)), sq(11)), None));
    let (state, mv) = update_state(&pos, 11, state);
    assert_eq!((state, mv), (State::FriendlyPU(sq(12)), None));
}

#[test]
fn enemy_that_the_lifted_piece_cannot_take_is_an_invalid_pickup() {
    let pos = position(BISHOP_TAKES_F7);
    // the bishop on c4 does not attack the pawn on e5
    let (state, mv) = update_state(&pos, 36, State::FriendlyPU(sq(26)));
    assert_eq!((state, mv), (State::InvalidPiecePU(Some(sq(26)), sq(36)), None));
}

#[test]
fn piece_that_does_not_attack_the_lifted_enemy_is_an_invalid_pickup() {
    let pos = position(BISHOP_TAKES_F7);
    let (state, mv) = update_state(&pos, 1, State::EnemyPU(sq(53)));
    assert_eq!((state, mv), (State::InvalidPiecePU(Some(sq(53)), sq(1)), None));
    let (state, mv) = update_state(&pos, 1, state);
    assert_eq!((state, mv), (State::EnemyPU(sq(53)), None));
}

#[test]
fn second_enemy_piece_is_an_invalid_pickup() {
    let pos = position(BISHOP_TAKES_F7);
    let (state, mv) = update_state(&pos, 52, State::EnemyPU(sq(53)));
    assert_eq!((state, mv), (State::InvalidPiecePU(Some(sq(53)), sq(52)), None));
}

#[test]
fn king_may_not_take_a_defended_piece() {
    let defended = position("4r2k/8/8/8/8/8/4r3/4K3 w - - 0 1");
    let (state, _) = update_state(&defended, 12, State::Idle);
    assert_eq!(state, State::EnemyPU(sq(12)));
    let (state, mv) = update_state(&defended, 4, state);
    assert_eq!((state, mv), (State::InvalidPiecePU(Some(sq(12)), sq(4)), None));

    let loose = position("7k/8/8/8/8/8/4r3/4K3 w - - 0 1");
    let (state, _) = update_state(&loose, 12, State::Idle);
    let (state, mv) = update_state(&loose, 4, state);
    assert_eq!((state, mv), (State::FriendlyAndEnemyPU(sq(4), sq(12)), None));
    let (state, mv) = update_state(&loose, 12, state);
    assert_eq!(state, State::Idle);
    assert_eq!(
        mv,
        Some(Move::Normal {
            role: Role::King,
            from: sq(4),
            capture: Some(Role::Rook),
            to: sq(12),
            promotion: None,
        })
    );
}

#[test]
fn illegal_landing_is_an_invalid_move_that_recovers() {
    let pos = Chess::default();
    let (state, _) = update_state(&pos, 12, State::Idle);
    let (state, mv) = update_state(&pos, 36, state);
    assert_eq!((state, mv), (State::InvalidMove(sq(12), sq(36)), None));
    let (state, mv) = update_state(&pos, 36, state);
    assert_eq!((state, mv), (State::FriendlyPU(sq(12)), None));
    let (state, mv) = update_state(&pos, 28, state);
    assert_eq!(state, State::Idle);
    assert!(mv.is_some());
}

#[test]
fn recoverable_errors_end_in_error_on_any_other_event() {
    let pos = Chess::default();
    assert_eq!(update_state(&pos, 3, State::InvalidMove(sq(12), sq(36))), (State::Error, None));
    assert_eq!(update_state(&pos, 3, State::InvalidPiecePU(None, sq(50))), (State::Error, None));
    assert_eq!(
        update_state(&pos, 3, State::InvalidPiecePU(Some(sq(12)), sq(11))),
        (State::Error, None)
    );
}

#[test]
fn invalid_pickup_with_an_empty_remembered_square_ends_in_error() {
    let pos = Chess::default();
    assert_eq!(
        update_state(&pos, 11, State::InvalidPiecePU(Some(sq(35)), sq(11))),
        (State::Error, None)
    );
}

#[test]
fn error_absorbs_every_event() {
    let pos = Chess::default();
    for index in 0..64u32 {
        assert_eq!(update_state(&pos, index, State::Error), (State::Error, None));
    }
}

#[test]
fn third_square_during_a_capture_is_an_error() {
    let pos = position(BISHOP_TAKES_F7);
    assert_eq!(
        update_state(&pos, 30, State::FriendlyAndEnemyPU(sq(26), sq(53))),
        (State::Error, None)
    );
}

#[test]
fn pawn_reaching_the_back_rank_promotes_to_a_queen() {
    let pos = position("7k/4P3/8/8/8/8/8/K7 w - - 0 1");
    let (state, _) = update_state(&pos, 52, State::Idle);
    let (state, mv) = update_state(&pos, 60, state);
    assert_eq!(state, State::Idle);
    assert_eq!(
        mv,
        Some(Move::Normal {
            role: Role::Pawn,
            from: sq(52),
            capture: None,
            to: sq(60),
            promotion: Some(Role::Queen),
        })
    );
}

#[test]
fn capturing_pawn_reaching_the_back_rank_promotes_to_a_queen() {
    let pos = position("3r3k/4P3/8/8/8/8/8/K7 w - - 0 1");
    let (state, _) = update_state(&pos, 52, State::Idle);
    let (state, _) = update_state(&pos, 59, state);
    assert_eq!(state, State::FriendlyAndEnemyPU(sq(52), sq(59)));
    let (state, mv) = update_state(&pos, 59, state);
    assert_eq!(state, State::Idle);
    assert_eq!(
        mv,
        Some(Move::Normal {
            role: Role::Pawn,
            from: sq(52),
            capture: Some(Role::Rook),
            to: sq(59),
            promotion: Some(Role::Queen),
        })
    );
}

#[test]
fn black_to_move_lifts_black_pieces() {
    let pos = position("rnbqkbnr/pppppppp/8/8/4P3/8/PPPP1PPP/RNBQKBNR b KQkq - 0 1");
    assert_eq!(update_state(&pos, 52, State::Idle), (State::FriendlyPU(sq(52)), None));
    // a white piece that no black piece attacks
    assert_eq!(update_state(&pos, 28, State::Idle), (State::InvalidPiecePU(None, sq(28)), None));
    let (state, mv) = update_state(&pos, 36, State::FriendlyPU(sq(52)));
    assert_eq!(state, State::Idle);
    assert_eq!(
        mv,
        Some(Move::Normal { role: Role::Pawn, from: sq(52), capture: None, to: sq(36), promotion: None })
    );
}

#[test]
fn lifting_the_pawn_that_passed_is_an_invalid_pickup() {
    // white pawn on e5, black has just played d7-d5: the pawn on e5 attacks d6, not d5
    let pos = position("rnbqkbnr/ppp1p1pp/5p2/3pP3/8/8/PPPP1PPP/RNBQKBNR w KQkq d6 0 3");
    let (state, _) = update_state(&pos, 36, State::Idle);
    assert_eq!(state, State::FriendlyPU(sq(36)));
    let (state, mv) = update_state(&pos, 35, state);
    assert_eq!((state, mv), (State::InvalidPiecePU(Some(sq(36)), sq(35)), None));
}

#[test]
fn same_inputs_give_same_outputs() {
    let pos = position(BISHOP_TAKES_F7);
    let states = [
        State::Idle,
        State::FriendlyPU(sq(26)),
        State::EnemyPU(sq(53)),
        State::FriendlyAndEnemyPU(sq(26), sq(53)),
        State::Castling(sq(4), sq(7)),
        State::CastlingPutRookDown(sq(4), sq(7), sq(5)),
        State::InvalidPiecePU(None, sq(36)),
        State::InvalidPiecePU(Some(sq(26)), sq(36)),
        State::InvalidMove(sq(26), sq(36)),
        State::Error,
    ];
    let before = pos.clone();
    for state in states.iter() {
        for index in 0..64u32 {
            let first = update_state(&pos, index, *state);
            let second = update_state(&pos, index, *state);
            assert_eq!(first, second);
            if first.1.is_some() {
                assert_eq!(first.0, State::Idle);
            }
        }
    }
    assert_eq!(pos, before);
}

fn outside_square(square: Square) -> shakmaty::Square {
    shakmaty::Square::new(u32::from(square.index))
}

fn outside_role(role: Role) -> shakmaty::Role {
    match role {
        Role::Pawn => shakmaty::Role::Pawn,
        Role::Knight => shakmaty::Role::Knight,
        Role::Bishop => shakmaty::Role::Bishop,
        Role::Rook => shakmaty::Role::Rook,
        Role::Queen => shakmaty::Role::Queen,
        Role::King => shakmaty::Role::King,
    }
}

fn outside_move(mv: Move) -> shakmaty::Move {
    match mv {
        Move::Normal { role, from, capture, to, promotion } => shakmaty::Move::Normal {
            role: outside_role(role),
            from: outside_square(from),
            capture: capture.map(outside_role),
            to: outside_square(to),
            promotion: promotion.map(outside_role),
        },
        Move::EnPassant { from, to } => {
            shakmaty::Move::EnPassant { from: outside_square(from), to: outside_square(to) }
        }
        Move::Castle { king, rook } => {
            shakmaty::Move::Castle { king: outside_square(king), rook: outside_square(rook) }
        }
    }
}

#[test]
fn committed_moves_that_neither_capture_nor_promote_are_legal() {
    let fens = [
        "rnbqkbnr/pppppppp/8/8/8/8/PPPPPPPP/RNBQKBNR w KQkq - 0 1",
        ITALIAN,
        BISHOP_TAKES_F7,
        "r3k2r/pppqpppp/2n5/3p1b2/3P1B2/2N5/PPPQPPPP/R3K2R b KQkq - 6 5",
        "4r2k/8/8/8/8/8/4r3/4K3 w - - 0 1",
        "7k/4P3/8/8/8/8/4p3/K7 b - - 0 1",
    ];
    let mut committed = 0;
    for fen in fens.iter() {
        let pos = position(fen);
        for from in 0..64u32 {
            let (lifted, _) = update_state(&pos, from, State::Idle);
            for second in 0..64u32 {
                let (state, mv) = update_state(&pos, second, lifted);
                if let Some(mv) = mv {
                    assert_eq!(state, State::Idle);
                    if !mv.is_capture() && !mv.is_promotion() {
                        assert!(pos.is_legal(&outside_move(mv)));
                        committed += 1;
                    }
                }
                // castling: king lands, rook lands
                for third in 0..64u32 {
                    if !matches!(state, State::Castling(_, _)) {
                        break;
                    }
                    let (rook_due, none) = update_state(&pos, third, state);
                    assert_eq!(none, None);
                    if let State::CastlingPutRookDown(_, _, target) = rook_due {
                        let (done, castle) = update_state(&pos, u32::from(target.index), rook_due);
                        assert_eq!(done, State::Idle);
                        assert!(pos.is_legal(&outside_move(castle.unwrap())));
                        committed += 1;
                    }
                }
            }
        }
    }
    assert!(committed > 60);
}

#[test]
fn every_state_and_event_has_an_answer() {
    let fens = [
        "rnbqkbnr/pppppppp/8/8/8/8/PPPPPPPP/RNBQKBNR w KQkq - 0 1",
        ITALIAN,
        "7k/4P3/8/8/8/8/4p3/K7 b - - 0 1",
    ];
    for fen in fens.iter() {
        let pos = position(fen);
        for a in (0..64u32).step_by(3) {
            for b in (0..64u32).step_by(5) {
                let states = [
                    State::Idle,
                    State::FriendlyPU(sq(a)),
                    State::EnemyPU(sq(a)),
                    State::FriendlyAndEnemyPU(sq(a), sq(b)),
                    State::Castling(sq(a), sq(b)),
                    State::CastlingPutRookDown(sq(a), sq(b), sq(a)),
                    State::InvalidPiecePU(None, sq(a)),
                    State::InvalidPiecePU(Some(sq(a)), sq(b)),
                    State::InvalidMove(sq(a), sq(b)),
                    State::Error,
                ];
                for state in states.iter() {
                    for event in 0..64u32 {
                        let (next, mv) = update_state(&pos, event, *state);
                        if mv.is_some() {
                            assert_eq!(next, State::Idle);
                        }
                        if *state == State::Error {
                            assert_eq!((next, mv), (State::Error, None));
                        }
                    }
                }
            }
        }
    }
}
