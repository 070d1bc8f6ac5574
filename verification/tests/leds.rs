use chessboard_core::bitboard::Bitboard;
use chessboard_core::fsm::State;
use chessboard_core::leds::{get_rgb, RGB};
use chessboard_core::square::Square;
use shakmaty::fen::Fen;
use shakmaty::{CastlingMode, Chess};

fn position(fen: &str) -> Chess {
    fen.parse::<Fen>().unwrap().into_position(CastlingMode::Standard).unwrap()
}

fn sq(index: u32) -> Square {
    Square::new(index)
}

fn squares(indices: &[u32]) -> Bitboard {
    Bitboard(indices.iter().fold(0u64, |mask, i| mask | (1u64 << i)))
}

const NONE: Bitboard = Bitboard(0);

#[test]
fn idle_is_dark() {
    assert_eq!(get_rgb(&Chess::default(), State::Idle), RGB { r: NONE, g: NONE, b: NONE });
}

#[test]
fn lifted_pawn_on_its_home_rank_shows_both_advances() {
    let rgb = get_rgb(&Chess::default(), State::FriendlyPU(sq(12)));
    assert_eq!(rgb, RGB { r: NONE, g: squares(&[20, 28]), b: NONE });
}

#[test]
fn lifted_pawn_with_a_blocked_first_step_shows_nothing() {
    // a black knight on e3 stands in front of the pawn on e2
    let pos = position("rnbqkb1r/pppppppp/8/8/8/4n3/PPPPPPPP/RNBQKBNR w KQkq - 0 1");
    let rgb = get_rgb(&pos, State::FriendlyPU(sq(12)));
    assert_eq!(rgb, RGB { r: NONE, g: NONE, b: NONE });
    // the pawn on d2 may take it, and advance
    let rgb = get_rgb(&pos, State::FriendlyPU(sq(11)));
    assert_eq!(rgb, RGB { r: squares(&[20]), g: squares(&[19, 27, 20]), b: NONE });
}

#[test]
fn lifted_pawn_with_a_blocked_second_step_shows_one_advance() {
    let pos = position("rnbqkb1r/pppppppp/8/8/4n3/8/PPPPPPPP/RNBQKBNR w KQkq - 0 1");
    let rgb = get_rgb(&pos, State::FriendlyPU(sq(12)));
    assert_eq!(rgb, RGB { r: NONE, g: squares(&[20]), b: NONE });
}

#[test]
fn lifted_pawn_off_its_home_rank_shows_one_advance() {
    let pos = position("rnbqkbnr/pppp1ppp/8/4p3/4P3/8/PPPP1PPP/RNBQKBNR w KQkq - 0 2");
    // the pawn on e4 is blocked by the pawn on e5
    assert_eq!(get_rgb(&pos, State::FriendlyPU(sq(28))), RGB { r: NONE, g: NONE, b: NONE });
    let pos = position("rnbqkbnr/pppp1ppp/8/4p3/3P4/8/PPP1PPPP/RNBQKBNR w KQkq - 0 2");
    // the pawn on d4 may advance to d5 or take on e5
    assert_eq!(
        get_rgb(&pos, State::FriendlyPU(sq(27))),
        RGB { r: squares(&[36]), g: squares(&[35, 36]), b: NONE }
    );
}

#[test]
fn black_pawn_advances_downwards() {
    let pos = position("rnbqkbnr/pppppppp/8/8/4P3/8/PPPP1PPP/RNBQKBNR b KQkq - 0 1");
    let rgb = get_rgb(&pos, State::FriendlyPU(sq(52)));
    assert_eq!(rgb, RGB { r: NONE, g: squares(&[44, 36]), b: NONE });
}

#[test]
fn lifted_knight_shows_its_free_squares() {
    let rgb = get_rgb(&Chess::default(), State::FriendlyPU(sq(6)));
    assert_eq!(rgb, RGB { r: NONE, g: squares(&[21, 23]), b: NONE });
}

#[test]
fn lifted_bishop_shows_moves_and_captures() {
    let pos = position("rnbqkb1r/pppp1npp/8/4p3/2B1P3/8/PPPP1PPP/RNBQK1NR w KQkq - 0 1");
    let rgb = get_rgb(&pos, State::FriendlyPU(sq(26)));
    let moves = squares(&[17, 33, 40, 19, 12, 5, 35, 44]);
    let captures = squares(&[53]);
    assert_eq!(rgb, RGB { r: captures, g: moves.with(captures), b: NONE });
}

#[test]
fn pawn_before_promotion_switches_the_colours() {
    let pos = position("3r3k/4P3/8/8/8/8/8/K7 w - - 0 1");
    let rgb = get_rgb(&pos, State::FriendlyPU(sq(52)));
    assert_eq!(rgb, RGB { r: squares(&[60, 59]), g: squares(&[59]), b: squares(&[60]) });
}

#[test]
fn black_pawn_before_promotion_switches_the_colours() {
    let pos = position("7k/8/8/8/8/8/4p3/K7 b - - 0 1");
    let rgb = get_rgb(&pos, State::FriendlyPU(sq(12)));
    assert_eq!(rgb, RGB { r: squares(&[4]), g: NONE, b: squares(&[4]) });
}

#[test]
fn blocked_pawn_before_promotion_keeps_the_ordinary_colours() {
    let pos = position("3rn2k/4P3/8/8/8/8/8/K7 w - - 0 1");
    let rgb = get_rgb(&pos, State::FriendlyPU(sq(52)));
    assert_eq!(rgb, RGB { r: squares(&[59]), g: squares(&[59]), b: NONE });
}

#[test]
fn lifted_enemy_shows_its_attackers_in_green() {
    let pos = position("rnbqkb1r/pppp1npp/8/4p3/2B1P3/8/PPPP1PPP/RNBQK1NR w KQkq - 0 1");
    let rgb = get_rgb(&pos, State::EnemyPU(sq(53)));
    assert_eq!(rgb, RGB { r: NONE, g: squares(&[26]), b: NONE });
}

#[test]
fn capture_under_way_shows_the_target_in_green() {
    let rgb = get_rgb(&Chess::default(), State::FriendlyAndEnemyPU(sq(26), sq(53)));
    assert_eq!(rgb, RGB { r: NONE, g: squares(&[53]), b: NONE });
}

#[test]
fn castling_shows_where_the_king_lands() {
    let white = Chess::default();
    assert_eq!(
        get_rgb(&white, State::Castling(sq(4), sq(7))),
        RGB { r: squares(&[6]), g: NONE, b: squares(&[6]) }
    );
    assert_eq!(
        get_rgb(&white, State::Castling(sq(4), sq(0))),
        RGB { r: squares(&[2]), g: NONE, b: squares(&[2]) }
    );
    let black = position("rnbqkbnr/pppppppp/8/8/4P3/8/PPPP1PPP/RNBQKBNR b KQkq - 0 1");
    assert_eq!(
        get_rgb(&black, State::Castling(sq(60), sq(63))),
        RGB { r: squares(&[62]), g: NONE, b: squares(&[62]) }
    );
    assert_eq!(
        get_rgb(&black, State::Castling(sq(60), sq(56))),
        RGB { r: squares(&[58]), g: NONE, b: squares(&[58]) }
    );
}

#[test]
fn rook_due_shows_its_target() {
    let rgb = get_rgb(&Chess::default(), State::CastlingPutRookDown(sq(4), sq(7), sq(5)));
    assert_eq!(rgb, RGB { r: squares(&[5]), g: NONE, b: squares(&[5]) });
}

#[test]
fn recoverable_errors_show_the_offending_square_in_red() {
    let pos = Chess::default();
    assert_eq!(
        get_rgb(&pos, State::InvalidPiecePU(None, sq(50))),
        RGB { r: squares(&[50]), g: NONE, b: NONE }
    );
    assert_eq!(
        get_rgb(&pos, State::InvalidPiecePU(Some(sq(12)), sq(11))),
        RGB { r: squares(&[11]), g: NONE, b: NONE }
    );
    assert_eq!(
        get_rgb(&pos, State::InvalidMove(sq(12), sq(36))),
        RGB { r: squares(&[36]), g: NONE, b: NONE }
    );
}

#[test]
fn error_lights_the_whole_board_red() {
    let rgb = get_rgb(&Chess::default(), State::Error);
    assert_eq!(rgb, RGB { r: Bitboard(u64::MAX), g: NONE, b: NONE });
}
