//! Plain-text pictures of states and boards, for logs and terminals.

use vstd::prelude::*;
use crate::bitboard::{bit_set, Bitboard};
use crate::fsm::State;

verus! {

/// The name of a state's variant.
pub open spec fn state_name_of(state: State) -> Seq<char> {
    match state {
        State::Idle => "Idle"@,
        State::FriendlyPU(_) => "FriendlyPU"@,
        State::EnemyPU(_) => "EnemyPU"@,
        State::FriendlyAndEnemyPU(_, _) => "FriendlyAndEnemyPU"@,
        State::Castling(_, _) => "Castling"@,
        State::CastlingPutRookDown(_, _, _) => "CastlingPutRookDown"@,
        State::InvalidPiecePU(_, _) => "InvalidPiecePU"@,
        State::InvalidMove(_, _) => "InvalidMove"@,
        State::Error => "Error"@,
    }
}

/// The name of a state's variant, without the squares it holds.
pub fn state_name(state: State) -> (name: &'static str)
    ensures
        name@ == state_name_of(state),
{
    match state {
        State::Idle => "Idle",
        State::FriendlyPU(_) => "FriendlyPU",
        State::EnemyPU(_) => "EnemyPU",
        State::FriendlyAndEnemyPU(_, _) => "FriendlyAndEnemyPU",
        State::Castling(_, _) => "Castling",
        State::CastlingPutRookDown(_, _, _) => "CastlingPutRookDown",
        State::InvalidPiecePU(_, _) => "InvalidPiecePU",
        State::InvalidMove(_, _) => "InvalidMove",
        State::Error => "Error",
    }
}

/// The character at place `i` in the picture of a bitboard. The picture
/// has eight rows, the eighth rank first; each row starts with a line feed
/// and shows the files from a to h, a blank before each, `1` for a square of
/// the set and `0` for any other.
pub open spec fn bitboard_char(bitboard: Bitboard, i: int) -> u8 {
    let row = i / 17;
    let column = i % 17;
    if column == 0 {
        10
    } else if column % 2 == 1 {
        32
    } else if bit_set(bitboard.0, ((7 - row) * 8 + column / 2 - 1) as u64) {
        49
    } else {
        48
    }
}

/// The picture of a bitboard.
pub open spec fn bitboard_text_of(bitboard: Bitboard) -> Seq<u8> {
    Seq::new(136, |i: int| bitboard_char(bitboard, i))
}

/// Draws a bitboard as eight rows of zeros and ones, the eighth rank on
/// top and the a-file on the left.
pub fn bitboard_text(bitboard: Bitboard) -> (text: Vec<u8>)
    ensures
        text@ == bitboard_text_of(bitboard),
{
    let mut text: Vec<u8> = Vec::new();
    let mut row: u64 = 0;
    while row < 8
        invariant
            row <= 8,
            text@.len() == row * 17,
            forall|i: int| 0 <= i < text@.len() ==> text@[i] == bitboard_char(bitboard, i),
        decreases 8 - row,
    {
        text.push(10);
        let mut file: u64 = 0;
        while file < 8
            invariant
                row < 8,
                file <= 8,
                text@.len() == row * 17 + 1 + 2 * file,
                forall|i: int| 0 <= i < text@.len() ==> text@[i] == bitboard_char(bitboard, i),
            decreases 8 - file,
        {
            let index: u64 = (7 - row) * 8 + file;
            let digit: u8 = if (bitboard.0 >> index) & 1 == 1 {
                49
            } else {
                48
            };
            text.push(32);
            text.push(digit);
            file += 1;
        }
        row += 1;
    }
    text
}

/// A letter that stands for a piece in a board description.
pub open spec fn is_piece_letter(b: u8) -> bool {
    b == 114 || b == 82 || b == 110 || b == 78 || b == 98 || b == 66 || b == 113 || b == 81 || b
        == 107 || b == 75 || b == 112 || b == 80
}

/// What one character of a board description draws: a piece letter draws
/// itself and a blank, a digit from 1 to 8 draws that many empty squares, a
/// dot and a blank each, and any other character draws one blank.
pub open spec fn fen_cell(b: u8) -> Seq<u8> {
    if is_piece_letter(b) {
        seq![b, 32u8]
    } else if 49 <= b && b <= 56 {
        Seq::new(2 * (b - 48) as nat, |i: int| if i % 2 == 0 { 46u8 } else { 32u8 })
    } else {
        seq![32u8]
    }
}

/// By how many squares one character of a board description advances
/// along the rank.
pub open spec fn fen_advance(b: u8) -> nat {
    if is_piece_letter(b) {
        1
    } else if 49 <= b && b <= 56 {
        (b - 48) as nat
    } else {
        0
    }
}

/// The picture of the rest of a board description when `column` squares of
/// the current rank are drawn: a rank that is exactly full ends with a line
/// feed before the next character is drawn.
pub open spec fn fen_rows(fen: Seq<u8>, column: nat) -> Seq<u8>
    decreases fen.len(),
{
    if fen.len() == 0 {
        Seq::empty()
    } else if column == 8 {
        seq![10u8] + fen_cell(fen[0]) + fen_rows(fen.drop_first(), fen_advance(fen[0]))
    } else {
        fen_cell(fen[0]) + fen_rows(fen.drop_first(), column + fen_advance(fen[0]))
    }
}

/// The picture of a board description: a blank, then the ranks.
pub open spec fn board_text_of(fen: Seq<u8>) -> Seq<u8> {
    seq![32u8] + fen_rows(fen, 0)
}

fn is_piece_letter_byte(b: u8) -> (letter: bool)
    ensures
        letter == is_piece_letter(b),
{
    b == 114 || b == 82 || b == 110 || b == 78 || b == 98 || b == 66 || b == 113 || b == 81 || b
        == 107 || b == 75 || b == 112 || b == 80
}

/// Adds the picture of one character to the text.
fn push_fen_cell(text: &mut Vec<u8>, b: u8)
    ensures
        final(text)@ == old(text)@ + fen_cell(b),
{
    if is_piece_letter_byte(b) {
        text.push(b);
        text.push(32);
    } else if 49 <= b && b <= 56 {
        let n: u8 = b - 48;
        let ghost start = text@;
        let mut k: u8 = 0;
        while k < n
            invariant
                k <= n,
                n == b - 48,
                49 <= b <= 56,
                text@.len() == start.len() + 2 * k,
                forall|j: int| 0 <= j < start.len() ==> #[trigger] text@[j] == start[j],
                forall|j: int|
                    start.len() <= j < text@.len() ==> #[trigger] text@[j] == if (j
                        - start.len()) % 2 == 0 {
                        46u8
                    } else {
                        32u8
                    },
            decreases n - k,
        {
            text.push(46);
            text.push(32);
            k += 1;
        }
    } else {
        text.push(32);
    }
}

/// Draws the board part of a position's description, in which ranks are
/// written from the eighth to the first, pieces as letters and runs of empty
/// squares as digits: one row per rank, a blank after every square.
pub fn board_text_from_fen(fen: &[u8]) -> (text: Vec<u8>)
    ensures
        text@ == board_text_of(fen@),
{
    let mut text: Vec<u8> = Vec::new();
    text.push(32);
    let mut column: u128 = 0;
    let mut i: usize = 0;
    proof {
        assert(fen@.subrange(0, fen@.len() as int) =~= fen@);
    }
    while i < fen.len()
        invariant
            i <= fen.len(),
            column <= 8 * i,
            text@ + fen_rows(fen@.subrange(i as int, fen@.len() as int), column as nat)
                == board_text_of(fen@),
        decreases fen.len() - i,
    {
        let b = fen[i];
        let ghost rest = fen@.subrange(i as int, fen@.len() as int);
        proof {
            assert(rest.drop_first() =~= fen@.subrange(i + 1, fen@.len() as int));
        }
        if column == 8 {
            column = 0;
            text.push(10);
        }
        push_fen_cell(&mut text, b);
        if is_piece_letter_byte(b) {
            column += 1;
        } else if 49 <= b && b <= 56 {
            column += (b - 48) as u128;
        }
        i += 1;
    }
    text
}

} // verus!
