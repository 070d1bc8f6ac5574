//! Sets of squares held in one machine word.

use vstd::prelude::*;
use crate::square::Square;

verus! {

/// A set of squares: bit `i` of the mask is set when the square with index
/// `i` belongs to the set.
#[derive(Clone, Copy, Debug, PartialEq, Eq, Hash, Structural)]
pub struct Bitboard(pub u64);

/// Whether bit `i` of `mask` is set.
pub open spec fn bit_set(mask: u64, i: u64) -> bool {
    i < 64 && (mask >> i) & 1 == 1
}

impl View for Bitboard {
    type V = Set<Square>;

    open spec fn view(&self) -> Set<Square> {
        Set::new(|sq: Square| bit_set(self.0, sq.index as u64))
    }
}

/// All squares of the board.
pub open spec fn all_squares() -> Set<Square> {
    Set::new(|sq: Square| sq.wf())
}

/// The squares that `squares` turns into when every index grows by
/// `offset`; squares pushed off either end of the board are dropped.
pub open spec fn shifted(squares: Set<Square>, offset: int) -> Set<Square> {
    Set::new(
        |sq: Square|
            sq.wf() && 0 <= sq.index - offset < 64 && squares.contains(
                Square { index: (sq.index - offset) as u8 },
            ),
    )
}

proof fn lemma_bit_of_or(a: u64, b: u64, i: u64)
    by (bit_vector)
    requires
        i < 64,
    ensures
        ((a | b) >> i) & 1 == 1 <==> ((a >> i) & 1 == 1 || (b >> i) & 1 == 1),
{
}

proof fn lemma_bit_of_and(a: u64, b: u64, i: u64)
    by (bit_vector)
    requires
        i < 64,
    ensures
        ((a & b) >> i) & 1 == 1 <==> ((a >> i) & 1 == 1 && (b >> i) & 1 == 1),
{
}

proof fn lemma_bit_of_and_not(a: u64, b: u64, i: u64)
    by (bit_vector)
    requires
        i < 64,
    ensures
        ((a & !b) >> i) & 1 == 1 <==> ((a >> i) & 1 == 1 && (b >> i) & 1 != 1),
{
}

proof fn lemma_bit_of_single(i: u64, j: u64)
    by (bit_vector)
    requires
        i < 64,
        j < 64,
    ensures
        ((1u64 << i) >> j) & 1 == 1 <==> i == j,
{
}

proof fn lemma_bit_of_zero(j: u64)
    by (bit_vector)
    requires
        j < 64,
    ensures
        (0u64 >> j) & 1 != 1,
{
}

proof fn lemma_bit_of_ones(j: u64)
    by (bit_vector)
    requires
        j < 64,
    ensures
        (0xffff_ffff_ffff_ffffu64 >> j) & 1 == 1,
{
}

proof fn lemma_bit_of_shl(a: u64, n: u64, j: u64)
    by (bit_vector)
    requires
        n < 64,
        j < 64,
    ensures
        ((a << n) >> j) & 1 == 1 <==> (j >= n && (a >> ((j - n) as u64)) & 1 == 1),
{
}

proof fn lemma_bit_of_shr(a: u64, n: u64, j: u64)
    by (bit_vector)
    requires
        n < 64,
        j < 64,
    ensures
        ((a >> n) >> j) & 1 == 1 <==> (j + n < 64 && (a >> ((j + n) as u64)) & 1 == 1),
{
}

proof fn lemma_top_bit_or_nothing(a: u64)
    by (bit_vector)
    requires
        (a >> 63) & 1 != 1,
    ensures
        a >> 63 == 0,
{
}

proof fn lemma_drop_clear_bit(a: u64, k: u64)
    by (bit_vector)
    requires
        1 <= k < 64,
        a >> k == 0,
        (a >> ((k - 1) as u64)) & 1 != 1,
    ensures
        a >> ((k - 1) as u64) == 0,
{
}

/// A mask whose bits from `k` upwards are clear and which is not zero has a
/// set bit below `k`.
proof fn lemma_set_bit_below(a: u64, k: u64) -> (i: u64)
    requires
        k < 64,
        a >> k == 0,
        a != 0,
    ensures
        i < k,
        bit_set(a, i),
    decreases k,
{
    if k == 0 {
        assert(a >> 0 == a) by (bit_vector);
        0
    } else if (a >> ((k - 1) as u64)) & 1 == 1 {
        (k - 1) as u64
    } else {
        lemma_drop_clear_bit(a, k);
        lemma_set_bit_below(a, (k - 1) as u64)
    }
}

/// A mask that is not zero has a set bit.
proof fn lemma_set_bit(a: u64) -> (i: u64)
    requires
        a != 0,
    ensures
        bit_set(a, i),
{
    if (a >> 63) & 1 == 1 {
        63
    } else {
        lemma_top_bit_or_nothing(a);
        lemma_set_bit_below(a, 63)
    }
}

/// Two boards with the same squares are the same board.
pub proof fn lemma_view_determines_board(a: Bitboard, b: Bitboard)
    requires
        a@ == b@,
    ensures
        a == b,
{
    if a.0 != b.0 {
        let m: u64 = a.0;
        let n: u64 = b.0;
        let x: u64 = m ^ n;
        assert(x != 0) by (bit_vector)
            requires
                x == m ^ n,
                m != n,
        ;
        let i = lemma_set_bit(x);
        assert(((m >> i) & 1 == 1) != ((n >> i) & 1 == 1)) by (bit_vector)
            requires
                x == m ^ n,
                i < 64,
                (x >> i) & 1 == 1,
        ;
        let sq = Square { index: i as u8 };
        assert(b@.contains(sq) == bit_set(n, i));
    }
}

impl Bitboard {
    /// The board without any square.
    pub fn empty() -> (b: Bitboard)
        ensures
            b@ == Set::<Square>::empty(),
            b == Bitboard(0),
    {
        let b = Bitboard(0);
        proof {
            assert forall|sq: Square| !b@.contains(sq) by {
                if sq.wf() {
                    lemma_bit_of_zero(sq.index as u64);
                }
            }
        }
        b
    }

    /// The board with every square.
    pub fn full() -> (b: Bitboard)
        ensures
            b@ == all_squares(),
    {
        let b = Bitboard(0xffff_ffff_ffff_ffff);
        proof {
            assert forall|sq: Square| b@.contains(sq) == sq.wf() by {
                if sq.wf() {
                    lemma_bit_of_ones(sq.index as u64);
                }
            }
        }
        b
    }

    /// The board with one square.
    pub fn from_square(sq: Square) -> (b: Bitboard)
        requires
            sq.wf(),
        ensures
            b@ == set![sq],
    {
        let b = Bitboard(1u64 << (sq.index as u64));
        proof {
            assert forall|other: Square| b@.contains(other) == (other == sq) by {
                if other.wf() {
                    lemma_bit_of_single(sq.index as u64, other.index as u64);
                }
            }
        }
        b
    }

    /// Whether the board has no square at all.
    pub fn is_empty(self) -> (e: bool)
        ensures
            e == self@.is_empty(),
    {
        proof {
            if self.0 == 0 {
                assert forall|sq: Square| !self@.contains(sq) by {
                    if sq.wf() {
                        lemma_bit_of_zero(sq.index as u64);
                    }
                }
            } else {
                let i = lemma_set_bit(self.0);
                assert(self@.contains(Square { index: i as u8 }));
            }
        }
        self.0 == 0
    }

    /// Whether the board has a square.
    pub fn any(self) -> (a: bool)
        ensures
            a == !self@.is_empty(),
    {
        !self.is_empty()
    }

    /// Whether the board has the given square.
    pub fn contains(self, sq: Square) -> (c: bool)
        requires
            sq.wf(),
        ensures
            c == self@.contains(sq),
    {
        (self.0 >> (sq.index as u64)) & 1 == 1
    }

    /// The squares of either board.
    pub fn with(self, other: Bitboard) -> (b: Bitboard)
        ensures
            b@ == self@.union(other@),
    {
        let b = Bitboard(self.0 | other.0);
        proof {
            assert forall|sq: Square|
                b@.contains(sq) == (self@.contains(sq) || other@.contains(sq)) by {
                if sq.wf() {
                    lemma_bit_of_or(self.0, other.0, sq.index as u64);
                }
            }
        }
        b
    }

    /// The squares of this board that are not on the other.
    pub fn without(self, other: Bitboard) -> (b: Bitboard)
        ensures
            b@ == self@.difference(other@),
    {
        let b = Bitboard(self.0 & !other.0);
        proof {
            assert forall|sq: Square|
                b@.contains(sq) == (self@.contains(sq) && !other@.contains(sq)) by {
                if sq.wf() {
                    lemma_bit_of_and_not(self.0, other.0, sq.index as u64);
                }
            }
        }
        b
    }

    /// The squares on both boards.
    pub fn intersect(self, other: Bitboard) -> (b: Bitboard)
        ensures
            b@ == self@.intersect(other@),
    {
        let b = Bitboard(self.0 & other.0);
        proof {
            assert forall|sq: Square|
                b@.contains(sq) == (self@.contains(sq) && other@.contains(sq)) by {
                if sq.wf() {
                    lemma_bit_of_and(self.0, other.0, sq.index as u64);
                }
            }
        }
        b
    }

    /// Moves every square by `offset` indices, towards h8 for a positive
    /// offset and towards a1 for a negative one. Squares that leave the
    /// board are dropped.
    pub fn shift(self, offset: i32) -> (b: Bitboard)
        ensures
            b@ == shifted(self@, offset as int),
    {
        if offset > 63 || offset < -63 {
            let b = Bitboard(0);
            proof {
                assert forall|sq: Square| !b@.contains(sq) by {
                    if sq.wf() {
                        lemma_bit_of_zero(sq.index as u64);
                    }
                }
            }
            b
        } else if offset >= 0 {
            let n: u64 = offset as u64;
            let b = Bitboard(self.0 << n);
            proof {
                assert forall|sq: Square|
                    b@.contains(sq) == shifted(self@, offset as int).contains(sq) by {
                    if sq.wf() {
                        lemma_bit_of_shl(self.0, n, sq.index as u64);
                    }
                }
            }
            b
        } else {
            let n: u64 = (-offset) as u64;
            let b = Bitboard(self.0 >> n);
            proof {
                assert forall|sq: Square|
                    b@.contains(sq) == shifted(self@, offset as int).contains(sq) by {
                    if sq.wf() {
                        lemma_bit_of_shr(self.0, n, sq.index as u64);
                    }
                }
            }
            b
        }
    }
}

} // verus!
