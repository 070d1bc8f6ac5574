//! Squares of the board, with their file and rank.

use vstd::prelude::*;

verus! {

/// A file (column) of the board, `A` on white's left.
#[derive(Clone, Copy, Debug, PartialEq, Eq, Hash, Structural)]
pub enum File {
    A,
    B,
    C,
    D,
    E,
    F,
    G,
    H,
}

/// A rank (row) of the board, `First` being white's back rank.
#[derive(Clone, Copy, Debug, PartialEq, Eq, Hash, Structural)]
pub enum Rank {
    First,
    Second,
    Third,
    Fourth,
    Fifth,
    Sixth,
    Seventh,
    Eighth,
}

impl File {
    /// The file's number, 1 for the a-file up to 8 for the h-file.
    pub open spec fn spec_number(self) -> u8 {
        match self {
            File::A => 1,
            File::B => 2,
            File::C => 3,
            File::D => 4,
            File::E => 5,
            File::F => 6,
            File::G => 7,
            File::H => 8,
        }
    }

    /// The file's number, 1 for the a-file up to 8 for the h-file.
    #[verifier::when_used_as_spec(spec_number)]
    pub fn number(self) -> (n: u8)
        ensures
            n == self.spec_number(),
            1 <= n <= 8,
    {
        match self {
            File::A => 1,
            File::B => 2,
            File::C => 3,
            File::D => 4,
            File::E => 5,
            File::F => 6,
            File::G => 7,
            File::H => 8,
        }
    }

    /// The file with the given number, which lies in `1..=8`.
    pub open spec fn spec_from_number(n: int) -> File {
        if n == 1 {
            File::A
        } else if n == 2 {
            File::B
        } else if n == 3 {
            File::C
        } else if n == 4 {
            File::D
        } else if n == 5 {
            File::E
        } else if n == 6 {
            File::F
        } else if n == 7 {
            File::G
        } else {
            File::H
        }
    }

    /// The file with the given number.
    pub fn from_number(n: u8) -> (f: File)
        requires
            1 <= n <= 8,
        ensures
            f == File::spec_from_number(n as int),
            f.number() == n,
    {
        if n == 1 {
            File::A
        } else if n == 2 {
            File::B
        } else if n == 3 {
            File::C
        } else if n == 4 {
            File::D
        } else if n == 5 {
            File::E
        } else if n == 6 {
            File::F
        } else if n == 7 {
            File::G
        } else {
            File::H
        }
    }
}

impl Rank {
    /// The rank's number, 1 for white's back rank up to 8 for black's.
    pub open spec fn spec_number(self) -> u8 {
        match self {
            Rank::First => 1,
            Rank::Second => 2,
            Rank::Third => 3,
            Rank::Fourth => 4,
            Rank::Fifth => 5,
            Rank::Sixth => 6,
            Rank::Seventh => 7,
            Rank::Eighth => 8,
        }
    }

    /// The rank's number, 1 for white's back rank up to 8 for black's.
    #[verifier::when_used_as_spec(spec_number)]
    pub fn number(self) -> (n: u8)
        ensures
            n == self.spec_number(),
            1 <= n <= 8,
    {
        match self {
            Rank::First => 1,
            Rank::Second => 2,
            Rank::Third => 3,
            Rank::Fourth => 4,
            Rank::Fifth => 5,
            Rank::Sixth => 6,
            Rank::Seventh => 7,
            Rank::Eighth => 8,
        }
    }

    /// The rank with the given number, which lies in `1..=8`.
    pub open spec fn spec_from_number(n: int) -> Rank {
        if n == 1 {
            Rank::First
        } else if n == 2 {
            Rank::Second
        } else if n == 3 {
            Rank::Third
        } else if n == 4 {
            Rank::Fourth
        } else if n == 5 {
            Rank::Fifth
        } else if n == 6 {
            Rank::Sixth
        } else if n == 7 {
            Rank::Seventh
        } else {
            Rank::Eighth
        }
    }

    /// The rank with the given number.
    pub fn from_number(n: u8) -> (r: Rank)
        requires
            1 <= n <= 8,
        ensures
            r == Rank::spec_from_number(n as int),
            r.number() == n,
    {
        if n == 1 {
            Rank::First
        } else if n == 2 {
            Rank::Second
        } else if n == 3 {
            Rank::Third
        } else if n == 4 {
            Rank::Fourth
        } else if n == 5 {
            Rank::Fifth
        } else if n == 6 {
            Rank::Sixth
        } else if n == 7 {
            Rank::Seventh
        } else {
            Rank::Eighth
        }
    }
}

/// A square, numbered rank by rank from a1 (0) over h1 (7) to h8 (63).
#[derive(Clone, Copy, Debug, PartialEq, Eq, Hash, Structural)]
pub struct Square {
    pub index: u8,
}

impl Square {
    /// A square is well formed when its index lies on the board.
    pub open spec fn wf(self) -> bool {
        self.index < 64
    }

    /// The square's file.
    pub open spec fn spec_file(self) -> File {
        File::spec_from_number(self.index % 8 + 1)
    }

    /// The square's rank.
    pub open spec fn spec_rank(self) -> Rank {
        Rank::spec_from_number(self.index / 8 + 1)
    }

    /// The square on the given file and rank.
    pub open spec fn spec_from_coords(file: File, rank: Rank) -> Square {
        Square { index: ((rank.number() - 1) * 8 + (file.number() - 1)) as u8 }
    }

    /// The square with the given index.
    pub fn new(index: u32) -> (sq: Square)
        requires
            index < 64,
        ensures
            sq.index == index,
            sq.wf(),
    {
        Square { index: index as u8 }
    }

    /// The square with the given index, or `None` when the index is off the
    /// board.
    pub fn from_index(index: u32) -> (sq: Option<Square>)
        ensures
            index < 64 ==> sq == Some(Square { index: index as u8 }),
            index >= 64 ==> sq.is_none(),
    {
        if index < 64 {
            Some(Square { index: index as u8 })
        } else {
            None
        }
    }

    /// The square on the given file and rank.
    pub fn from_coords(file: File, rank: Rank) -> (sq: Square)
        ensures
            sq == Square::spec_from_coords(file, rank),
            sq.wf(),
            sq.file() == file,
            sq.rank() == rank,
    {
        Square { index: (rank.number() - 1) * 8 + (file.number() - 1) }
    }

    /// The square's file.
    #[verifier::when_used_as_spec(spec_file)]
    pub fn file(self) -> (f: File)
        requires
            self.wf(),
        ensures
            f == self.spec_file(),
    {
        File::from_number(self.index % 8 + 1)
    }

    /// The square's rank.
    #[verifier::when_used_as_spec(spec_rank)]
    pub fn rank(self) -> (r: Rank)
        requires
            self.wf(),
        ensures
            r == self.spec_rank(),
    {
        Rank::from_number(self.index / 8 + 1)
    }
}

/// A well-formed square is the one on its own file and rank.
pub proof fn lemma_coords_roundtrip(sq: Square)
    requires
        sq.wf(),
    ensures
        Square::spec_from_coords(sq.file(), sq.rank()) == sq,
{
}

} // verus!
