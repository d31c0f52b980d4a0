//! Squares of the board and their two-character names.

use vstd::prelude::*;
use vstd::string::*;

verus! {

/// A square, by file (0 is the a-file) and rank (0 is White's back rank).
///
/// The fields are public, so a value may name a place off the board; the
/// functions that take a square say what they do with such a value.
#[derive(Clone, Copy, Debug, PartialEq, Eq, Hash, Structural)]
pub struct Square {
    pub file: u8,
    pub rank: u8,
}

/// The letter of a file, `A` for file 0 up to `H` for file 7.
pub open spec fn file_letter(file: int) -> char {
    if file == 0 {
        'A'
    } else if file == 1 {
        'B'
    } else if file == 2 {
        'C'
    } else if file == 3 {
        'D'
    } else if file == 4 {
        'E'
    } else if file == 5 {
        'F'
    } else if file == 6 {
        'G'
    } else {
        'H'
    }
}

/// The digit of a rank, `1` for rank 0 up to `8` for rank 7.
pub open spec fn rank_digit(rank: int) -> char {
    if rank == 0 {
        '1'
    } else if rank == 1 {
        '2'
    } else if rank == 2 {
        '3'
    } else if rank == 3 {
        '4'
    } else if rank == 4 {
        '5'
    } else if rank == 5 {
        '6'
    } else if rank == 6 {
        '7'
    } else {
        '8'
    }
}

impl Square {
    /// Whether the square lies on the board.
    pub open spec fn valid(self) -> bool {
        self.file < 8 && self.rank < 8
    }

    /// The position of the square in a position's sequence of cells.
    pub open spec fn index(self) -> int {
        self.file * 8 + self.rank
    }

    /// The name of a square of the board: its file letter, then its rank
    /// digit.
    pub open spec fn spec_name(self) -> Seq<char> {
        seq![file_letter(self.file as int), rank_digit(self.rank as int)]
    }

    /// The square at the given file and rank, or `None` if either lies
    /// outside `0..8`.
    pub fn new(file: i8, rank: i8) -> (square: Option<Square>)
        ensures
            0 <= file < 8 && 0 <= rank < 8 ==> square == Some(
                Square { file: file as u8, rank: rank as u8 },
            ),
            !(0 <= file < 8 && 0 <= rank < 8) ==> square is None,
    {
        if 0 <= file && file < 8 && 0 <= rank && rank < 8 {
            Some(Square { file: file as u8, rank: rank as u8 })
        } else {
            None
        }
    }

    /// The square that a name stands for, if it is the name of a square of
    /// the board.
    pub open spec fn spec_from_name(text: Seq<char>) -> Option<Square> {
        if exists|square: Square| square.valid() && #[trigger] square.spec_name() == text {
            Some(choose|square: Square| square.valid() && #[trigger] square.spec_name() == text)
        } else {
            None
        }
    }

    /// Two squares of the board with one name are one square.
    pub proof fn lemma_name_is_unique(self, other: Square)
        requires
            self.valid(),
            other.valid(),
            self.spec_name() == other.spec_name(),
        ensures
            self == other,
    {
        assert(self.spec_name()[0] == other.spec_name()[0]);
        assert(self.spec_name()[1] == other.spec_name()[1]);
    }

    /// The square with the given two-character name: an upper-case file
    /// letter `A` to `H`, then a rank digit `1` to `8`.  `None` for any other
    /// text.
    pub fn from_notation(name: &str) -> (square: Option<Square>)
        ensures
            square == Square::spec_from_name(name@),
    {
        if name.unicode_len() != 2 {
            assert forall|other: Square| other.valid() implies #[trigger] other.spec_name()
                != name@ by {
                assert(other.spec_name().len() == 2);
            }
            return None;
        }
        let letter = name.get_char(0);
        let digit = name.get_char(1);
        let file: u8 = match letter {
            'A' => 0,
            'B' => 1,
            'C' => 2,
            'D' => 3,
            'E' => 4,
            'F' => 5,
            'G' => 6,
            'H' => 7,
            _ => {
                assert forall|other: Square| other.valid() implies #[trigger] other.spec_name()
                    != name@ by {
                    assert(other.spec_name()[0] != name@[0]);
                }
                return None;
            },
        };
        let rank: u8 = match digit {
            '1' => 0,
            '2' => 1,
            '3' => 2,
            '4' => 3,
            '5' => 4,
            '6' => 5,
            '7' => 6,
            '8' => 7,
            _ => {
                assert forall|other: Square| other.valid() implies #[trigger] other.spec_name()
                    != name@ by {
                    assert(other.spec_name()[1] != name@[1]);
                }
                return None;
            },
        };
        let square = Square { file, rank };
        proof {
            assert(square.spec_name() =~= name@);
            let chosen = choose|other: Square|
                other.valid() && #[trigger] other.spec_name() == name@;
            square.lemma_name_is_unique(chosen);
        }
        Some(square)
    }

    /// The name of the square, or `None` if it lies off the board.
    pub fn name(&self) -> (name: Option<String>)
        ensures
            self.valid() ==> name is Some && name->0@ == self.spec_name(),
            !self.valid() ==> name is None,
    {
        if self.file < 8 && self.rank < 8 {
            pos_to_string(self.file as i8, self.rank as i8 + 1)
        } else {
            None
        }
    }

    /// Whether the square lies on the board.
    pub fn is_valid(&self) -> (yes: bool)
        ensures
            yes == self.valid(),
    {
        self.file < 8 && self.rank < 8
    }
}

/// The name of the square in column `col` (0 to 7, the a-file first) and row
/// `row` (1 to 8, as printed on the board), or `None` if either is out of
/// range.
pub fn pos_to_string(col: i8, row: i8) -> (name: Option<String>)
    ensures
        0 <= col < 8 && 1 <= row <= 8 ==> name is Some && name->0@ == seq![
            file_letter(col as int),
            rank_digit(row - 1),
        ],
        !(0 <= col < 8 && 1 <= row <= 8) ==> name is None,
{
    let letter: &str = match col {
        0 => "A",
        1 => "B",
        2 => "C",
        3 => "D",
        4 => "E",
        5 => "F",
        6 => "G",
        7 => "H",
        _ => { return None; },
    };
    let digit: &str = match row {
        1 => "1",
        2 => "2",
        3 => "3",
        4 => "4",
        5 => "5",
        6 => "6",
        7 => "7",
        8 => "8",
        _ => { return None; },
    };
    proof {
        reveal_strlit("A");
        reveal_strlit("B");
        reveal_strlit("C");
        reveal_strlit("D");
        reveal_strlit("E");
        reveal_strlit("F");
        reveal_strlit("G");
        reveal_strlit("H");
        reveal_strlit("1");
        reveal_strlit("2");
        reveal_strlit("3");
        reveal_strlit("4");
        reveal_strlit("5");
        reveal_strlit("6");
        reveal_strlit("7");
        reveal_strlit("8");
    }
    let mut text = String::from_str(letter);
    text.append(digit);
    assert(text@ =~= seq![file_letter(col as int), rank_digit(row - 1)]);
    Some(text)
}

} // verus!
