//! Game board logic.

use vstd::prelude::*;

verus! {

/// Why a digit stream could not be loaded into a board.
#[derive(Clone, Copy, Debug, PartialEq, Eq, Structural)]
pub enum SdmError {
    /// The byte at `pos` is not an ASCII decimal digit; every byte before it is.
    InvalidDigit { pos: usize },
    /// The stream holds only `len` bytes, all of them digits, where 81 are needed.
    Truncated { len: usize },
    /// The stream holds `len` bytes where exactly 81 are allowed.
    TooLong { len: usize },
}

/// The ASCII code of the character `'0'`.
pub const ASCII_ZERO: u8 = 48;

/// The ASCII code of the character `'9'`.
pub const ASCII_NINE: u8 = 57;

/// True when `b` is the ASCII code of a decimal digit character `'0'` through `'9'`.
pub open spec fn is_sdm_digit(b: u8) -> bool {
    ASCII_ZERO <= b <= ASCII_NINE
}

/// The decimal value of the ASCII digit byte `b`.
pub open spec fn digit_value(b: u8) -> u8
    recommends
        is_sdm_digit(b),
{
    (b - ASCII_ZERO) as u8
}

/// True when the first `n` bytes of `s` are all ASCII decimal digits.
pub open spec fn all_digits_to(s: Seq<u8>, n: int) -> bool
    recommends
        n <= s.len(),
{
    forall|i: int| 0 <= i < n ==> is_sdm_digit(#[trigger] s[i])
}

/// True when `s` is a well-formed SDM digit dump: exactly 81 ASCII decimal
/// digit bytes and nothing else.
pub open spec fn valid_sdm(s: Seq<u8>) -> bool {
    s.len() == 81 && all_digits_to(s, 81)
}

/// The display character for a placed digit value `1` through `9`.
pub open spec fn digit_char(v: u8) -> char
    recommends
        1 <= v <= 9,
{
    if v == 1 {
        '1'
    } else if v == 2 {
        '2'
    } else if v == 3 {
        '3'
    } else if v == 4 {
        '4'
    } else if v == 5 {
        '5'
    } else if v == 6 {
        '6'
    } else if v == 7 {
        '7'
    } else if v == 8 {
        '8'
    } else {
        '9'
    }
}

/// Stores game board information.
#[derive(Debug)]
pub struct Gameboard {
    /// Stores the content of the cells, row-major: `cells[row][column]`.
    /// `0` is an empty cell; `1` through `9` are placed digits.
    pub cells: [[u8; 9]; 9],
}

impl Gameboard {
    /// The value stored at column `x`, row `y`.
    pub open spec fn cell(self, x: int, y: int) -> u8
        recommends
            0 <= x < 9,
            0 <= y < 9,
    {
        self.cells[y][x]
    }

    /// True when every cell of the board is empty.
    pub open spec fn is_all_empty(self) -> bool {
        forall|x: int, y: int| 0 <= x < 9 && 0 <= y < 9 ==> #[trigger] self.cell(x, y) == 0
    }

    /// Creates a new game board.
    pub fn new() -> (board: Gameboard)
        ensures
            board.is_all_empty(),
    {
        Gameboard { cells: [[0; 9]; 9] }
    }

    /// Load a new game board from the textual content of an SDM file.
    ///
    /// The content must be exactly 81 decimal digit characters, scanned in
    /// row-major order: the first 9 digits fill row 0, the next 9 fill
    /// row 1, and so on. `'0'` denotes an empty cell.
    pub fn load_sdm(data: &[u8]) -> (result: Result<Gameboard, SdmError>)
        ensures
            result is Ok <==> valid_sdm(data@),
            match result {
                Ok(board) => forall|x: int, y: int|
                    0 <= x < 9 && 0 <= y < 9 ==> #[trigger] board.cell(x, y) == digit_value(
                        data@[y * 9 + x],
                    ),
                Err(e) => match e {
                    SdmError::InvalidDigit { pos } => pos < 81 && pos < data@.len()
                        && !is_sdm_digit(data@[pos as int]) && all_digits_to(data@, pos as int),
                    SdmError::Truncated { len } => len == data@.len() && len < 81 && all_digits_to(
                        data@,
                        len as int,
                    ),
                    SdmError::TooLong { len } => len == data@.len() && len > 81 && all_digits_to(
                        data@,
                        81,
                    ),
                },
            },
    {
        let n = data.len();
        let mut cells: [[u8; 9]; 9] = [[0; 9]; 9];
        let mut i: usize = 0;
        while i < 81
            invariant
                i <= 81,
                i <= n,
                n == data@.len(),
                all_digits_to(data@, i as int),
                forall|x: int, y: int|
                    0 <= x < 9 && 0 <= y < 9 && y * 9 + x < i ==> #[trigger] cells[y][x]
                        == digit_value(data@[y * 9 + x]),
            decreases 81 - i,
        {
            if i >= n {
                return Err(SdmError::Truncated { len: n });
            }
            let b = data[i];
            if b < ASCII_ZERO || b > ASCII_NINE {
                return Err(SdmError::InvalidDigit { pos: i });
            }
            let row = i / 9;
            let col = i % 9;
            cells[row][col] = b - ASCII_ZERO;
            i = i + 1;
        }
        if n > 81 {
            return Err(SdmError::TooLong { len: n });
        }
        Ok(Gameboard { cells })
    }

    /// The display character stored at column `x`, row `y`: the digit
    /// character for a value `1` through `9`, and nothing for any other value.
    pub open spec fn display(self, x: int, y: int) -> Option<char>
        recommends
            0 <= x < 9,
            0 <= y < 9,
    {
        if 1 <= self.cell(x, y) <= 9 {
            Some(digit_char(self.cell(x, y)))
        } else {
            None
        }
    }

    /// Gets the character at cell location `[column, row]`.
    pub fn char(&self, ind: [usize; 2]) -> (c: Option<char>)
        requires
            ind[0] < 9,
            ind[1] < 9,
        ensures
            c == self.display(ind[0] as int, ind[1] as int),
    {
        Some(
            match self.cells[ind[1]][ind[0]] {
                1 => '1',
                2 => '2',
                3 => '3',
                4 => '4',
                5 => '5',
                6 => '6',
                7 => '7',
                8 => '8',
                9 => '9',
                _ => return None,
            },
        )
    }

    /// Set cell value at `[column, row]`; every other cell is unchanged.
    pub fn set(&mut self, ind: [usize; 2], val: u8)
        requires
            ind[0] < 9,
            ind[1] < 9,
        ensures
            final(self).cell(ind[0] as int, ind[1] as int) == val,
            forall|x: int, y: int|
                0 <= x < 9 && 0 <= y < 9 && !(x == ind[0] && y == ind[1])
                    ==> final(self).cell(x, y) == old(self).cell(x, y),
    {
        self.cells[ind[1]][ind[0]] = val;
    }
}

impl PartialEq for Gameboard {
    /// Two boards are equal when every one of their 81 cells agrees.
    fn eq(&self, other: &Gameboard) -> (r: bool) {
        let mut y: usize = 0;
        while y < 9
            invariant
                y <= 9,
                forall|xx: int, yy: int|
                    0 <= xx < 9 && 0 <= yy < y ==> self.cell(xx, yy) == other.cell(xx, yy),
            decreases 9 - y,
        {
            let mut x: usize = 0;
            while x < 9
                invariant
                    x <= 9,
                    y < 9,
                    forall|xx: int, yy: int|
                        0 <= xx < 9 && 0 <= yy < y ==> self.cell(xx, yy) == other.cell(xx, yy),
                    forall|xx: int| 0 <= xx < x ==> self.cell(xx, y as int) == other.cell(
                        xx,
                        y as int,
                    ),
                decreases 9 - x,
            {
                if self.cells[y][x] != other.cells[y][x] {
                    assert(self.cell(x as int, y as int) != other.cell(x as int, y as int));
                    return false;
                }
                x = x + 1;
            }
            y = y + 1;
        }
        true
    }
}

impl vstd::std_specs::cmp::PartialEqSpecImpl for Gameboard {
    open spec fn obeys_eq_spec() -> bool {
        true
    }

    open spec fn eq_spec(&self, other: &Gameboard) -> bool {
        forall|x: int, y: int| 0 <= x < 9 && 0 <= y < 9 ==> self.cell(x, y) == other.cell(x, y)
    }
}

/// On a board whose cells are all empty, the display accessor shows no value
/// at any coordinate.
pub proof fn lemma_empty_board_displays_nothing(board: Gameboard, x: int, y: int)
    requires
        board.is_all_empty(),
        0 <= x < 9,
        0 <= y < 9,
    ensures
        board.display(x, y) is None,
{
}

/// Writing a value and reading back the display character at the same
/// coordinate round-trips: a board that stores `v` at column `x`, row `y`
/// displays the digit character for `v` there if `1 <= v <= 9`, and no value
/// if `v` is `0`.
pub proof fn lemma_write_read_round_trip(board: Gameboard, x: int, y: int, v: u8)
    requires
        0 <= x < 9,
        0 <= y < 9,
        board.cell(x, y) == v,
    ensures
        1 <= v <= 9 ==> board.display(x, y) == Some(digit_char(v)),
        v == 0 ==> board.display(x, y) is None,
{
}

} // verus!
