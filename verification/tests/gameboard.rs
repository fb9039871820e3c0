//! Tests for the game board and its SDM loading.

use sudoku_board::gameboard::Gameboard;
use sudoku_board::gameboard::SdmError;

/// The 81-digit dump of a sample puzzle, row-major.
const PUZZLE: &[u8; 81] =
    b"016400000200009000400000062070230100100000003003087040960000005000800007000006820";

#[test]
fn load_sdm() {
    let got = Gameboard::load_sdm(PUZZLE).unwrap();
    let want = Gameboard {
        cells: [
            [0, 1, 6, 4, 0, 0, 0, 0, 0],
            [2, 0, 0, 0, 0, 9, 0, 0, 0],
            [4, 0, 0, 0, 0, 0, 0, 6, 2],
            [0, 7, 0, 2, 3, 0, 1, 0, 0],
            [1, 0, 0, 0, 0, 0, 0, 0, 3],
            [0, 0, 3, 0, 8, 7, 0, 4, 0],
            [9, 6, 0, 0, 0, 0, 0, 0, 5],
            [0, 0, 0, 8, 0, 0, 0, 0, 7],
            [0, 0, 0, 0, 0, 6, 8, 2, 0],
        ],
    };
    assert_eq!(got, want);
}

#[test]
fn new_board_is_empty() {
    let board = Gameboard::new();
    for y in 0..9 {
        for x in 0..9 {
            assert_eq!(board.cells[y][x], 0);
            assert_eq!(board.char([x, y]), None);
        }
    }
}

#[test]
fn write_read_round_trip() {
    let mut board = Gameboard::new();
    for y in 0..9 {
        for x in 0..9 {
            for v in 1..10u8 {
                board.set([x, y], v);
                assert_eq!(board.char([x, y]), Some((b'0' + v) as char));
            }
            board.set([x, y], 0);
            assert_eq!(board.char([x, y]), None);
        }
    }
}

#[test]
fn load_rejects_truncated_input() {
    let eighty = &PUZZLE[..80];
    assert_eq!(Gameboard::load_sdm(eighty), Err(SdmError::Truncated { len: 80 }));
    assert_eq!(Gameboard::load_sdm(b""), Err(SdmError::Truncated { len: 0 }));
}

#[test]
fn load_rejects_non_digit() {
    let mut with_letter = *PUZZLE;
    with_letter[10] = b'a';
    assert_eq!(
        Gameboard::load_sdm(&with_letter),
        Err(SdmError::InvalidDigit { pos: 10 })
    );

    let mut with_punctuation = *PUZZLE;
    with_punctuation[0] = b'.';
    assert_eq!(
        Gameboard::load_sdm(&with_punctuation),
        Err(SdmError::InvalidDigit { pos: 0 })
    );

    let mut with_newline = *PUZZLE;
    with_newline[9] = b'\n';
    assert_eq!(
        Gameboard::load_sdm(&with_newline),
        Err(SdmError::InvalidDigit { pos: 9 })
    );
}

#[test]
fn load_rejects_overlong_input() {
    let mut overlong = PUZZLE.to_vec();
    overlong.push(b'1');
    assert_eq!(
        Gameboard::load_sdm(&overlong),
        Err(SdmError::TooLong { len: 82 })
    );
}

#[test]
fn coordinate_convention() {
    let mut board = Gameboard::new();
    // Write at column 3, row 5: stored row-major at cells[5][3].
    board.set([3, 5], 4);
    assert_eq!(board.char([3, 5]), Some('4'));
    assert_eq!(board.cells[5][3], 4);
    // The transposed coordinate is a different, still-empty cell.
    assert_eq!(board.char([5, 3]), None);
    assert_eq!(board.cells[3][5], 0);
}

#[test]
fn set_leaves_other_cells_alone() {
    let mut board = Gameboard::load_sdm(PUZZLE).unwrap();
    board.set([0, 0], 5);
    assert_eq!(board.cells[0][0], 5);
    assert_eq!(board.cells[0][1], 1);
    assert_eq!(board.cells[1][0], 2);
    let reloaded = Gameboard::load_sdm(PUZZLE).unwrap();
    assert_eq!(board.cells[8], reloaded.cells[8]);
}

#[test]
fn boards_compare_by_cells() {
    let a = Gameboard::new();
    let mut b = Gameboard::new();
    assert_eq!(a, b);
    b.set([8, 8], 9);
    assert_ne!(a, b);
}
