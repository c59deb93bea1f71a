//! The pair table of the break automaton.
//!
//! A row is a state of the automaton, a column a class, or the end of the text. An entry
//! holds the state that follows, under two bits that say whether the text may, or must,
//! break in front of the code point that was read.

use vstd::prelude::*;

verus! {

const PAIR_TABLE: [[u8; 44]; 53] = [
    [
        192, 193, 194, 221, 196, 221, 198, 199, 200, 201, 221, 203, 204, 205, 206, 207, 208, 209, 210, 211, 212, 213,
        214, 215, 216, 217, 218, 219, 221, 221, 212, 223, 224, 225, 226, 227, 228, 229, 230, 231, 232, 221, 221, 235,
    ],
    [
        192, 193, 2, 221, 196, 221, 198, 199, 200, 201, 221, 203, 204, 205, 206, 207, 208, 209, 210, 211, 212, 213,
        214, 215, 216, 217, 218, 219, 221, 221, 212, 223, 224, 225, 226, 227, 228, 229, 230, 231, 232, 221, 221, 235,
    ],
    [
        192, 193, 194, 221, 196, 221, 198, 199, 200, 201, 221, 203, 204, 205, 206, 207, 208, 209, 210, 211, 212, 213,
        214, 215, 216, 217, 218, 219, 221, 221, 212, 223, 224, 225, 226, 227, 228, 229, 230, 231, 232, 221, 221, 235,
    ],
    [
        0, 1, 2, 3, 4, 29, 6, 7, 8, 9, 3, 139, 12, 141, 14, 143, 16, 17, 18, 19, 20, 21,
        22, 23, 24, 25, 26, 27, 29, 29, 20, 159, 160, 161, 162, 35, 164, 165, 166, 167, 168, 29, 29, 235,
    ],
    [
        192, 193, 194, 221, 196, 221, 198, 199, 200, 201, 221, 203, 204, 205, 206, 207, 208, 209, 210, 211, 212, 213,
        214, 215, 216, 217, 218, 219, 221, 221, 212, 223, 224, 225, 226, 227, 228, 229, 230, 231, 232, 221, 221, 235,
    ],
    [
        0, 1, 2, 29, 4, 29, 6, 7, 8, 9, 29, 139, 12, 141, 14, 143, 16, 17, 18, 19, 20, 21,
        22, 23, 24, 25, 26, 27, 29, 29, 20, 159, 160, 161, 162, 35, 164, 165, 166, 167, 168, 29, 29, 235,
    ],
    [
        0, 1, 2, 6, 4, 29, 6, 7, 8, 9, 6, 11, 12, 13, 14, 15, 16, 17, 18, 19, 20, 21,
        22, 23, 24, 25, 26, 27, 29, 29, 20, 31, 32, 33, 34, 35, 36, 37, 38, 39, 40, 29, 29, 235,
    ],
    [
        0, 1, 2, 157, 4, 157, 134, 7, 136, 45, 157, 139, 140, 141, 142, 143, 144, 145, 146, 147, 148, 149,
        150, 151, 152, 153, 154, 155, 157, 157, 148, 159, 160, 161, 162, 163, 164, 165, 166, 167, 168, 157, 157, 235,
    ],
    [
        0, 1, 2, 8, 4, 29, 6, 7, 8, 9, 8, 11, 12, 13, 14, 15, 16, 17, 18, 19, 20, 21,
        22, 23, 24, 25, 26, 27, 29, 29, 20, 31, 32, 33, 34, 35, 36, 37, 38, 39, 40, 29, 29, 235,
    ],
    [
        0, 1, 2, 157, 4, 157, 6, 7, 136, 9, 157, 139, 140, 141, 142, 143, 16, 17, 18, 147, 148, 149,
        150, 23, 152, 153, 154, 27, 157, 157, 148, 159, 160, 161, 162, 163, 164, 165, 166, 167, 168, 157, 157, 235,
    ],
    [
        0, 1, 2, 10, 4, 29, 6, 7, 8, 9, 10, 139, 12, 141, 14, 143, 16, 17, 18, 19, 20, 21,
        22, 23, 24, 25, 26, 27, 29, 29, 20, 159, 160, 161, 162, 35, 164, 165, 166, 167, 168, 29, 29, 235,
    ],
    [
        0, 1, 2, 11, 4, 157, 6, 7, 8, 50, 11, 11, 12, 141, 14, 143, 16, 17, 18, 19, 20, 149,
        22, 23, 152, 153, 154, 27, 157, 157, 20, 159, 160, 161, 162, 163, 164, 165, 166, 167, 168, 157, 157, 235,
    ],
    [
        0, 1, 2, 12, 4, 157, 6, 7, 136, 9, 12, 139, 12, 141, 14, 143, 16, 17, 18, 19, 20, 149,
        22, 23, 152, 153, 154, 27, 157, 157, 20, 159, 160, 161, 162, 163, 164, 165, 166, 167, 168, 157, 157, 235,
    ],
    [
        0, 1, 2, 13, 4, 29, 6, 7, 8, 9, 13, 11, 12, 13, 14, 143, 16, 17, 18, 19, 20, 21,
        22, 23, 24, 25, 26, 27, 29, 29, 20, 31, 32, 33, 34, 35, 36, 37, 38, 39, 40, 29, 29, 235,
    ],
    [
        0, 1, 2, 14, 4, 157, 6, 7, 136, 9, 14, 139, 12, 141, 14, 143, 16, 17, 18, 19, 20, 149,
        22, 23, 24, 153, 154, 27, 157, 157, 20, 159, 160, 161, 162, 163, 164, 165, 166, 167, 168, 157, 157, 235,
    ],
    [
        0, 1, 2, 15, 4, 157, 6, 7, 8, 9, 15, 139, 140, 141, 142, 143, 16, 17, 18, 147, 148, 149,
        22, 23, 152, 153, 154, 27, 157, 157, 148, 159, 160, 161, 162, 163, 164, 165, 166, 167, 168, 157, 157, 235,
    ],
    [
        0, 1, 2, 16, 4, 157, 6, 7, 8, 48, 16, 139, 12, 141, 14, 143, 16, 17, 18, 19, 20, 149,
        22, 23, 152, 25, 26, 27, 157, 157, 20, 159, 160, 161, 162, 163, 164, 165, 166, 167, 168, 157, 157, 235,
    ],
    [
        0, 1, 2, 17, 4, 29, 6, 7, 8, 49, 17, 139, 12, 141, 14, 143, 16, 17, 18, 19, 20, 149,
        22, 23, 24, 25, 26, 27, 29, 29, 20, 159, 160, 161, 162, 35, 164, 165, 166, 167, 168, 29, 29, 235,
    ],
    [
        0, 1, 2, 18, 4, 157, 6, 7, 8, 9, 18, 139, 12, 141, 14, 143, 16, 17, 18, 19, 20, 149,
        22, 23, 152, 153, 154, 27, 157, 157, 20, 159, 160, 161, 162, 163, 164, 165, 166, 167, 168, 157, 157, 235,
    ],
    [
        0, 1, 2, 19, 4, 157, 6, 7, 8, 9, 19, 139, 12, 141, 14, 143, 16, 17, 18, 19, 20, 149,
        22, 23, 152, 153, 154, 27, 157, 157, 20, 159, 160, 161, 162, 163, 164, 165, 166, 167, 168, 157, 157, 235,
    ],
    [
        0, 1, 2, 20, 4, 157, 6, 7, 8, 9, 20, 139, 12, 141, 14, 143, 16, 17, 18, 19, 20, 149,
        22, 23, 152, 153, 154, 27, 157, 157, 20, 159, 160, 161, 162, 163, 164, 165, 166, 167, 168, 157, 157, 235,
    ],
    [
        0, 1, 2, 21, 4, 29, 6, 7, 8, 46, 21, 11, 12, 13, 14, 15, 16, 17, 18, 19, 20, 21,
        22, 23, 24, 25, 26, 27, 29, 29, 20, 31, 32, 33, 34, 35, 36, 37, 38, 39, 40, 29, 29, 235,
    ],
    [
        0, 1, 2, 22, 4, 29, 6, 7, 8, 47, 22, 11, 12, 13, 14, 15, 16, 17, 18, 19, 20, 21,
        22, 23, 24, 25, 26, 27, 29, 29, 20, 31, 32, 33, 34, 35, 36, 37, 38, 39, 40, 29, 29, 235,
    ],
    [
        0, 1, 2, 23, 4, 29, 6, 7, 8, 9, 23, 139, 12, 141, 14, 143, 16, 17, 18, 19, 20, 149,
        22, 23, 24, 153, 154, 27, 29, 29, 20, 159, 160, 161, 162, 35, 164, 165, 166, 167, 168, 29, 29, 235,
    ],
    [
        0, 1, 2, 24, 4, 29, 6, 7, 8, 9, 24, 139, 12, 141, 14, 143, 16, 17, 18, 19, 20, 21,
        22, 23, 24, 25, 26, 27, 29, 29, 20, 159, 160, 161, 162, 35, 164, 165, 166, 167, 168, 29, 29, 235,
    ],
    [
        0, 1, 2, 25, 4, 29, 6, 7, 8, 9, 25, 139, 12, 141, 14, 143, 16, 17, 18, 19, 20, 21,
        22, 23, 24, 153, 154, 27, 29, 29, 20, 159, 160, 161, 162, 35, 164, 165, 166, 167, 168, 29, 29, 235,
    ],
    [
        0, 1, 2, 26, 4, 29, 6, 7, 8, 9, 26, 139, 12, 141, 14, 143, 16, 17, 18, 19, 20, 21,
        22, 23, 24, 153, 154, 27, 29, 29, 20, 31, 32, 33, 34, 35, 36, 37, 38, 39, 168, 29, 29, 235,
    ],
    [
        0, 1, 2, 27, 4, 157, 6, 7, 8, 9, 27, 139, 12, 141, 14, 143, 16, 17, 18, 19, 20, 149,
        22, 23, 24, 153, 154, 27, 157, 157, 20, 159, 160, 161, 162, 35, 164, 165, 166, 167, 168, 157, 157, 235,
    ],
    [
        0, 1, 2, 29, 4, 29, 6, 7, 8, 9, 29, 139, 12, 141, 14, 143, 16, 17, 18, 19, 20, 21,
        22, 23, 24, 25, 26, 27, 29, 29, 20, 159, 160, 161, 162, 35, 164, 165, 166, 167, 168, 29, 29, 235,
    ],
    [
        0, 1, 2, 29, 4, 29, 6, 7, 8, 9, 29, 139, 12, 141, 14, 143, 16, 17, 18, 19, 20, 21,
        22, 23, 24, 25, 26, 27, 29, 29, 20, 159, 160, 161, 162, 35, 164, 165, 166, 167, 168, 29, 29, 235,
    ],
    [
        0, 1, 2, 20, 4, 157, 6, 7, 8, 9, 20, 139, 12, 141, 14, 143, 16, 17, 18, 19, 20, 149,
        22, 23, 152, 153, 154, 27, 157, 157, 20, 159, 160, 161, 162, 163, 164, 165, 166, 167, 168, 157, 157, 235,
    ],
    [
        0, 1, 2, 31, 4, 157, 6, 7, 8, 9, 31, 139, 12, 141, 14, 143, 16, 17, 18, 19, 20, 149,
        22, 23, 152, 25, 154, 27, 157, 157, 20, 159, 32, 161, 162, 163, 164, 165, 166, 167, 168, 157, 157, 235,
    ],
    [
        0, 1, 2, 32, 4, 157, 6, 7, 8, 9, 32, 139, 12, 141, 14, 143, 16, 17, 18, 19, 20, 149,
        22, 23, 152, 25, 154, 27, 157, 157, 20, 159, 160, 161, 162, 163, 164, 165, 166, 167, 168, 157, 157, 235,
    ],
    [
        0, 1, 2, 33, 4, 157, 6, 7, 8, 9, 33, 139, 12, 141, 14, 143, 16, 17, 18, 19, 20, 149,
        22, 23, 152, 25, 154, 27, 157, 157, 20, 159, 160, 161, 162, 163, 164, 165, 38, 39, 168, 157, 157, 235,
    ],
    [
        0, 1, 2, 34, 4, 157, 6, 7, 8, 9, 34, 139, 12, 141, 14, 143, 16, 17, 18, 19, 20, 149,
        22, 23, 152, 25, 154, 27, 157, 157, 20, 159, 160, 161, 162, 163, 164, 165, 166, 39, 168, 157, 157, 235,
    ],
    [
        0, 1, 2, 35, 4, 29, 6, 7, 8, 9, 35, 139, 51, 141, 51, 143, 16, 17, 18, 19, 20, 21,
        22, 23, 24, 25, 26, 27, 29, 29, 20, 159, 160, 161, 162, 35, 164, 165, 166, 167, 168, 29, 29, 235,
    ],
    [
        0, 1, 2, 36, 4, 157, 6, 7, 8, 9, 36, 139, 12, 141, 14, 143, 16, 17, 18, 19, 20, 149,
        22, 23, 152, 25, 154, 27, 157, 157, 20, 159, 160, 161, 162, 163, 164, 165, 166, 167, 168, 157, 157, 235,
    ],
    [
        0, 1, 2, 37, 4, 157, 6, 7, 8, 9, 37, 139, 12, 141, 14, 143, 16, 17, 18, 19, 20, 149,
        22, 23, 152, 25, 154, 27, 157, 157, 20, 159, 160, 33, 34, 163, 164, 37, 38, 167, 168, 157, 157, 235,
    ],
    [
        0, 1, 2, 38, 4, 157, 6, 7, 8, 9, 38, 139, 12, 141, 14, 143, 16, 17, 18, 19, 20, 149,
        22, 23, 152, 25, 154, 27, 157, 157, 20, 159, 160, 161, 162, 163, 164, 165, 38, 39, 168, 157, 157, 235,
    ],
    [
        0, 1, 2, 39, 4, 157, 6, 7, 8, 9, 39, 139, 12, 141, 14, 143, 16, 17, 18, 19, 20, 149,
        22, 23, 152, 25, 154, 27, 157, 157, 20, 159, 160, 161, 162, 163, 164, 165, 166, 39, 168, 157, 157, 235,
    ],
    [
        0, 1, 2, 40, 4, 157, 6, 7, 8, 9, 40, 139, 12, 141, 14, 143, 16, 17, 18, 19, 20, 149,
        22, 23, 152, 153, 154, 27, 157, 157, 20, 159, 160, 161, 162, 163, 164, 165, 166, 167, 52, 157, 157, 235,
    ],
    [
        0, 1, 2, 29, 4, 29, 6, 7, 8, 9, 29, 139, 12, 141, 14, 143, 16, 17, 18, 19, 20, 21,
        22, 23, 24, 25, 26, 27, 29, 29, 20, 159, 160, 161, 162, 35, 164, 165, 166, 167, 168, 29, 29, 235,
    ],
    [
        0, 1, 2, 29, 4, 29, 6, 7, 8, 9, 29, 139, 12, 141, 14, 143, 16, 17, 18, 19, 20, 21,
        22, 23, 24, 25, 26, 27, 29, 29, 20, 159, 160, 161, 162, 35, 164, 165, 166, 167, 168, 29, 29, 235,
    ],
    [
        0, 1, 2, 157, 4, 157, 6, 7, 136, 9, 157, 139, 12, 141, 14, 143, 16, 17, 18, 19, 20, 149,
        22, 23, 152, 153, 154, 27, 157, 157, 20, 159, 160, 161, 162, 163, 164, 165, 166, 167, 168, 157, 157, 235,
    ],
    [
        0, 1, 2, 29, 4, 29, 6, 7, 8, 9, 29, 11, 12, 13, 14, 15, 16, 17, 18, 19, 20, 21,
        22, 23, 24, 25, 26, 27, 29, 29, 20, 31, 32, 33, 34, 35, 36, 37, 38, 39, 40, 29, 29, 43,
    ],
    [
        0, 1, 2, 157, 4, 157, 134, 7, 136, 45, 157, 139, 140, 141, 142, 143, 144, 145, 146, 147, 148, 149,
        150, 151, 152, 153, 154, 155, 157, 157, 148, 159, 160, 161, 162, 163, 164, 165, 166, 167, 168, 157, 157, 235,
    ],
    [
        0, 1, 2, 29, 4, 29, 6, 7, 8, 46, 29, 11, 12, 13, 14, 15, 16, 17, 18, 19, 20, 21,
        22, 23, 24, 25, 26, 27, 29, 29, 20, 31, 32, 33, 34, 35, 36, 37, 38, 39, 40, 29, 29, 235,
    ],
    [
        0, 1, 2, 157, 4, 157, 6, 7, 136, 47, 157, 139, 140, 141, 142, 143, 16, 17, 18, 147, 148, 21,
        150, 23, 152, 153, 154, 27, 157, 157, 148, 159, 160, 161, 162, 163, 164, 165, 166, 167, 168, 157, 157, 235,
    ],
    [
        0, 1, 2, 157, 4, 157, 6, 7, 136, 48, 157, 139, 140, 141, 142, 143, 16, 17, 18, 147, 20, 149,
        150, 23, 152, 153, 154, 27, 157, 157, 20, 159, 160, 161, 162, 163, 164, 165, 166, 167, 168, 157, 157, 235,
    ],
    [
        0, 1, 2, 157, 4, 157, 6, 7, 136, 49, 157, 139, 140, 141, 142, 143, 16, 17, 18, 147, 20, 149,
        150, 23, 152, 153, 154, 27, 157, 157, 20, 159, 160, 161, 162, 163, 164, 165, 166, 167, 168, 157, 157, 235,
    ],
    [
        0, 1, 2, 157, 4, 157, 6, 7, 136, 50, 157, 11, 140, 141, 142, 143, 16, 17, 18, 147, 148, 149,
        150, 23, 152, 153, 154, 27, 157, 157, 148, 159, 160, 161, 162, 163, 164, 165, 166, 167, 168, 157, 157, 235,
    ],
    [
        0, 1, 2, 51, 4, 29, 6, 7, 8, 9, 51, 11, 12, 13, 14, 143, 16, 17, 18, 19, 20, 21,
        22, 23, 24, 25, 26, 27, 29, 29, 20, 31, 32, 33, 34, 35, 36, 37, 38, 39, 40, 29, 29, 235,
    ],
    [
        0, 1, 2, 52, 4, 157, 6, 7, 8, 9, 52, 139, 12, 141, 14, 143, 16, 17, 18, 19, 20, 149,
        22, 23, 152, 153, 154, 27, 157, 157, 20, 159, 160, 161, 162, 163, 164, 165, 166, 167, 168, 157, 157, 235,
    ],
];

/// Number of rows of the pair table: the states of the automaton.
pub const NUM_STATES: usize = 53;

/// Number of columns of the pair table: the classes, then the end of the text.
pub const NUM_COLUMNS: usize = 44;

/// The entry for `state` and `column`.
pub closed spec fn value_at(state: int, column: int) -> u8
    recommends
        0 <= state < NUM_STATES,
        0 <= column < NUM_COLUMNS,
{
    PAIR_TABLE[state][column]
}

/// Reads one entry.
pub fn value(state: u8, column: u8) -> (value: u8)
    requires
        state < NUM_STATES,
        column < NUM_COLUMNS,
    ensures
        value == value_at(state as int, column as int),
{
    PAIR_TABLE[state as usize][column as usize]
}

/// The first `columns` entries of `row` all lead to a state of the automaton.
spec fn row_closed(row: [u8; 44], columns: nat) -> bool
    decreases columns,
{
    columns == 0 || (row[columns - 1] % 64 < NUM_STATES && row_closed(row, (columns - 1) as nat))
}

/// The first `rows` rows of the table all lead to states of the automaton.
spec fn rows_closed(rows: nat) -> bool
    decreases rows,
{
    rows == 0 || (row_closed(PAIR_TABLE[rows - 1], 44) && rows_closed((rows - 1) as nat))
}

proof fn lemma_row_closed(row: [u8; 44], columns: nat, column: int)
    requires
        row_closed(row, columns),
        0 <= column < columns,
    ensures
        row[column] % 64 < NUM_STATES,
    decreases columns,
{
    if column < columns - 1 {
        lemma_row_closed(row, (columns - 1) as nat, column);
    }
}

proof fn lemma_rows_closed(rows: nat, state: int)
    requires
        rows_closed(rows),
        0 <= state < rows,
    ensures
        row_closed(PAIR_TABLE[state], 44),
    decreases rows,
{
    if state < rows - 1 {
        lemma_rows_closed((rows - 1) as nat, state);
    }
}

/// The automaton never leaves its states: below the two break bits, every entry of the
/// table is the number of one of its rows.
pub proof fn lemma_table_closed(state: int, column: int)
    requires
        0 <= state < NUM_STATES,
        0 <= column < NUM_COLUMNS,
    ensures
        value_at(state, column) % 64 < NUM_STATES,
{
    assert(rows_closed(53)) by {
        reveal_with_fuel(rows_closed, 54);
        reveal_with_fuel(row_closed, 45);
    }
    lemma_rows_closed(53, state);
    lemma_row_closed(PAIR_TABLE[state], 44, column);
}

} // verus!
