//! The tables that classification and scanning read: the line-breaking property of the
//! Unicode Character Database, version 15.0, as a page index over pages of class numbers,
//! and the pair table of the break automaton.
//!
//! The tables are data, not code. Each part keeps its entries to itself and answers
//! through one spec function and one executable function that agree.

use vstd::prelude::*;

pub mod bank0;
pub mod bank1;
pub mod bank2;
pub mod bank3;
pub mod bank4;
pub mod bank5;
pub mod bank6;
pub mod bank7;
pub mod bank8;
pub mod bank9;
pub mod index;
pub mod pairs;

verus! {

/// Number of line-breaking classes.
pub const NUM_CLASSES: u8 = 43;

/// Number of pages of class numbers, over all banks.
pub const NUM_PAGES: usize = 152;

/// Number of pages in a full bank.
pub const BANK_LEN: usize = 16;

/// Flag of a page index entry that holds the one class of a whole block.
pub const UNIFORM_PAGE: u16 = 0x8000;

/// Bit of a pair table entry: the text may break in front of the code point that was read.
pub const ALLOWED_BREAK_BIT: u8 = 0x80;

/// Bit of a pair table entry: the text must break in front of the code point that was read.
pub const MANDATORY_BREAK_BIT: u8 = 0x40;

/// Column of the pair table for the end of the text.
pub const END_OF_TEXT: u8 = 43;

/// Row of the pair table for the start of the text.
pub const START_OF_TEXT: u8 = 44;

/// The class number that page `page` lists for the code point whose low byte is `low`.
/// The pages stand in banks of `BANK_LEN`; the last bank is not full.
pub open spec fn page_code_at(page: int, low: int) -> u8
    recommends
        0 <= page < NUM_PAGES,
        0 <= low < 256,
{
    let bank = page / (BANK_LEN as int);
    let slot = page % (BANK_LEN as int);
    if bank == 0 {
        bank0::code_at(slot, low)
    } else if bank == 1 {
        bank1::code_at(slot, low)
    } else if bank == 2 {
        bank2::code_at(slot, low)
    } else if bank == 3 {
        bank3::code_at(slot, low)
    } else if bank == 4 {
        bank4::code_at(slot, low)
    } else if bank == 5 {
        bank5::code_at(slot, low)
    } else if bank == 6 {
        bank6::code_at(slot, low)
    } else if bank == 7 {
        bank7::code_at(slot, low)
    } else if bank == 8 {
        bank8::code_at(slot, low)
    } else {
        bank9::code_at(slot, low)
    }
}

/// Reads one class number from the bank that holds the page.
pub fn page_code(page: usize, low: usize) -> (code: u8)
    requires
        page < NUM_PAGES,
        low < 256,
    ensures
        code == page_code_at(page as int, low as int),
{
    match page / BANK_LEN {
        0 => bank0::code(page % BANK_LEN, low),
        1 => bank1::code(page % BANK_LEN, low),
        2 => bank2::code(page % BANK_LEN, low),
        3 => bank3::code(page % BANK_LEN, low),
        4 => bank4::code(page % BANK_LEN, low),
        5 => bank5::code(page % BANK_LEN, low),
        6 => bank6::code(page % BANK_LEN, low),
        7 => bank7::code(page % BANK_LEN, low),
        8 => bank8::code(page % BANK_LEN, low),
        _ => bank9::code(page % BANK_LEN, low),
    }
}

} // verus!
