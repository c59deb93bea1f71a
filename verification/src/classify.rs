//! Classification: from a code point to its line-breaking class.

use vstd::prelude::*;

use crate::class::BreakClass;
use crate::tables::index;
use crate::tables::page_code;
use crate::tables::page_code_at;
use crate::tables::NUM_CLASSES;
use crate::tables::NUM_PAGES;
use crate::tables::UNIFORM_PAGE;

verus! {

/// The class that a page index entry gives to the code point whose low byte is `low`.
///
/// An entry at or above `UNIFORM_PAGE` holds a class number in what exceeds the flag, and
/// that class is the class of every code point of the block. Any other entry names a page,
/// and the page lists the class number of each code point. An entry that holds no class
/// number and names no page gives `Unknown`.
pub open spec fn class_by_entry(entry: u16, low: int) -> BreakClass {
    if entry >= UNIFORM_PAGE {
        if entry - UNIFORM_PAGE < NUM_CLASSES {
            BreakClass::of_code((entry - UNIFORM_PAGE) as u8)
        } else {
            BreakClass::Unknown
        }
    } else if entry < NUM_PAGES {
        BreakClass::of_code(page_code_at(entry as int, low))
    } else {
        BreakClass::Unknown
    }
}

/// The line-breaking class of a code point: what its block's entry in the page index
/// gives it, and `Unknown` for a code point above the blocks that the index covers.
pub open spec fn break_class(codepoint: u32) -> BreakClass {
    if codepoint / 256 < index::NUM_BLOCKS {
        class_by_entry(index::entry_at(codepoint as int / 256), codepoint as int % 256)
    } else {
        BreakClass::Unknown
    }
}

/// Returns the line-breaking class of `codepoint`.
///
/// Every 32-bit value has a class, surrogates and values above the code space included,
/// and the class depends on nothing but the value.
pub fn break_property(codepoint: u32) -> (class: BreakClass)
    ensures
        class == break_class(codepoint),
{
    let block = (codepoint >> 8) as usize;
    let low = (codepoint & 0xFF) as usize;
    assert(codepoint >> 8 == codepoint / 256 && codepoint & 0xFF == codepoint % 256)
        by (bit_vector);
    if block >= index::NUM_BLOCKS {
        return BreakClass::Unknown;
    }
    let entry = index::entry(block);
    if entry & UNIFORM_PAGE != 0 {
        let code = entry & !UNIFORM_PAGE;
        assert(entry & 0x8000 != 0 ==> entry >= 0x8000 && entry & !0x8000u16 == entry - 0x8000)
            by (bit_vector);
        if code < NUM_CLASSES as u16 {
            BreakClass::from_code(code as u8)
        } else {
            BreakClass::Unknown
        }
    } else {
        assert(entry & 0x8000 == 0 ==> entry < 0x8000) by (bit_vector);
        let page = entry as usize;
        if page < NUM_PAGES {
            BreakClass::from_code(page_code(page, low))
        } else {
            BreakClass::Unknown
        }
    }
}

} // verus!
