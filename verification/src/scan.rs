//! The break-opportunity scanner: one pass of the break automaton over a text.

use vstd::prelude::*;
use vstd::std_specs::iter::IteratorSpec;
use vstd::utf8::encode_scalar;
use vstd::utf8::encode_utf8;

use crate::class::BreakClass;
use crate::classify::break_class;
use crate::classify::break_property;
use crate::tables::pairs;
use crate::tables::ALLOWED_BREAK_BIT;
use crate::tables::END_OF_TEXT;
use crate::tables::MANDATORY_BREAK_BIT;
use crate::tables::START_OF_TEXT;

verus! {

/// How a text may be broken at a position.
#[derive(Clone, Copy, Debug, PartialEq, Eq, Structural)]
pub enum BreakOpportunity {
    /// A line must end here.
    Mandatory,
    /// A line may end here.
    Allowed,
}

/// The state of a scan between two code points.
#[derive(Clone, Copy, Debug, PartialEq, Eq, Structural)]
pub struct ScanState {
    /// The state of the automaton: a row of the pair table.
    pub state: u8,
    /// Whether the code point read last is a zero width joiner. The pair table does not
    /// know of it: a joiner holds back the break that the table allows after it.
    pub after_joiner: bool,
}

impl ScanState {
    /// The state is a row of the pair table.
    pub open spec fn wf(self) -> bool {
        self.state < pairs::NUM_STATES
    }

    /// The state in which every scan starts.
    pub open spec fn initial() -> ScanState {
        ScanState { state: START_OF_TEXT, after_joiner: false }
    }

    /// The state after reading a code point of the class with number `column`, or the end
    /// of the text: the pair table's entry without its two break bits, and whether the
    /// class is that of the zero width joiner.
    pub open spec fn after(self, column: u8) -> ScanState {
        ScanState {
            state: pairs::value_at(self.state as int, column as int) & !(ALLOWED_BREAK_BIT
                | MANDATORY_BREAK_BIT),
            after_joiner: column == BreakClass::ZeroWidthJoiner.code_of(),
        }
    }

    /// What the scan says of the position in front of a code point of the class with
    /// number `column`, read in this state. The pair table's entry allows a break by one
    /// bit and makes it mandatory by another. After a zero width joiner only a mandatory
    /// break stands.
    pub open spec fn verdict(self, column: u8) -> Option<BreakOpportunity> {
        let value = pairs::value_at(self.state as int, column as int);
        let is_mandatory = value & MANDATORY_BREAK_BIT != 0;
        let is_break = value & ALLOWED_BREAK_BIT != 0 && (!self.after_joiner || is_mandatory);
        if is_break {
            Some(
                if is_mandatory {
                    BreakOpportunity::Mandatory
                } else {
                    BreakOpportunity::Allowed
                },
            )
        } else {
            None
        }
    }

    /// Returns the state in which every scan starts.
    pub fn start() -> (start: ScanState)
        ensures
            start == ScanState::initial(),
            start.wf(),
    {
        ScanState { state: START_OF_TEXT, after_joiner: false }
    }

    /// Reads a code point of the class with number `column`, or the end of the text:
    /// returns the verdict on the position in front of it and moves to the next state.
    pub fn advance(&mut self, column: u8) -> (opportunity: Option<BreakOpportunity>)
        requires
            old(self).wf(),
            column < pairs::NUM_COLUMNS,
        ensures
            *final(self) == old(self).after(column),
            final(self).wf(),
            opportunity == old(self).verdict(column),
    {
        let value = pairs::value(self.state, column);
        let is_mandatory = value & MANDATORY_BREAK_BIT != 0;
        let is_break = value & ALLOWED_BREAK_BIT != 0 && (!self.after_joiner || is_mandatory);
        proof {
            pairs::lemma_table_closed(self.state as int, column as int);
            assert(value & !(0x80u8 | 0x40u8) == value % 64) by (bit_vector);
        }
        self.state = value & !(ALLOWED_BREAK_BIT | MANDATORY_BREAK_BIT);
        self.after_joiner = column == BreakClass::ZeroWidthJoiner.code();
        if is_break {
            Some(
                if is_mandatory {
                    BreakOpportunity::Mandatory
                } else {
                    BreakOpportunity::Allowed
                },
            )
        } else {
            None
        }
    }
}

/// The column of the pair table for position `i` of `text`: the class number of the code
/// point there and, behind the last code point, the column of the end of the text.
pub open spec fn column_at(text: Seq<char>, i: int) -> u8 {
    if 0 <= i < text.len() {
        break_class(text[i] as u32).code_of()
    } else {
        END_OF_TEXT
    }
}

/// The state of the scan of `text` when it has read the `i` code points in front of
/// position `i`.
pub open spec fn state_before(text: Seq<char>, i: int) -> ScanState
    decreases i,
{
    if i <= 0 {
        ScanState::initial()
    } else {
        state_before(text, i - 1).after(column_at(text, i - 1))
    }
}

/// The scan stays within the pair table: every state that it reaches is a row of it.
pub proof fn law_scan_stays_in_table(text: Seq<char>, i: int)
    ensures
        state_before(text, i).wf(),
    decreases i,
{
    if i > 0 {
        law_scan_stays_in_table(text, i - 1);
        let before = state_before(text, i - 1);
        let column = column_at(text, i - 1);
        if 0 <= i - 1 < text.len() {
            break_class(text[i - 1] as u32).lemma_code_round_trip();
        }
        pairs::lemma_table_closed(before.state as int, column as int);
        let value = pairs::value_at(before.state as int, column as int);
        assert(value & !(0x80u8 | 0x40u8) == value % 64) by (bit_vector);
    }
}

/// What the scan of `text` says of the position in front of code point `i`; for `i` the
/// length of the text, of the position at its end.
pub open spec fn opportunity_at(text: Seq<char>, i: int) -> Option<BreakOpportunity> {
    state_before(text, i).verdict(column_at(text, i))
}

/// Behind a zero width joiner the text does not break unless it must: the scan allows no
/// break in front of the code point that follows the joiner, and at the end of a text
/// that ends in one.
pub proof fn law_joiner_holds_back_break(text: Seq<char>, i: int)
    requires
        0 < i <= text.len(),
        break_class(text[i - 1] as u32) == BreakClass::ZeroWidthJoiner,
    ensures
        opportunity_at(text, i) != Some(BreakOpportunity::Allowed),
{
    assert(state_before(text, i).after_joiner);
}

/// The number of bytes that encode, in UTF-8, the code points in front of position `i`.
pub open spec fn byte_offset(text: Seq<char>, i: int) -> int {
    encode_utf8(text.take(i)).len() as int
}

/// The scan of a whole text: for each code point its byte offset and the verdict on the
/// position in front of it, then the length of the text in bytes and the verdict on the
/// position at its end.
pub open spec fn break_opportunities(text: Seq<char>) -> Seq<(usize, Option<BreakOpportunity>)> {
    Seq::new(
        text.len() + 1,
        |i: int| (byte_offset(text, i) as usize, opportunity_at(text, i)),
    )
}

/// The number of bytes that encode `c` in UTF-8.
pub fn utf8_width(c: char) -> (width: usize)
    ensures
        width == encode_scalar(c as u32).len(),
        1 <= width <= 4,
{
    let v = c as u32;
    if v < 0x80 {
        1
    } else if v < 0x800 {
        2
    } else if v < 0x10000 {
        3
    } else {
        4
    }
}

/// One more code point adds the bytes of its own encoding to the offset.
pub proof fn lemma_encode_push(text: Seq<char>, c: char)
    ensures
        encode_utf8(text.push(c)).len() == encode_utf8(text).len() + encode_scalar(c as u32).len(),
    decreases text.len(),
{
    reveal_with_fuel(encode_utf8, 2);
    if text.len() == 0 {
        assert(text.push(c).drop_first() =~= text);
    } else {
        assert(text.push(c).drop_first() =~= text.drop_first().push(c));
        lemma_encode_push(text.drop_first(), c);
    }
}

/// From a position to the next, the byte offset grows by the encoding of the code point
/// between them.
pub proof fn lemma_offset_step(text: Seq<char>, i: int)
    requires
        0 <= i < text.len(),
    ensures
        byte_offset(text, i + 1) == byte_offset(text, i) + encode_scalar(text[i] as u32).len(),
{
    assert(text.take(i + 1) =~= text.take(i).push(text[i]));
    lemma_encode_push(text.take(i), text[i]);
}

/// No position lies behind the end of the text: its byte offset is at most the length
/// of the text in bytes, which is the offset of the position at the end.
pub proof fn lemma_offset_bounded(text: Seq<char>, i: int)
    requires
        0 <= i <= text.len(),
    ensures
        byte_offset(text, i) <= byte_offset(text, text.len() as int),
        byte_offset(text, text.len() as int) == encode_utf8(text).len(),
    decreases text.len() - i,
{
    assert(text.take(text.len() as int) =~= text);
    if i < text.len() {
        lemma_offset_step(text, i);
        lemma_offset_bounded(text, i + 1);
    }
}

/// Scans `s` for break opportunities.
///
/// The result has one entry for each code point of `s`, in order, and one more for the
/// end of the text. An entry holds a byte offset into `s` and says whether a line may, or
/// must, end in front of the code point at that offset. The last entry holds the length
/// of `s` in bytes.
pub fn linebreaks(s: &str) -> (breaks: Vec<(usize, Option<BreakOpportunity>)>)
    ensures
        breaks@ == break_opportunities(s@),
{
    let total = s.as_bytes().len();
    let mut breaks: Vec<(usize, Option<BreakOpportunity>)> = Vec::new();
    let mut state = ScanState::start();
    let mut offset: usize = 0;
    let mut chars = s.chars();
    let ghost mut i: int = 0;
    proof {
        assert(s@.take(0) =~= Seq::<char>::empty());
        assert(s@.skip(0) =~= s@);
        lemma_offset_bounded(s@, 0);
    }
    loop
        invariant
            0 <= i <= s@.len(),
            chars.remaining() == s@.skip(i),
            total == encode_utf8(s@).len(),
            offset == byte_offset(s@, i),
            state == state_before(s@, i),
            state.wf(),
            breaks@.len() == i,
            forall|k: int| 0 <= k < i ==> breaks@[k] == break_opportunities(s@)[k],
        ensures
            i == s@.len(),
            offset == total,
            state == state_before(s@, i),
            state.wf(),
            breaks@.len() == i,
            forall|k: int| 0 <= k < i ==> breaks@[k] == break_opportunities(s@)[k],
        decreases s@.len() - i,
    {
        match chars.next() {
            None => {
                proof {
                    lemma_offset_bounded(s@, i);
                }
                break ;
            },
            Some(c) => {
                assert(c == s@[i]);
                let class = break_property(c as u32);
                let column = class.code();
                proof {
                    class.lemma_code_round_trip();
                    lemma_offset_step(s@, i);
                    lemma_offset_bounded(s@, i + 1);
                    assert(s@.skip(i).drop_first() =~= s@.skip(i + 1));
                }
                let opportunity = state.advance(column);
                breaks.push((offset, opportunity));
                offset = offset + utf8_width(c);
                proof {
                    i = i + 1;
                }
            },
        }
    }
    let opportunity = state.advance(END_OF_TEXT);
    breaks.push((total, opportunity));
    assert(breaks@ =~= break_opportunities(s@));
    breaks
}

} // verus!
