//! The line-breaking classes of Unicode Standard Annex 14.

use vstd::prelude::*;

verus! {

/// The line-breaking class of a code point.
#[derive(Clone, Copy, Debug, PartialEq, Eq, Hash, Structural)]
pub enum BreakClass {
    /// Forces a break after it (BK).
    Mandatory,
    /// Forces a break after it, unless a line feed follows (CR).
    CarriageReturn,
    /// Forces a break after it (LF).
    LineFeed,
    /// Attaches to the character before it (CM).
    CombiningMark,
    /// Forces a break after it (NL).
    NextLine,
    /// Half of a surrogate pair; absent from well-formed text (SG).
    Surrogate,
    /// Forbids a break on either side (WJ).
    WordJoiner,
    /// Offers a break without taking up room (ZW).
    ZeroWidthSpace,
    /// Forbids a break on either side (GL).
    NonBreakingGlue,
    /// Lets the text break after a run of spaces (SP).
    Space,
    /// Joins its neighbours into one unit (ZWJ).
    ZeroWidthJoiner,
    /// Offers a break on either side (B2).
    BeforeAndAfter,
    /// Offers a break after it (BA).
    After,
    /// Offers a break before it (BB).
    Before,
    /// Offers a break after it, except before a number (HY).
    Hyphen,
    /// Offers a break that depends on what surrounds it (CB).
    Contingent,
    /// Closing punctuation: no break before it (CL).
    ClosePunctuation,
    /// Closing parenthesis: no break before it (CP).
    CloseParenthesis,
    /// Exclamation or interrogation: no break before it (EX).
    Exclamation,
    /// Leaders that stay together (IN).
    Inseparable,
    /// May not start a line (NS).
    NonStarter,
    /// Opening punctuation: no break after it (OP).
    OpenPunctuation,
    /// Quotation mark: opens and closes (QU).
    Quotation,
    /// Separator inside a number (IS).
    InfixSeparator,
    /// Digit (NU).
    Numeric,
    /// Follows a number, such as a percent sign (PO).
    Postfix,
    /// Precedes a number, such as a currency sign (PR).
    Prefix,
    /// Symbol that allows a break after it, such as a solidus (SY).
    Symbol,
    /// Alphabetic or ideographic, by context (AI).
    Ambiguous,
    /// Letter or ordinary symbol (AL).
    Alphabetic,
    /// Small kana, a non-starter by choice of style (CJ).
    ConditionalJapaneseStarter,
    /// Emoji that a modifier may follow (EB).
    EmojiBase,
    /// Modifier of the emoji before it (EM).
    EmojiModifier,
    /// Hangul syllable of a leading consonant and a vowel (H2).
    HangulLvSyllable,
    /// Hangul syllable of a leading consonant, a vowel and a trailing consonant (H3).
    HangulLvtSyllable,
    /// Hebrew letter (HL).
    HebrewLetter,
    /// Ideograph: a break on either side (ID).
    Ideographic,
    /// Hangul leading consonant (JL).
    HangulLJamo,
    /// Hangul vowel (JV).
    HangulVJamo,
    /// Hangul trailing consonant (JT).
    HangulTJamo,
    /// Regional indicator; these stay in pairs (RI).
    RegionalIndicator,
    /// Script whose breaks need a dictionary (SA).
    ComplexContext,
    /// Unassigned, or of no known behaviour (XX).
    Unknown,
}

impl BreakClass {
    /// The number under which the tables know this class: its column in the pair table.
    pub open spec fn code_of(self) -> u8 {
        match self {
            BreakClass::Mandatory => 0,
            BreakClass::CarriageReturn => 1,
            BreakClass::LineFeed => 2,
            BreakClass::CombiningMark => 3,
            BreakClass::NextLine => 4,
            BreakClass::Surrogate => 5,
            BreakClass::WordJoiner => 6,
            BreakClass::ZeroWidthSpace => 7,
            BreakClass::NonBreakingGlue => 8,
            BreakClass::Space => 9,
            BreakClass::ZeroWidthJoiner => 10,
            BreakClass::BeforeAndAfter => 11,
            BreakClass::After => 12,
            BreakClass::Before => 13,
            BreakClass::Hyphen => 14,
            BreakClass::Contingent => 15,
            BreakClass::ClosePunctuation => 16,
            BreakClass::CloseParenthesis => 17,
            BreakClass::Exclamation => 18,
            BreakClass::Inseparable => 19,
            BreakClass::NonStarter => 20,
            BreakClass::OpenPunctuation => 21,
            BreakClass::Quotation => 22,
            BreakClass::InfixSeparator => 23,
            BreakClass::Numeric => 24,
            BreakClass::Postfix => 25,
            BreakClass::Prefix => 26,
            BreakClass::Symbol => 27,
            BreakClass::Ambiguous => 28,
            BreakClass::Alphabetic => 29,
            BreakClass::ConditionalJapaneseStarter => 30,
            BreakClass::EmojiBase => 31,
            BreakClass::EmojiModifier => 32,
            BreakClass::HangulLvSyllable => 33,
            BreakClass::HangulLvtSyllable => 34,
            BreakClass::HebrewLetter => 35,
            BreakClass::Ideographic => 36,
            BreakClass::HangulLJamo => 37,
            BreakClass::HangulVJamo => 38,
            BreakClass::HangulTJamo => 39,
            BreakClass::RegionalIndicator => 40,
            BreakClass::ComplexContext => 41,
            BreakClass::Unknown => 42,
        }
    }

    /// The class that the tables know under `code`, and `Unknown` where they know none.
    pub open spec fn of_code(code: u8) -> BreakClass {
        match code {
            0 => BreakClass::Mandatory,
            1 => BreakClass::CarriageReturn,
            2 => BreakClass::LineFeed,
            3 => BreakClass::CombiningMark,
            4 => BreakClass::NextLine,
            5 => BreakClass::Surrogate,
            6 => BreakClass::WordJoiner,
            7 => BreakClass::ZeroWidthSpace,
            8 => BreakClass::NonBreakingGlue,
            9 => BreakClass::Space,
            10 => BreakClass::ZeroWidthJoiner,
            11 => BreakClass::BeforeAndAfter,
            12 => BreakClass::After,
            13 => BreakClass::Before,
            14 => BreakClass::Hyphen,
            15 => BreakClass::Contingent,
            16 => BreakClass::ClosePunctuation,
            17 => BreakClass::CloseParenthesis,
            18 => BreakClass::Exclamation,
            19 => BreakClass::Inseparable,
            20 => BreakClass::NonStarter,
            21 => BreakClass::OpenPunctuation,
            22 => BreakClass::Quotation,
            23 => BreakClass::InfixSeparator,
            24 => BreakClass::Numeric,
            25 => BreakClass::Postfix,
            26 => BreakClass::Prefix,
            27 => BreakClass::Symbol,
            28 => BreakClass::Ambiguous,
            29 => BreakClass::Alphabetic,
            30 => BreakClass::ConditionalJapaneseStarter,
            31 => BreakClass::EmojiBase,
            32 => BreakClass::EmojiModifier,
            33 => BreakClass::HangulLvSyllable,
            34 => BreakClass::HangulLvtSyllable,
            35 => BreakClass::HebrewLetter,
            36 => BreakClass::Ideographic,
            37 => BreakClass::HangulLJamo,
            38 => BreakClass::HangulVJamo,
            39 => BreakClass::HangulTJamo,
            40 => BreakClass::RegionalIndicator,
            41 => BreakClass::ComplexContext,
            _ => BreakClass::Unknown,
        }
    }

    /// Returns the number under which the tables know this class.
    pub fn code(self) -> (code: u8)
        ensures
            code == self.code_of(),
    {
        match self {
            BreakClass::Mandatory => 0,
            BreakClass::CarriageReturn => 1,
            BreakClass::LineFeed => 2,
            BreakClass::CombiningMark => 3,
            BreakClass::NextLine => 4,
            BreakClass::Surrogate => 5,
            BreakClass::WordJoiner => 6,
            BreakClass::ZeroWidthSpace => 7,
            BreakClass::NonBreakingGlue => 8,
            BreakClass::Space => 9,
            BreakClass::ZeroWidthJoiner => 10,
            BreakClass::BeforeAndAfter => 11,
            BreakClass::After => 12,
            BreakClass::Before => 13,
            BreakClass::Hyphen => 14,
            BreakClass::Contingent => 15,
            BreakClass::ClosePunctuation => 16,
            BreakClass::CloseParenthesis => 17,
            BreakClass::Exclamation => 18,
            BreakClass::Inseparable => 19,
            BreakClass::NonStarter => 20,
            BreakClass::OpenPunctuation => 21,
            BreakClass::Quotation => 22,
            BreakClass::InfixSeparator => 23,
            BreakClass::Numeric => 24,
            BreakClass::Postfix => 25,
            BreakClass::Prefix => 26,
            BreakClass::Symbol => 27,
            BreakClass::Ambiguous => 28,
            BreakClass::Alphabetic => 29,
            BreakClass::ConditionalJapaneseStarter => 30,
            BreakClass::EmojiBase => 31,
            BreakClass::EmojiModifier => 32,
            BreakClass::HangulLvSyllable => 33,
            BreakClass::HangulLvtSyllable => 34,
            BreakClass::HebrewLetter => 35,
            BreakClass::Ideographic => 36,
            BreakClass::HangulLJamo => 37,
            BreakClass::HangulVJamo => 38,
            BreakClass::HangulTJamo => 39,
            BreakClass::RegionalIndicator => 40,
            BreakClass::ComplexContext => 41,
            BreakClass::Unknown => 42,
        }
    }

    /// Decodes a class number. Every number decodes: one that names no class gives `Unknown`.
    pub fn from_code(code: u8) -> (class: BreakClass)
        ensures
            class == BreakClass::of_code(code),
    {
        match code {
            0 => BreakClass::Mandatory,
            1 => BreakClass::CarriageReturn,
            2 => BreakClass::LineFeed,
            3 => BreakClass::CombiningMark,
            4 => BreakClass::NextLine,
            5 => BreakClass::Surrogate,
            6 => BreakClass::WordJoiner,
            7 => BreakClass::ZeroWidthSpace,
            8 => BreakClass::NonBreakingGlue,
            9 => BreakClass::Space,
            10 => BreakClass::ZeroWidthJoiner,
            11 => BreakClass::BeforeAndAfter,
            12 => BreakClass::After,
            13 => BreakClass::Before,
            14 => BreakClass::Hyphen,
            15 => BreakClass::Contingent,
            16 => BreakClass::ClosePunctuation,
            17 => BreakClass::CloseParenthesis,
            18 => BreakClass::Exclamation,
            19 => BreakClass::Inseparable,
            20 => BreakClass::NonStarter,
            21 => BreakClass::OpenPunctuation,
            22 => BreakClass::Quotation,
            23 => BreakClass::InfixSeparator,
            24 => BreakClass::Numeric,
            25 => BreakClass::Postfix,
            26 => BreakClass::Prefix,
            27 => BreakClass::Symbol,
            28 => BreakClass::Ambiguous,
            29 => BreakClass::Alphabetic,
            30 => BreakClass::ConditionalJapaneseStarter,
            31 => BreakClass::EmojiBase,
            32 => BreakClass::EmojiModifier,
            33 => BreakClass::HangulLvSyllable,
            34 => BreakClass::HangulLvtSyllable,
            35 => BreakClass::HebrewLetter,
            36 => BreakClass::Ideographic,
            37 => BreakClass::HangulLJamo,
            38 => BreakClass::HangulVJamo,
            39 => BreakClass::HangulTJamo,
            40 => BreakClass::RegionalIndicator,
            41 => BreakClass::ComplexContext,
            _ => BreakClass::Unknown,
        }
    }

    /// A class number names its own class, and is a column of the pair table.
    pub proof fn lemma_code_round_trip(self)
        ensures
            BreakClass::of_code(self.code_of()) == self,
            self.code_of() < crate::tables::NUM_CLASSES,
    {
    }
}

} // verus!
