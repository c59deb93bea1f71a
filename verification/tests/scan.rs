use linewrap::break_property;
use linewrap::linebreaks;
use linewrap::scan::utf8_width;
use linewrap::scan::ScanState;
use linewrap::BreakClass;
use linewrap::BreakOpportunity;

#[test]
fn classes_agree_with_unicode_linebreak() {
    for codepoint in 0..0x11_0000u32 {
        let ours = break_property(codepoint).code();
        let theirs = unicode_linebreak::break_property(codepoint) as u8;
        assert_eq!(ours, theirs, "code point {:#x}", codepoint);
    }
}

#[test]
fn classes_of_some_code_points() {
    assert_eq!(break_property(0xA), BreakClass::LineFeed);
    assert_eq!(break_property(0xD), BreakClass::CarriageReturn);
    assert_eq!(break_property(0x20), BreakClass::Space);
    assert_eq!(break_property(0x2D), BreakClass::Hyphen);
    assert_eq!(break_property(0x31), BreakClass::Numeric);
    assert_eq!(break_property(0x41), BreakClass::Alphabetic);
    assert_eq!(break_property(0x200D), BreakClass::ZeroWidthJoiner);
    assert_eq!(break_property(0x2CF3), BreakClass::Alphabetic);
    assert_eq!(break_property(0x4E2D), BreakClass::Ideographic);
    assert_eq!(break_property(0xDB80), BreakClass::Surrogate);
    assert_eq!(break_property(0xE01EF), BreakClass::CombiningMark);
}

#[test]
fn every_value_has_a_class() {
    assert_eq!(break_property(0), BreakClass::CombiningMark);
    assert_eq!(break_property(0xE0200), BreakClass::Unknown);
    assert_eq!(break_property(0xEFFFF), BreakClass::Unknown);
    assert_eq!(break_property(0xF0000), BreakClass::Unknown);
    assert_eq!(break_property(0x10FFFF), BreakClass::Unknown);
    assert_eq!(break_property(0x110000), BreakClass::Unknown);
    assert_eq!(break_property(u32::MAX), BreakClass::Unknown);
}

#[test]
fn classification_answers_the_same_every_time() {
    for codepoint in [0u32, 0x20, 0x41, 0x200D, 0x4E2D, 0xE01EF, 0x10FFFF, u32::MAX] {
        assert_eq!(break_property(codepoint), break_property(codepoint));
    }
}

#[test]
fn class_numbers_go_there_and_back() {
    for code in 0..43u8 {
        assert_eq!(BreakClass::from_code(code).code(), code);
    }
    assert_eq!(BreakClass::from_code(0), BreakClass::Mandatory);
    assert_eq!(BreakClass::from_code(10), BreakClass::ZeroWidthJoiner);
    assert_eq!(BreakClass::from_code(42), BreakClass::Unknown);
    assert_eq!(BreakClass::from_code(43), BreakClass::Unknown);
    assert_eq!(BreakClass::from_code(255), BreakClass::Unknown);
}

fn sparse(text: &str) -> Vec<(usize, BreakOpportunity)> {
    linebreaks(text).into_iter().filter_map(|(at, verdict)| verdict.map(|v| (at, v))).collect()
}

fn theirs(text: &str) -> Vec<(usize, BreakOpportunity)> {
    unicode_linebreak::linebreaks(text)
        .map(|(at, verdict)| match verdict {
            unicode_linebreak::BreakOpportunity::Mandatory => (at, BreakOpportunity::Mandatory),
            unicode_linebreak::BreakOpportunity::Allowed => (at, BreakOpportunity::Allowed),
        })
        .collect()
}

#[test]
fn scan_of_a_short_text() {
    assert_eq!(
        linebreaks("a b \nc"),
        vec![
            (0, None),
            (1, None),
            (2, Some(BreakOpportunity::Allowed)),
            (3, None),
            (4, None),
            (5, Some(BreakOpportunity::Mandatory)),
            (6, Some(BreakOpportunity::Mandatory)),
        ]
    );
}

#[test]
fn scan_of_the_empty_text() {
    assert_eq!(linebreaks(""), vec![(0, None)]);
}

#[test]
fn scan_gives_byte_offsets() {
    let offsets: Vec<usize> = linebreaks("a≤中\u{1F600}b").into_iter().map(|(at, _)| at).collect();
    assert_eq!(offsets, vec![0, 1, 4, 7, 11, 12]);
}

#[test]
fn utf8_widths() {
    assert_eq!(utf8_width('\0'), 1);
    assert_eq!(utf8_width('\u{7F}'), 1);
    assert_eq!(utf8_width('\u{80}'), 2);
    assert_eq!(utf8_width('\u{7FF}'), 2);
    assert_eq!(utf8_width('\u{800}'), 3);
    assert_eq!(utf8_width('\u{FFFF}'), 3);
    assert_eq!(utf8_width('\u{10000}'), 4);
    assert_eq!(utf8_width('\u{10FFFF}'), 4);
    for c in ['a', '≤', '中', '\u{1F600}'] {
        assert_eq!(utf8_width(c), c.len_utf8());
    }
}

#[test]
fn scans_agree_with_unicode_linebreak() {
    let texts = [
        "",
        "a",
        "Hello world!",
        "a b \nc",
        "This is a simple newline string. But then it gets a little longer.",
        "Not allowed to break within em dashes: — —",
        "中文 text with 日本語 and \u{1F1E9}\u{1F1EA}\u{1F1EB}\u{1F1F7} flags",
        "x\u{200D}y 中\u{200D}文 \r\n (1,234.50 $) e\u{301}-mail\u{00A0}now",
        "\u{1F469}\u{200D}\u{1F469}\u{200D}\u{1F467} family\u{2028}next",
        "tab\there\u{200B}zero width\u{2060}joined — “quoted” 50% off… 한국어 עברית",
    ];
    for text in texts {
        assert_eq!(sparse(text), theirs(text), "text {:?}", text);
    }
}

#[test]
fn joiner_holds_back_an_allowed_break() {
    let apart = linebreaks("中文");
    assert_eq!(apart[1], (3, Some(BreakOpportunity::Allowed)));
    let joined = linebreaks("中\u{200D}文");
    assert_eq!(joined[1], (3, None));
    assert_eq!(joined[2], (6, None));
}

#[test]
fn joiner_does_not_hold_back_a_mandatory_break() {
    let at_end = linebreaks("a\u{200D}");
    assert_eq!(at_end[2], (4, Some(BreakOpportunity::Mandatory)));
}

#[test]
fn scan_state_steps_through_the_pair_table() {
    let mut state = ScanState::start();
    assert_eq!(state, ScanState { state: 44, after_joiner: false });
    let alphabetic = BreakClass::Alphabetic.code();
    assert_eq!(state.advance(alphabetic), None);
    assert!(!state.after_joiner);
    assert_eq!(state.advance(BreakClass::Space.code()), None);
    assert_eq!(state.advance(alphabetic), Some(BreakOpportunity::Allowed));
    assert_eq!(state.advance(BreakClass::ZeroWidthJoiner.code()), None);
    assert!(state.after_joiner);
    assert_eq!(state.advance(BreakClass::LineFeed.code()), None);
    assert!(!state.after_joiner);
    assert_eq!(state.advance(alphabetic), Some(BreakOpportunity::Mandatory));
}

fn one_of_each_class() -> Vec<char> {
    let mut found: Vec<Option<char>> = vec![None; 43];
    for codepoint in 0..0x11_0000u32 {
        if let Some(c) = char::from_u32(codepoint) {
            let code = break_property(codepoint).code() as usize;
            if found[code].is_none() {
                found[code] = Some(c);
            }
        }
    }
    found.into_iter().flatten().collect()
}

#[test]
fn scans_of_all_runs_of_three_classes_agree_with_unicode_linebreak() {
    let chars = one_of_each_class();
    assert!(chars.len() >= 40);
    for a in &chars {
        for b in &chars {
            for c in &chars {
                let text: String = [*a, *b, *c].iter().collect();
                assert_eq!(sparse(&text), theirs(&text), "text {:?}", text);
            }
        }
    }
}

#[test]
fn scans_of_long_mixed_texts_agree_with_unicode_linebreak() {
    let chars = one_of_each_class();
    let mut seed: u64 = 0x2545_F491_4F6C_DD1D;
    for _ in 0..200 {
        let mut text = String::new();
        for _ in 0..64 {
            seed ^= seed << 13;
            seed ^= seed >> 7;
            seed ^= seed << 17;
            text.push(chars[(seed % chars.len() as u64) as usize]);
        }
        assert_eq!(sparse(&text), theirs(&text), "text {:?}", text);
        assert_eq!(linebreaks(&text).len(), 65);
    }
}
