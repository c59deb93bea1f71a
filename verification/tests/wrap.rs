use std::collections::HashMap;

use linewrap::apply_newlines;
use linewrap::wrap::find_split;
use linewrap::wrap::wrap_annotated;
use linewrap::BreakOpportunity;
use linewrap::LineBreakErr;

fn make_font() -> HashMap<char, usize> {
    (0..=255).filter_map(char::from_u32).map(|c| (c, 1)).collect()
}

fn font_of(widths: &[(char, usize)]) -> HashMap<char, usize> {
    widths.iter().copied().collect()
}

fn plain(text: &str) -> Vec<(char, Option<BreakOpportunity>)> {
    text.chars().map(|c| (c, None)).collect()
}

#[test]
fn basic() {
    assert_eq!(
        apply_newlines("This is a simple newline string.", 35, &make_font()).unwrap(),
        "This is a simple newline string."
    );

    assert_eq!(
        apply_newlines(
            "This is a simple newline string. But then it gets a little longer.",
            35,
            &make_font()
        )
        .unwrap(),
        "This is a simple newline string. \nBut then it gets a little longer."
    );

    assert_eq!(
        apply_newlines("Supercalifragalisticexpialidocious", 30, &make_font()).unwrap_err(),
        LineBreakErr::NoLegalLinebreakOpportunity
    );

    assert_eq!(
        apply_newlines("≤", 30, &make_font()).unwrap_err(),
        LineBreakErr::MissingCharacterWidth('≤')
    );
}

#[test]
fn empty_text_stays_empty() {
    assert_eq!(apply_newlines("", 10, &make_font()).unwrap(), "");
    assert_eq!(apply_newlines("", 0, &HashMap::new()).unwrap(), "");
}

#[test]
fn text_is_split_into_several_lines() {
    assert_eq!(
        apply_newlines("aaa bbb ccc ddd", 7, &make_font()).unwrap(),
        "aaa \nbbb \nccc ddd"
    );
}

#[test]
fn line_of_exactly_the_budget_is_kept() {
    assert_eq!(apply_newlines("abc def", 7, &make_font()).unwrap(), "abc def");
    assert_eq!(apply_newlines("abc def", 6, &make_font()).unwrap(), "abc \ndef");
}

#[test]
fn break_needs_room_for_the_character_behind_it() {
    // The space fills the line, so the position in front of `c` is never noted.
    assert_eq!(
        apply_newlines("ab cd", 3, &make_font()).unwrap_err(),
        LineBreakErr::NoLegalLinebreakOpportunity
    );
    assert_eq!(apply_newlines("ab cd", 4, &make_font()).unwrap(), "ab \ncd");
}

#[test]
fn widths_come_from_the_font() {
    let font = font_of(&[('i', 1), ('W', 5), (' ', 2)]);
    assert_eq!(apply_newlines("ii WW", 10, &font).unwrap(), "ii \nWW");
    assert_eq!(apply_newlines("ii WW", 14, &font).unwrap(), "ii WW");
    assert_eq!(apply_newlines("iiii W", 11, &font).unwrap(), "iiii W");
    assert_eq!(
        apply_newlines("iiii W", 10, &font).unwrap_err(),
        LineBreakErr::NoLegalLinebreakOpportunity
    );
    assert_eq!(apply_newlines("Wi iW iW", 9, &font).unwrap(), "Wi \niW \niW");
}

#[test]
fn newline_starts_a_line_of_width_zero() {
    assert_eq!(apply_newlines("abc\ndef", 3, &make_font()).unwrap(), "abc\ndef");
    assert_eq!(apply_newlines("abc\ndef\n", 3, &make_font()).unwrap(), "abc\ndef\n");
    assert_eq!(apply_newlines("\n\n\n", 0, &make_font()).unwrap(), "\n\n\n");
}

#[test]
fn newline_needs_no_width() {
    let font = font_of(&[('a', 1)]);
    assert_eq!(apply_newlines("aa\naa", 2, &font).unwrap(), "aa\naa");
}

#[test]
fn no_newline_is_forced_at_the_end() {
    assert_eq!(apply_newlines("abc\n", 10, &make_font()).unwrap(), "abc\n");
    assert_eq!(apply_newlines("abc", 10, &make_font()).unwrap(), "abc");
}

#[test]
fn nul_ends_the_measuring() {
    assert_eq!(apply_newlines("ab\0cdefgh", 3, &make_font()).unwrap(), "ab\0cdefgh");
    assert_eq!(apply_newlines("a\0≤", 3, &make_font()).unwrap(), "a\0≤");
    assert_eq!(apply_newlines("\0", 0, &HashMap::new()).unwrap(), "\0");
    assert_eq!(
        apply_newlines("aa bb cc\0 dd ee ff", 5, &make_font()).unwrap(),
        "aa \nbb cc\0 dd ee ff"
    );
}

#[test]
fn missing_width_is_reported_with_the_character() {
    let font = font_of(&[('a', 1)]);
    assert_eq!(
        apply_newlines("aab", 10, &font).unwrap_err(),
        LineBreakErr::MissingCharacterWidth('b')
    );
    assert_eq!(
        apply_newlines("a a a a b", 3, &font).unwrap_err(),
        LineBreakErr::MissingCharacterWidth(' ')
    );
}

#[test]
fn missing_width_behind_a_split_is_reported() {
    let font = font_of(&[('a', 1), (' ', 1)]);
    assert_eq!(
        apply_newlines("aa aa x", 4, &font).unwrap_err(),
        LineBreakErr::MissingCharacterWidth('x')
    );
}

#[test]
fn budget_of_zero() {
    assert_eq!(
        apply_newlines("a", 0, &make_font()).unwrap_err(),
        LineBreakErr::NoLegalLinebreakOpportunity
    );
    let font = font_of(&[('a', 0), (' ', 0)]);
    assert_eq!(apply_newlines("a a a", 0, &font).unwrap(), "a a a");
}

#[test]
fn character_wider_than_the_budget_is_refused() {
    let font = font_of(&[('i', 1), ('W', 5), (' ', 1)]);
    assert_eq!(
        apply_newlines("W", 4, &font).unwrap_err(),
        LineBreakErr::NoLegalLinebreakOpportunity
    );
    assert_eq!(
        apply_newlines("i i W i", 4, &font).unwrap_err(),
        LineBreakErr::NoLegalLinebreakOpportunity
    );
}

#[test]
fn widths_near_the_largest_number_do_not_overflow() {
    let font = font_of(&[('a', usize::MAX), ('b', usize::MAX), (' ', 0), ('c', 0)]);
    assert_eq!(
        apply_newlines("ab", usize::MAX, &font).unwrap_err(),
        LineBreakErr::NoLegalLinebreakOpportunity
    );
    assert_eq!(apply_newlines("a c", usize::MAX, &font).unwrap(), "a c");
    assert_eq!(apply_newlines("a cb", usize::MAX, &font).unwrap(), "a \ncb");
    let half = font_of(&[('a', usize::MAX / 2 + 1), (' ', 0), ('c', 0)]);
    assert_eq!(apply_newlines("a ca ca", usize::MAX, &half).unwrap(), "a \nca \nca");
}

#[test]
fn text_beyond_latin_is_wrapped() {
    let mut font = make_font();
    for c in "中文日本語".chars() {
        font.insert(c, 2);
    }
    assert_eq!(apply_newlines("中文日本語", 4, &font).unwrap(), "中\n文\n日\n本語");
    assert_eq!(apply_newlines("中文日本語", 6, &font).unwrap(), "中文\n日本語");
    assert_eq!(apply_newlines("中文日本語", 10, &font).unwrap(), "中文日本語");
}

#[test]
fn joiner_keeps_its_neighbours_on_one_line() {
    let mut font = make_font();
    for c in "中文\u{200D}".chars() {
        font.insert(c, 2);
    }
    font.insert('\u{200D}', 0);
    assert_eq!(apply_newlines("中文文文", 6, &font).unwrap(), "中文\n文文");
    assert_eq!(
        apply_newlines("中文\u{200D}文文", 6, &font).unwrap(),
        "中\n文\u{200D}文文"
    );
}

#[test]
fn find_split_gives_the_last_mark() {
    let font = make_font();
    let allowed = Some(BreakOpportunity::Allowed);
    let items = vec![
        ('a', None),
        ('b', allowed),
        ('c', allowed),
        ('d', None),
        ('e', allowed),
        ('f', None),
    ];
    assert_eq!(find_split(&items, 6, &font), Ok(None));
    assert_eq!(find_split(&items, 5, &font), Ok(Some(4)));
    assert_eq!(find_split(&items, 4, &font), Ok(Some(2)));
    assert_eq!(find_split(&items, 3, &font), Ok(Some(2)));
    assert_eq!(find_split(&items, 2, &font), Ok(Some(1)));
    assert_eq!(find_split(&items, 1, &font), Err(LineBreakErr::NoLegalLinebreakOpportunity));
    assert_eq!(find_split(&[], 0, &font), Ok(None));
}

#[test]
fn find_split_never_marks_the_first_character() {
    let font = make_font();
    let items = vec![('a', Some(BreakOpportunity::Mandatory)), ('b', None), ('c', None)];
    assert_eq!(find_split(&items, 2, &font), Err(LineBreakErr::NoLegalLinebreakOpportunity));
}

#[test]
fn find_split_keeps_the_mark_across_a_newline() {
    let font = font_of(&[('a', 1), ('b', 1), (' ', 1), ('W', 5)]);
    let items = vec![
        ('a', None),
        (' ', None),
        ('b', Some(BreakOpportunity::Allowed)),
        ('\n', None),
        ('W', None),
    ];
    assert_eq!(find_split(&items, 3, &font), Ok(Some(2)));
}

#[test]
fn find_split_does_not_mark_a_newline() {
    let font = make_font();
    let items = vec![
        ('a', None),
        ('\n', Some(BreakOpportunity::Allowed)),
        ('b', None),
        ('c', None),
    ];
    assert_eq!(find_split(&items, 1, &font), Err(LineBreakErr::NoLegalLinebreakOpportunity));
}

#[test]
fn find_split_stops_at_a_nul() {
    let items = plain("a\0bcdef");
    assert_eq!(find_split(&items, 1, &make_font()), Ok(None));
}

#[test]
fn wrap_annotated_follows_the_annotations() {
    let font = make_font();
    let allowed = Some(BreakOpportunity::Allowed);
    let items = vec![
        ('a', None),
        ('b', allowed),
        ('c', None),
        ('d', allowed),
        ('e', None),
        ('f', Some(BreakOpportunity::Mandatory)),
    ];
    assert_eq!(wrap_annotated(&items, 6, &font).unwrap(), "abcdef");
    assert_eq!(wrap_annotated(&items, 4, &font).unwrap(), "abc\ndef");
    assert_eq!(wrap_annotated(&items, 3, &font).unwrap(), "a\nbc\ndef");
    assert_eq!(
        wrap_annotated(&items, 2, &font).unwrap_err(),
        LineBreakErr::NoLegalLinebreakOpportunity
    );
    assert_eq!(
        wrap_annotated(&plain("abc"), 2, &font).unwrap_err(),
        LineBreakErr::NoLegalLinebreakOpportunity
    );
    assert_eq!(wrap_annotated(&[], 2, &font).unwrap(), "");
}

#[test]
fn errors_say_what_went_wrong() {
    assert_eq!(
        LineBreakErr::MissingCharacterWidth('≤').message(),
        "missing character width for `≤`"
    );
    assert_eq!(
        LineBreakErr::NoLegalLinebreakOpportunity.message(),
        "no legal linebreak opportunity found"
    );
}
