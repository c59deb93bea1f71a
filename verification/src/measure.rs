//! The measure of a text: the width of its lines under a font, and what it means for
//! the text to fit a budget.

use vstd::prelude::*;

verus! {

/// The width of `c` under `font`; zero where the font has none.
pub open spec fn width_in(font: Map<char, usize>, c: char) -> int {
    if font.contains_key(c) {
        font[c] as int
    } else {
        0
    }
}

/// The character at `i` is measured: no NUL stands at `i` or in front of it.
pub open spec fn measured(text: Seq<char>, i: int) -> bool {
    forall|j: int| 0 <= j <= i && j < text.len() ==> text[j] != '\0'
}

/// The width of the line that position `i` stands on, as far as the line reaches in front
/// of `i`: the widths of the characters between the last newline in front of `i` and `i`.
pub open spec fn line_width(text: Seq<char>, font: Map<char, usize>, i: int) -> int
    decreases i,
{
    if i <= 0 || i > text.len() {
        0
    } else if text[i - 1] == '\n' {
        0
    } else {
        line_width(text, font, i - 1) + width_in(font, text[i - 1])
    }
}

/// The width of a whole text: the widths of all its characters.
pub open spec fn text_width(text: Seq<char>, font: Map<char, usize>) -> int
    decreases text.len(),
{
    if text.len() == 0 {
        0
    } else {
        text_width(text.drop_last(), font) + width_in(font, text.last())
    }
}

/// The character at `i` is a newline or has a width in the font, and its line, up to the
/// character and with it, is no wider than `max_width`.
pub open spec fn holds_at(text: Seq<char>, max_width: int, font: Map<char, usize>, i: int) -> bool {
    &&& text[i] == '\n' || font.contains_key(text[i])
    &&& line_width(text, font, i + 1) <= max_width
}

/// The text fits the budget: as far as it is measured, the font has a width for each of
/// its characters but the newlines, and none of its lines is wider than `max_width`.
pub open spec fn fits(text: Seq<char>, max_width: int, font: Map<char, usize>) -> bool {
    forall|i: int|
        0 <= i < text.len() && #[trigger] measured(text, i) ==> holds_at(text, max_width, font, i)
}

/// The font has a width for every character of the text that is measured, the newlines
/// apart.
pub open spec fn covered(text: Seq<char>, font: Map<char, usize>) -> bool {
    forall|i: int|
        0 <= i < text.len() && #[trigger] measured(text, i) && text[i] != '\n'
            ==> font.contains_key(text[i])
}

/// The character at `p` is measured and wider than the whole budget.
pub open spec fn wide_at(text: Seq<char>, max_width: int, font: Map<char, usize>, p: int) -> bool {
    &&& 0 <= p < text.len()
    &&& measured(text, p)
    &&& text[p] != '\n'
    &&& font.contains_key(text[p])
    &&& font[text[p]] > max_width
}

/// The characters from `from` up to `to` are a line of the text: no newline is among
/// them, the text or a newline ends in front of them, and the text ends or a newline
/// stands behind them.
pub open spec fn is_line(text: Seq<char>, from: int, to: int) -> bool {
    &&& 0 <= from <= to <= text.len()
    &&& from == 0 || text[from - 1] == '\n'
    &&& to == text.len() || text[to] == '\n'
    &&& forall|k: int| from <= k < to ==> text[k] != '\n'
}

/// A text without its newlines.
pub open spec fn without_newlines(text: Seq<char>) -> Seq<char> {
    text.filter(|c: char| c != '\n')
}

/// The width of a line in front of a position depends on nothing behind the position.
pub proof fn lemma_line_width_of_prefix(
    head: Seq<char>,
    tail: Seq<char>,
    font: Map<char, usize>,
    i: int,
)
    requires
        0 <= i <= head.len(),
    ensures
        line_width(head + tail, font, i) == line_width(head, font, i),
    decreases i,
{
    if i > 0 {
        lemma_line_width_of_prefix(head, tail, font, i - 1);
    }
}

/// Behind a newline the width of a line is counted anew.
pub proof fn lemma_line_width_behind_newline(
    head: Seq<char>,
    tail: Seq<char>,
    font: Map<char, usize>,
    k: int,
)
    requires
        head.len() > 0,
        head.last() == '\n',
        0 <= k <= tail.len(),
    ensures
        line_width(head + tail, font, head.len() + k) == line_width(tail, font, k),
    decreases k,
{
    if k > 0 {
        lemma_line_width_behind_newline(head, tail, font, k - 1);
    }
}

/// The width of a line in front of a position is at most that of all the characters in
/// front of the position.
pub proof fn lemma_line_width_within(text: Seq<char>, font: Map<char, usize>, i: int)
    requires
        0 <= i <= text.len(),
    ensures
        0 <= line_width(text, font, i) <= text_width(text.take(i), font),
    decreases i,
{
    if i > 0 {
        lemma_line_width_within(text, font, i - 1);
        assert(text.take(i).drop_last() =~= text.take(i - 1));
    }
}

/// No line is wider than the whole text.
pub proof fn lemma_line_width_bounded(text: Seq<char>, font: Map<char, usize>, i: int)
    requires
        0 <= i <= text.len(),
    ensures
        0 <= line_width(text, font, i) <= text_width(text.take(i), font) <= text_width(text, font),
    decreases text.len() - i,
{
    if i < text.len() {
        lemma_line_width_bounded(text, font, i + 1);
        assert(text.take(i + 1).drop_last() =~= text.take(i));
    } else {
        assert(text.take(i) =~= text);
    }
    lemma_line_width_within(text, font, i);
}

/// In front of the end of a line, the width of the line is that of all its characters.
pub proof fn lemma_line_width_of_line(text: Seq<char>, font: Map<char, usize>, from: int, to: int)
    requires
        0 <= from <= to <= text.len(),
        from == 0 || text[from - 1] == '\n',
        forall|k: int| from <= k < to ==> text[k] != '\n',
    ensures
        line_width(text, font, to) == text_width(text.subrange(from, to), font),
    decreases to - from,
{
    if from < to {
        lemma_line_width_of_line(text, font, from, to - 1);
        assert(text.subrange(from, to).drop_last() =~= text.subrange(from, to - 1));
    }
}

/// A newline at the end of a text adds nothing to the text without its newlines.
pub proof fn lemma_newline_adds_nothing(text: Seq<char>)
    ensures
        without_newlines(text.push('\n')) == without_newlines(text),
{
    reveal(Seq::filter);
    assert(text.push('\n').drop_last() =~= text);
}

} // verus!
