//! What holds of every wrapping: a text that fits is left as it is, a wrapped text fits,
//! wrapping it once more changes nothing, and nothing but newlines is added.

use vstd::prelude::*;

use crate::measure::covered;
use crate::measure::fits;
use crate::measure::holds_at;
use crate::measure::is_line;
use crate::measure::lemma_line_width_behind_newline;
use crate::measure::lemma_line_width_bounded;
use crate::measure::lemma_line_width_of_line;
use crate::measure::lemma_line_width_of_prefix;
use crate::measure::lemma_newline_adds_nothing;
use crate::measure::line_width;
use crate::measure::measured;
use crate::measure::text_width;
use crate::measure::wide_at;
use crate::measure::without_newlines;
use crate::scan::opportunity_at;
use crate::wrap::annotate;
use crate::wrap::first_split;
use crate::wrap::lemma_pass_split_inside;
use crate::wrap::pass_from;
use crate::wrap::text_of;
use crate::wrap::wrapped;
use crate::wrap::wrapped_items;
use crate::wrap::Annotated;
use crate::wrap::LineBreakErr;

verus! {

/// The character at `i` is no NUL, and it holds.
pub open spec fn passes_at(text: Seq<char>, max_width: int, font: Map<char, usize>, i: int) -> bool {
    text[i] != '\0' && holds_at(text, max_width, font, i)
}

/// The first `n` characters of the text are measured and hold.
pub open spec fn prefix_holds(text: Seq<char>, max_width: int, font: Map<char, usize>, n: int) -> bool {
    forall|j: int| 0 <= j < n ==> #[trigger] passes_at(text, max_width, font, j)
}

/// A pass over a text that fits finds nothing to split, wherever it is taken up.
proof fn lemma_pass_over_fitting(
    items: Annotated,
    max_width: int,
    font: Map<char, usize>,
    i: int,
    width: int,
    mark: Option<int>,
)
    requires
        fits(text_of(items), max_width, font),
        0 <= i <= items.len(),
        i == 0 || measured(text_of(items), i - 1),
        width == line_width(text_of(items), font, i),
    ensures
        pass_from(items, max_width, font, i, width, mark) == Ok::<Option<int>, LineBreakErr>(None),
    decreases items.len() - i,
{
    let text = text_of(items);
    if i < items.len() && items[i].0 != '\0' {
        assert(measured(text, i));
        assert(holds_at(text, max_width, font, i));
        if items[i].0 == '\n' {
            lemma_pass_over_fitting(items, max_width, font, i + 1, 0, mark);
        } else {
            lemma_pass_over_fitting(
                items,
                max_width,
                font,
                i + 1,
                width + font[items[i].0],
                if items[i].1 is Some && i != 0 {
                    Some(i)
                } else {
                    mark
                },
            );
        }
    }
}

/// Characters whose text fits are wrapped to that text, whatever the verdicts on them.
pub proof fn lemma_fitting_items_are_kept(
    items: Annotated,
    max_width: usize,
    font: Map<char, usize>,
)
    requires
        fits(text_of(items), max_width as int, font),
    ensures
        wrapped_items(items, max_width as int, font) == Ok::<Seq<char>, LineBreakErr>(
            text_of(items),
        ),
{
    lemma_pass_over_fitting(items, max_width as int, font, 0, 0, None);
}

/// A pass that finds nothing to split has seen that the text fits.
proof fn lemma_pass_without_split(
    items: Annotated,
    max_width: int,
    font: Map<char, usize>,
    i: int,
    width: int,
    mark: Option<int>,
)
    requires
        0 <= max_width,
        0 <= i <= items.len(),
        prefix_holds(text_of(items), max_width, font, i),
        width == line_width(text_of(items), font, i),
        pass_from(items, max_width, font, i, width, mark) == Ok::<Option<int>, LineBreakErr>(None),
    ensures
        fits(text_of(items), max_width, font),
    decreases items.len() - i,
{
    let text = text_of(items);
    if i >= items.len() || items[i].0 == '\0' {
        assert forall|j: int| 0 <= j < text.len() && #[trigger] measured(text, j) implies holds_at(
            text,
            max_width,
            font,
            j,
        ) by {
            if j < i {
                assert(passes_at(text, max_width, font, j));
            } else {
                assert(text[i] == '\0');
            }
        }
    } else if items[i].0 == '\n' {
        assert(text[i] == items[i].0);
        assert(passes_at(text, max_width, font, i));
        lemma_pass_without_split(items, max_width, font, i + 1, 0, mark);
    } else {
        assert(text[i] == items[i].0);
        assert(passes_at(text, max_width, font, i));
        lemma_pass_without_split(
            items,
            max_width,
            font,
            i + 1,
            width + font[items[i].0],
            if items[i].1 is Some && i != 0 {
                Some(i)
            } else {
                mark
            },
        );
    }
}

/// A pass that splits has seen that all in front of the split is measured and holds.
proof fn lemma_pass_with_split(
    items: Annotated,
    max_width: int,
    font: Map<char, usize>,
    i: int,
    width: int,
    mark: Option<int>,
)
    requires
        0 <= max_width,
        0 <= i <= items.len(),
        prefix_holds(text_of(items), max_width, font, i),
        width == line_width(text_of(items), font, i),
        mark matches Some(at) ==> 0 < at < i,
    ensures
        pass_from(items, max_width, font, i, width, mark) matches Ok(Some(at)) ==> 0 < at
            < items.len() && prefix_holds(text_of(items), max_width, font, at),
    decreases items.len() - i,
{
    let text = text_of(items);
    if i < items.len() && items[i].0 != '\0' {
        if items[i].0 == '\n' {
            assert(text[i] == items[i].0);
            assert(passes_at(text, max_width, font, i));
            lemma_pass_with_split(items, max_width, font, i + 1, 0, mark);
        } else if font.contains_key(items[i].0) && width + font[items[i].0] <= max_width {
            assert(text[i] == items[i].0);
            assert(passes_at(text, max_width, font, i));
            lemma_pass_with_split(
                items,
                max_width,
                font,
                i + 1,
                width + font[items[i].0],
                if items[i].1 is Some && i != 0 {
                    Some(i)
                } else {
                    mark
                },
            );
        }
    }
}

/// A line that is measured and holds, a newline, and a text that fits make a text that fits.
proof fn lemma_line_in_front_fits(
    text: Seq<char>,
    at: int,
    rest: Seq<char>,
    max_width: int,
    font: Map<char, usize>,
)
    requires
        0 <= at <= text.len(),
        0 <= max_width,
        prefix_holds(text, max_width, font, at),
        fits(rest, max_width, font),
    ensures
        fits(text.take(at).push('\n') + rest, max_width, font),
{
    let line = text.take(at).push('\n');
    let whole = line + rest;
    assert forall|i: int| 0 <= i < whole.len() && #[trigger] measured(whole, i) implies holds_at(
        whole,
        max_width,
        font,
        i,
    ) by {
        if i < at {
            assert(passes_at(text, max_width, font, i));
            assert(text =~= text.take(at) + text.skip(at));
            lemma_line_width_of_prefix(text.take(at), text.skip(at), font, i + 1);
            assert(whole =~= text.take(at) + (seq!['\n'] + rest));
            lemma_line_width_of_prefix(text.take(at), seq!['\n'] + rest, font, i + 1);
        } else if i == at {
        } else {
            let k = i - at - 1;
            assert forall|j: int| 0 <= j <= k && j < rest.len() implies rest[j] != '\0' by {
                assert(whole[at + 1 + j] == rest[j]);
            }
            assert(measured(rest, k));
            assert(holds_at(rest, max_width, font, k));
            lemma_line_width_behind_newline(line, rest, font, k + 1);
        }
    }
}

/// What comes of wrapping annotated characters fits the budget.
pub proof fn lemma_wrapped_items_fit(items: Annotated, max_width: usize, font: Map<char, usize>)
    ensures
        wrapped_items(items, max_width as int, font) matches Ok(text) ==> fits(
            text,
            max_width as int,
            font,
        ),
    decreases items.len(),
{
    let width = max_width as int;
    assert(prefix_holds(text_of(items), width, font, 0));
    match first_split(items, width, font) {
        Err(_) => {},
        Ok(None) => {
            lemma_pass_without_split(items, width, font, 0, 0, None);
        },
        Ok(Some(at)) => {
            lemma_pass_with_split(items, width, font, 0, 0, None);
            lemma_wrapped_items_fit(items.skip(at), max_width, font);
            match wrapped_items(items.skip(at), width, font) {
                Ok(rest) => {
                    assert(text_of(items.take(at)) =~= text_of(items).take(at));
                    lemma_line_in_front_fits(text_of(items), at, rest, width, font);
                },
                Err(_) => {},
            }
        },
    }
}

/// A pass in front of a character that is wider than the budget does not get past it:
/// it splits in front of the character or ends in an error.
proof fn lemma_pass_meets_wide(
    items: Annotated,
    max_width: int,
    font: Map<char, usize>,
    i: int,
    width: int,
    mark: Option<int>,
    p: int,
)
    requires
        wide_at(text_of(items), max_width, font, p),
        0 <= i <= p,
        0 <= width,
        mark matches Some(at) ==> 0 < at < i,
    ensures
        pass_from(items, max_width, font, i, width, mark) != Ok::<Option<int>, LineBreakErr>(None),
        pass_from(items, max_width, font, i, width, mark) matches Ok(Some(at)) ==> 0 < at < p,
        pass_from(items, max_width, font, i, width, mark) matches Err(
            LineBreakErr::MissingCharacterWidth(c),
        ) ==> !covered(text_of(items), font),
    decreases items.len() - i,
{
    let text = text_of(items);
    assert(text[i] == items[i].0);
    assert(text[i] != '\0');
    assert(measured(text, i));
    if items[i].0 == '\n' {
        lemma_pass_meets_wide(items, max_width, font, i + 1, 0, mark, p);
    } else if font.contains_key(items[i].0) && width + font[items[i].0] <= max_width {
        lemma_pass_meets_wide(
            items,
            max_width,
            font,
            i + 1,
            width + font[items[i].0],
            if items[i].1 is Some && i != 0 {
                Some(i)
            } else {
                mark
            },
            p,
        );
    }
}

/// Characters of which one alone is wider than the budget are not wrapped.
pub proof fn lemma_wide_item_is_refused(
    items: Annotated,
    max_width: usize,
    font: Map<char, usize>,
    p: int,
)
    requires
        wide_at(text_of(items), max_width as int, font, p),
    ensures
        wrapped_items(items, max_width as int, font) is Err,
        covered(text_of(items), font) ==> wrapped_items(items, max_width as int, font) == Err::<
            Seq<char>,
            LineBreakErr,
        >(LineBreakErr::NoLegalLinebreakOpportunity),
    decreases items.len(),
{
    let width = max_width as int;
    let text = text_of(items);
    lemma_pass_meets_wide(items, width, font, 0, 0, None, p);
    match first_split(items, width, font) {
        Ok(Some(at)) => {
            let rest = items.skip(at);
            assert forall|j: int| 0 <= j <= p - at && j < text_of(rest).len() implies text_of(
                rest,
            )[j] != '\0' by {
                assert(text_of(rest)[j] == text[at + j]);
            }
            assert(text_of(rest)[p - at] == text[p]);
            assert(wide_at(text_of(rest), width, font, p - at));
            if covered(text, font) {
                assert forall|j: int|
                    0 <= j < text_of(rest).len() && #[trigger] measured(text_of(rest), j)
                        && text_of(rest)[j] != '\n' implies font.contains_key(text_of(rest)[j]) by {
                    assert forall|k: int| 0 <= k <= at + j && k < text.len() implies text[k]
                        != '\0' by {
                        if k >= at {
                            assert(text_of(rest)[k - at] == text[k]);
                        }
                    }
                    assert(measured(text, at + j));
                    assert(text_of(rest)[j] == text[at + j]);
                }
            }
            lemma_wide_item_is_refused(rest, max_width, font, p - at);
        },
        _ => {},
    }
}

/// Wrapping annotated characters keeps them, in their order, and only adds newlines.
pub proof fn lemma_items_keep_characters(
    items: Annotated,
    max_width: usize,
    font: Map<char, usize>,
)
    ensures
        wrapped_items(items, max_width as int, font) matches Ok(text) ==> without_newlines(text)
            == without_newlines(text_of(items)),
    decreases items.len(),
{
    broadcast use Seq::filter_distributes_over_add;

    let width = max_width as int;
    match first_split(items, width, font) {
        Ok(Some(at)) => {
            lemma_pass_split_inside(items, width, font, 0, 0, None);
            lemma_items_keep_characters(items.skip(at), max_width, font);
            match wrapped_items(items.skip(at), width, font) {
                Ok(rest) => {
                    let line = text_of(items.take(at));
                    lemma_newline_adds_nothing(line);
                    assert(text_of(items) =~= line + text_of(items.skip(at)));
                    assert(without_newlines(line.push('\n') + rest) == without_newlines(
                        line.push('\n'),
                    ) + without_newlines(rest));
                    assert(without_newlines(line + text_of(items.skip(at))) == without_newlines(
                        line,
                    ) + without_newlines(text_of(items.skip(at))));
                },
                Err(_) => {},
            }
        },
        _ => {},
    }
}

/// A pass reports no width missing that the font has.
proof fn lemma_pass_reports_missing(
    items: Annotated,
    max_width: int,
    font: Map<char, usize>,
    i: int,
    width: int,
    mark: Option<int>,
)
    requires
        0 <= i,
    ensures
        pass_from(items, max_width, font, i, width, mark) matches Err(
            LineBreakErr::MissingCharacterWidth(c),
        ) ==> !font.contains_key(c) && text_of(items).contains(c),
    decreases items.len() - i,
{
    if i < items.len() && items[i].0 != '\0' {
        if items[i].0 == '\n' {
            lemma_pass_reports_missing(items, max_width, font, i + 1, 0, mark);
        } else if !font.contains_key(items[i].0) {
            assert(text_of(items)[i] == items[i].0);
        } else if width + font[items[i].0] <= max_width {
            lemma_pass_reports_missing(
                items,
                max_width,
                font,
                i + 1,
                width + font[items[i].0],
                if items[i].1 is Some && i != 0 {
                    Some(i)
                } else {
                    mark
                },
            );
        }
    }
}

/// The character that wrapping annotated characters reports as without width stands
/// among them, and the font has no width for it.
pub proof fn lemma_items_missing_width(
    items: Annotated,
    max_width: usize,
    font: Map<char, usize>,
)
    ensures
        wrapped_items(items, max_width as int, font) matches Err(
            LineBreakErr::MissingCharacterWidth(c),
        ) ==> !font.contains_key(c) && text_of(items).contains(c),
    decreases items.len(),
{
    let width = max_width as int;
    lemma_pass_reports_missing(items, width, font, 0, 0, None);
    match first_split(items, width, font) {
        Ok(Some(at)) => {
            lemma_pass_split_inside(items, width, font, 0, 0, None);
            lemma_items_missing_width(items.skip(at), max_width, font);
            match wrapped_items(items.skip(at), width, font) {
                Err(LineBreakErr::MissingCharacterWidth(c)) => {
                    let j = choose|j: int|
                        0 <= j < text_of(items.skip(at)).len() && text_of(items.skip(at))[j] == c;
                    assert(text_of(items)[at + j] == c);
                },
                _ => {},
            }
        },
        _ => {},
    }
}

/// A pass splits in front of a character at which the text may or must break.
proof fn lemma_pass_splits_at_opportunity(
    items: Annotated,
    max_width: int,
    font: Map<char, usize>,
    i: int,
    width: int,
    mark: Option<int>,
)
    requires
        0 <= i,
        mark matches Some(at) ==> 0 < at < i && at < items.len() && items[at].1 is Some,
    ensures
        pass_from(items, max_width, font, i, width, mark) matches Ok(Some(at)) ==> 0 < at
            < items.len() && items[at].1 is Some,
    decreases items.len() - i,
{
    if i < items.len() && items[i].0 != '\0' {
        if items[i].0 == '\n' {
            lemma_pass_splits_at_opportunity(items, max_width, font, i + 1, 0, mark);
        } else if font.contains_key(items[i].0) && width + font[items[i].0] <= max_width {
            lemma_pass_splits_at_opportunity(
                items,
                max_width,
                font,
                i + 1,
                width + font[items[i].0],
                if items[i].1 is Some && i != 0 {
                    Some(i)
                } else {
                    mark
                },
            );
        }
    }
}

/// Annotated characters are split only in front of one at which the text may or must
/// break, and never in front of the first. This holds of every pass of a wrapping: each
/// is a first split of what the pass before it left.
pub proof fn lemma_items_split_at_opportunity(
    items: Annotated,
    max_width: usize,
    font: Map<char, usize>,
)
    ensures
        first_split(items, max_width as int, font) matches Ok(Some(at)) ==> 0 < at < items.len()
            && items[at].1 is Some,
{
    lemma_pass_splits_at_opportunity(items, max_width as int, font, 0, 0, None);
}

/// A text is split only where its scan found that it may or must break, and never in
/// front of its first character.
pub proof fn law_split_at_opportunity(text: Seq<char>, max_width: usize, font: Map<char, usize>)
    ensures
        first_split(annotate(text), max_width as int, font) matches Ok(Some(at)) ==> 0 < at
            < text.len() && opportunity_at(text, at) is Some,
{
    lemma_items_split_at_opportunity(annotate(text), max_width, font);
}

/// A text that fits the budget is wrapped to itself.
pub proof fn law_fitting_text_is_kept(text: Seq<char>, max_width: usize, font: Map<char, usize>)
    requires
        fits(text, max_width as int, font),
    ensures
        wrapped(text, max_width as int, font) == Ok::<Seq<char>, LineBreakErr>(text),
{
    assert(text_of(annotate(text)) =~= text);
    lemma_fitting_items_are_kept(annotate(text), max_width, font);
}

/// A budget that holds the whole text on one line leaves the text as it is, where the
/// font has a width for every character that is measured.
pub proof fn law_wide_budget_keeps_text(text: Seq<char>, max_width: usize, font: Map<char, usize>)
    requires
        covered(text, font),
        text_width(text, font) <= max_width,
    ensures
        wrapped(text, max_width as int, font) == Ok::<Seq<char>, LineBreakErr>(text),
{
    assert forall|i: int| 0 <= i < text.len() && #[trigger] measured(text, i) implies holds_at(
        text,
        max_width as int,
        font,
        i,
    ) by {
        lemma_line_width_bounded(text, font, i + 1);
    }
    law_fitting_text_is_kept(text, max_width, font);
}

/// A wrapped text fits the budget: as far as it is measured, the font has a width for
/// each of its characters but the newlines, and no line of it, between newlines that were
/// there and newlines that the wrapping put in, is wider than `max_width`.
pub proof fn law_wrapped_text_fits(text: Seq<char>, max_width: usize, font: Map<char, usize>)
    ensures
        wrapped(text, max_width as int, font) matches Ok(once) ==> fits(
            once,
            max_width as int,
            font,
        ),
{
    lemma_wrapped_items_fit(annotate(text), max_width, font);
}

/// No line of a wrapped text is wider than the budget, as far as the text is measured:
/// the widths of the characters between two newlines, those that were there and those
/// that the wrapping put in, come to `max_width` at most.
pub proof fn law_lines_are_within_budget(
    text: Seq<char>,
    max_width: usize,
    font: Map<char, usize>,
    from: int,
    to: int,
)
    ensures
        wrapped(text, max_width as int, font) matches Ok(once) ==> (is_line(once, from, to)
            && measured(once, to - 1) ==> text_width(once.subrange(from, to), font) <= max_width),
{
    law_wrapped_text_fits(text, max_width, font);
    match wrapped(text, max_width as int, font) {
        Ok(once) => {
            if is_line(once, from, to) && measured(once, to - 1) {
                lemma_line_width_of_line(once, font, from, to);
                if from < to {
                    assert(holds_at(once, max_width as int, font, to - 1));
                }
            }
        },
        Err(_) => {},
    }
}

/// Wrapping is stable: a text that was wrapped is wrapped to itself under the same budget
/// and font.
pub proof fn law_wrapping_is_stable(text: Seq<char>, max_width: usize, font: Map<char, usize>)
    ensures
        wrapped(text, max_width as int, font) matches Ok(once) ==> wrapped(
            once,
            max_width as int,
            font,
        ) == Ok::<Seq<char>, LineBreakErr>(once),
{
    law_wrapped_text_fits(text, max_width, font);
    match wrapped(text, max_width as int, font) {
        Ok(once) => {
            law_fitting_text_is_kept(once, max_width, font);
        },
        Err(_) => {},
    }
}

/// A text with a character that alone is wider than the budget is not wrapped: no line
/// could hold the character. Where the font has a width for every character that is
/// measured, the error is that no legal break was found.
pub proof fn law_wide_character_is_refused(
    text: Seq<char>,
    max_width: usize,
    font: Map<char, usize>,
    p: int,
)
    requires
        wide_at(text, max_width as int, font, p),
    ensures
        wrapped(text, max_width as int, font) is Err,
        covered(text, font) ==> wrapped(text, max_width as int, font) == Err::<
            Seq<char>,
            LineBreakErr,
        >(LineBreakErr::NoLegalLinebreakOpportunity),
{
    assert(text_of(annotate(text)) =~= text);
    lemma_wide_item_is_refused(annotate(text), max_width, font, p);
}

/// Wrapping keeps the characters of the text, in their order: it only adds newlines.
pub proof fn law_wrapping_keeps_characters(
    text: Seq<char>,
    max_width: usize,
    font: Map<char, usize>,
)
    ensures
        wrapped(text, max_width as int, font) matches Ok(once) ==> without_newlines(once)
            == without_newlines(text),
{
    assert(text_of(annotate(text)) =~= text);
    lemma_items_keep_characters(annotate(text), max_width, font);
}

/// The character that a wrapping reports as without width stands in the text, and the
/// font has no width for it.
pub proof fn law_missing_width_is_missing(
    text: Seq<char>,
    max_width: usize,
    font: Map<char, usize>,
)
    ensures
        wrapped(text, max_width as int, font) matches Err(LineBreakErr::MissingCharacterWidth(c))
            ==> !font.contains_key(c) && text.contains(c),
{
    assert(text_of(annotate(text)) =~= text);
    lemma_items_missing_width(annotate(text), max_width, font);
}

} // verus!
