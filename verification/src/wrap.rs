//! The greedy line wrapper: newlines go into a text so that no line is wider than a budget.

use std::collections::HashMap;

use vstd::prelude::*;
use vstd::std_specs::iter::IteratorSpec;
use vstd::string::StringExecFns;

use crate::scan::break_opportunities;
use crate::scan::linebreaks;
use crate::scan::opportunity_at;
use crate::scan::BreakOpportunity;

verus! {

/// Why a text could not be wrapped.
#[derive(Clone, Copy, Debug, PartialEq, Eq, Structural)]
pub enum LineBreakErr {
    /// The font has no width for this character.
    MissingCharacterWidth(char),
    /// A line is wider than the budget and holds no place to break it.
    NoLegalLinebreakOpportunity,
}

impl LineBreakErr {
    /// The error in words.
    pub open spec fn message_of(self) -> Seq<char> {
        match self {
            LineBreakErr::MissingCharacterWidth(c) => "missing character width for `"@.push(c)
                + "`"@,
            LineBreakErr::NoLegalLinebreakOpportunity => "no legal linebreak opportunity found"@,
        }
    }

    /// Returns the error in words.
    pub fn message(&self) -> (text: String)
        ensures
            text@ == self.message_of(),
    {
        match self {
            LineBreakErr::MissingCharacterWidth(c) => {
                let mut text = String::from_str("missing character width for `");
                text.push(*c);
                text.append("`");
                text
            },
            LineBreakErr::NoLegalLinebreakOpportunity => String::from_str(
                "no legal linebreak opportunity found",
            ),
        }
    }
}

/// The characters of a text, each with the verdict on the position in front of it.
pub type Annotated = Seq<(char, Option<BreakOpportunity>)>;

/// The text that annotated characters spell.
pub open spec fn text_of(items: Annotated) -> Seq<char> {
    Seq::new(items.len(), |i: int| items[i].0)
}

/// A text with the verdicts of its scan; the verdict on the end of the text is left out.
pub open spec fn annotate(text: Seq<char>) -> Annotated {
    Seq::new(text.len(), |i: int| (text[i], opportunity_at(text, i)))
}

/// One pass over `items`, taken up at position `i` with `width` gathered on the line so far
/// and `mark` the last position noted as fit for a break.
///
/// The pass ends at a NUL and at the end, with `Ok(None)`: nothing is left to split. A
/// newline starts a line of width zero and keeps the mark. Any other character adds its
/// width. The pass ends where the font has no width for a character, with that error, and
/// where the line gets wider than `max_width`: with the mark, where to split, or with an
/// error where there is none. Where the line holds it, a character in front of which the
/// text may or must break becomes the mark, unless it is the first of the pass.
pub open spec fn pass_from(
    items: Annotated,
    max_width: int,
    font: Map<char, usize>,
    i: int,
    width: int,
    mark: Option<int>,
) -> Result<Option<int>, LineBreakErr>
    decreases items.len() - i,
{
    if i < 0 || i >= items.len() {
        Ok(None)
    } else if items[i].0 == '\0' {
        Ok(None)
    } else if items[i].0 == '\n' {
        pass_from(items, max_width, font, i + 1, 0, mark)
    } else if !font.contains_key(items[i].0) {
        Err(LineBreakErr::MissingCharacterWidth(items[i].0))
    } else if width + font[items[i].0] > max_width {
        match mark {
            Some(at) => Ok(Some(at)),
            None => Err(LineBreakErr::NoLegalLinebreakOpportunity),
        }
    } else {
        pass_from(
            items,
            max_width,
            font,
            i + 1,
            width + font[items[i].0],
            if items[i].1 is Some && i != 0 {
                Some(i)
            } else {
                mark
            },
        )
    }
}

/// Where to split `items` first: the end of a whole pass over them.
pub open spec fn first_split(items: Annotated, max_width: int, font: Map<char, usize>) -> Result<
    Option<int>,
    LineBreakErr,
> {
    pass_from(items, max_width, font, 0, 0, None)
}

/// A pass splits inside the text: behind its first character and in front of the
/// character that made the line too wide.
pub proof fn lemma_pass_split_inside(
    items: Annotated,
    max_width: int,
    font: Map<char, usize>,
    i: int,
    width: int,
    mark: Option<int>,
)
    requires
        0 <= i,
        mark matches Some(at) ==> 0 < at < i,
    ensures
        pass_from(items, max_width, font, i, width, mark) matches Ok(Some(at)) ==> 0 < at
            < items.len(),
    decreases items.len() - i,
{
    if i < items.len() && items[i].0 != '\0' {
        if items[i].0 == '\n' {
            lemma_pass_split_inside(items, max_width, font, i + 1, 0, mark);
        } else if font.contains_key(items[i].0) && width + font[items[i].0] <= max_width {
            lemma_pass_split_inside(
                items,
                max_width,
                font,
                i + 1,
                width + font[items[i].0],
                if items[i].1 is Some && i != 0 {
                    Some(i)
                } else {
                    mark
                },
            );
        }
    }
}

/// A text in front of a result: in front of the text of a success, and lost with an error.
pub open spec fn prepend(head: Seq<char>, tail: Result<Seq<char>, LineBreakErr>) -> Result<
    Seq<char>,
    LineBreakErr,
> {
    match tail {
        Ok(text) => Ok(head + text),
        Err(e) => Err(e),
    }
}

/// The wrapping of annotated characters to lines of at most `max_width`.
///
/// Where a pass over the characters splits them, what stands in front of the split is a
/// line of the result, a newline ends it, and what stands behind is wrapped in turn, from
/// a line of width zero and with no position marked. Where the pass finds nothing to
/// split, the characters are the rest of the result as they are. An error of any pass is
/// the error of the whole.
pub open spec fn wrapped_items(items: Annotated, max_width: int, font: Map<char, usize>) -> Result<
    Seq<char>,
    LineBreakErr,
>
    decreases items.len(),
{
    match first_split(items, max_width, font) {
        Err(e) => Err(e),
        Ok(None) => Ok(text_of(items)),
        Ok(Some(at)) => {
            proof {
                lemma_pass_split_inside(items, max_width, font, 0, 0, None);
            }
            prepend(
                text_of(items.take(at)).push('\n'),
                wrapped_items(items.skip(at), max_width, font),
            )
        },
    }
}

/// The wrapping of a text: that of its characters under the verdicts of its scan.
pub open spec fn wrapped(text: Seq<char>, max_width: int, font: Map<char, usize>) -> Result<
    Seq<char>,
    LineBreakErr,
> {
    wrapped_items(annotate(text), max_width, font)
}

/// What `String::push` of the standard library does: the character goes to the end of the
/// string, and nothing else of the string changes.
pub assume_specification[ String::push ](s: &mut String, c: char)
    ensures
        final(s)@ == old(s)@.push(c),
;

/// Looks `c` up in the font, by `HashMap::get` of the standard library: the width that the
/// map holds for `c`, and nothing where it holds none.
#[verifier::external_body]
fn glyph_width(font: &HashMap<char, usize>, c: char) -> (width: Option<usize>)
    ensures
        width == (if font@.contains_key(c) {
            Some(font@[c])
        } else {
            None
        }),
{
    match font.get(&c) {
        Some(width) => Some(*width),
        None => None,
    }
}

/// Makes one pass over `items` and says where to split them first: `Ok(None)` where
/// nothing is to split, and the number of characters of the first line otherwise.
pub fn find_split(
    items: &[(char, Option<BreakOpportunity>)],
    max_width: usize,
    font: &HashMap<char, usize>,
) -> (result: Result<Option<usize>, LineBreakErr>)
    ensures
        result matches Ok(None) ==> first_split(items@, max_width as int, font@) == Ok::<
            Option<int>,
            LineBreakErr,
        >(None),
        result matches Ok(Some(at)) ==> 0 < at < items@.len() && first_split(
            items@,
            max_width as int,
            font@,
        ) == Ok::<Option<int>, LineBreakErr>(Some(at as int)),
        result matches Err(e) ==> first_split(items@, max_width as int, font@) == Err::<
            Option<int>,
            LineBreakErr,
        >(e),
{
    let n = items.len();
    let mut width: usize = 0;
    let mut mark: Option<usize> = None;
    let mut i: usize = 0;
    while i < n
        invariant
            n == items@.len(),
            i <= n,
            width <= max_width,
            mark matches Some(at) ==> 0 < at < i,
            first_split(items@, max_width as int, font@) == pass_from(
                items@,
                max_width as int,
                font@,
                i as int,
                width as int,
                match mark {
                    Some(at) => Some(at as int),
                    None => None,
                },
            ),
        decreases n - i,
    {
        let (c, opportunity) = items[i];
        if c == '\0' {
            return Ok(None);
        }
        if c == '\n' {
            width = 0;
        } else {
            match glyph_width(font, c) {
                None => {
                    return Err(LineBreakErr::MissingCharacterWidth(c));
                },
                Some(w) => {
                    if w > max_width - width {
                        return match mark {
                            Some(at) => Ok(Some(at)),
                            None => Err(LineBreakErr::NoLegalLinebreakOpportunity),
                        };
                    }
                    width = width + w;
                    if opportunity.is_some() && i != 0 {
                        mark = Some(i);
                    }
                },
            }
        }
        i = i + 1;
    }
    Ok(None)
}

/// Appends the text of `items` to `output`.
fn push_text(output: &mut String, items: &[(char, Option<BreakOpportunity>)])
    ensures
        final(output)@ == old(output)@ + text_of(items@),
{
    let n = items.len();
    let mut i: usize = 0;
    while i < n
        invariant
            n == items@.len(),
            i <= n,
            output@ == old(output)@ + text_of(items@.take(i as int)),
        decreases n - i,
    {
        output.push(items[i].0);
        assert(text_of(items@.take(i + 1)) =~= text_of(items@.take(i as int)).push(items@[i as int].0));
        i = i + 1;
    }
    assert(items@.take(n as int) =~= items@);
}

/// Wraps annotated characters to lines of at most `max_width`: splits them pass by pass
/// and ends each line that it splits off with a newline.
pub fn wrap_annotated(
    items: &[(char, Option<BreakOpportunity>)],
    max_width: usize,
    font: &HashMap<char, usize>,
) -> (result: Result<String, LineBreakErr>)
    ensures
        result matches Ok(text) ==> wrapped_items(items@, max_width as int, font@) == Ok::<
            Seq<char>,
            LineBreakErr,
        >(text@),
        result matches Err(e) ==> wrapped_items(items@, max_width as int, font@) == Err::<
            Seq<char>,
            LineBreakErr,
        >(e),
{
    let mut output = String::new();
    let mut rest = items;
    assert(output@ + text_of(rest@) =~= text_of(rest@));
    loop
        invariant
            wrapped_items(items@, max_width as int, font@) == prepend(
                output@,
                wrapped_items(rest@, max_width as int, font@),
            ),
        decreases rest@.len(),
    {
        match find_split(rest, max_width, font) {
            Err(e) => {
                return Err(e);
            },
            Ok(None) => {
                push_text(&mut output, rest);
                return Ok(output);
            },
            Ok(Some(at)) => {
                let (head, tail) = rest.split_at(at);
                let ghost before = output@;
                push_text(&mut output, head);
                output.push('\n');
                proof {
                    assert(head@ =~= rest@.take(at as int));
                    assert(tail@ =~= rest@.skip(at as int));
                    let line = text_of(rest@.take(at as int)).push('\n');
                    let then = wrapped_items(tail@, max_width as int, font@);
                    assert(output@ =~= before + line);
                    match then {
                        Ok(text) => {
                            assert(before + (line + text) =~= (before + line) + text);
                        },
                        Err(_) => {},
                    }
                }
                rest = tail;
            },
        }
    }
}

/// Pairs each character of `s` with the verdict of the scan on the position in front of it.
pub fn annotate_text(s: &str) -> (items: Vec<(char, Option<BreakOpportunity>)>)
    ensures
        items@ == annotate(s@),
{
    let breaks = linebreaks(s);
    let count = breaks.len();
    let mut items: Vec<(char, Option<BreakOpportunity>)> = Vec::new();
    let mut chars = s.chars();
    let mut i: usize = 0;
    proof {
        assert(s@.skip(0) =~= s@);
    }
    loop
        invariant
            i <= s@.len(),
            breaks@ == break_opportunities(s@),
            breaks@.len() == count,
            count == s@.len() + 1,
            chars.remaining() == s@.skip(i as int),
            items@.len() == i,
            forall|k: int| 0 <= k < i ==> items@[k] == annotate(s@)[k],
        ensures
            i == s@.len(),
            items@.len() == i,
            forall|k: int| 0 <= k < i ==> items@[k] == annotate(s@)[k],
        decreases s@.len() - i,
    {
        match chars.next() {
            None => {
                break ;
            },
            Some(c) => {
                proof {
                    assert(s@.skip(i as int).drop_first() =~= s@.skip(i + 1));
                }
                items.push((c, breaks[i].1));
                i = i + 1;
            },
        }
    }
    assert(items@ =~= annotate(s@));
    items
}

/// Puts newlines into `string` so that no line is wider than `max_width`, by the widths
/// that `font` gives to the characters.
///
/// A line is split at the last position in front of the character that makes it too wide
/// at which the text may break. The result is `string` with a newline at each split. It is
/// an error if the font has no width for a character that is measured, or if a line that
/// is too wide holds no position at which it may break. A NUL ends the measuring: what
/// follows it is taken as it is.
pub fn apply_newlines(string: &str, max_width: usize, font: &HashMap<char, usize>) -> (result:
    Result<String, LineBreakErr>)
    ensures
        result matches Ok(text) ==> wrapped(string@, max_width as int, font@) == Ok::<
            Seq<char>,
            LineBreakErr,
        >(text@),
        result matches Err(e) ==> wrapped(string@, max_width as int, font@) == Err::<
            Seq<char>,
            LineBreakErr,
        >(e),
{
    let items = annotate_text(string);
    wrap_annotated(items.as_slice(), max_width, font)
}

} // verus!
