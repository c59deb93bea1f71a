use std::collections::HashMap;

use linewrap::apply_newlines;

fn make_font() -> HashMap<char, usize> {
    (0..=255).filter_map(char::from_u32).map(|c| (c, 1 + (c as usize) % 3)).collect()
}

fn line_widths(text: &str, font: &HashMap<char, usize>) -> Vec<usize> {
    text.split('\n').map(|line| line.chars().map(|c| font[&c]).sum()).collect()
}

const TEXTS: [&str; 5] = [
    "The quick brown fox jumps over the lazy dog, again and again, until the line is long.",
    "short",
    "one\ntwo three four five six seven\neight nine ten eleven twelve",
    "a b c d e f g h i j k l m n o p q r s t u v w x y z",
    "",
];

#[test]
fn wide_budget_leaves_the_text_as_it_is() {
    let font = make_font();
    for text in TEXTS {
        let total: usize = text.chars().map(|c| font[&c]).sum();
        assert_eq!(apply_newlines(text, total, &font).unwrap(), text);
        assert_eq!(apply_newlines(text, usize::MAX, &font).unwrap(), text);
    }
}

#[test]
fn no_line_of_a_wrapped_text_is_wider_than_the_budget() {
    let font = make_font();
    for text in TEXTS {
        for budget in 12..40 {
            if let Ok(wrapped) = apply_newlines(text, budget, &font) {
                for width in line_widths(&wrapped, &font) {
                    assert!(width <= budget, "{:?} at {}", wrapped, budget);
                }
            }
        }
    }
}

#[test]
fn wrapping_once_more_changes_nothing() {
    let font = make_font();
    for text in TEXTS {
        for budget in 12..40 {
            if let Ok(once) = apply_newlines(text, budget, &font) {
                assert_eq!(apply_newlines(&once, budget, &font).unwrap(), once);
            }
        }
    }
}

#[test]
fn wrapping_only_adds_newlines() {
    let font = make_font();
    for text in TEXTS {
        for budget in 12..40 {
            if let Ok(wrapped) = apply_newlines(text, budget, &font) {
                assert_eq!(wrapped.replace('\n', ""), text.replace('\n', ""));
                assert!(wrapped.len() >= text.len());
            }
        }
    }
}

#[test]
fn some_budget_wraps_the_long_text() {
    let font = make_font();
    let wrapped = apply_newlines(TEXTS[0], 30, &font).unwrap();
    assert!(wrapped.lines().count() > 1);
}
