//! Reading what the user typed: a project with its tag, a choice among
//! assets, an answer to a yes-or-no question.
use crate::decimal::{parse_u64, parse_u64_chars};
use crate::foreign::lowercase;
use crate::text::{
    chars_of, lowercase_chars, same_chars, split_once, split_once_chars, string_of, trim,
    trim_chars, trim_end, trim_end_chars, CharClass,
};
use crate::utils::opt_text;
use vstd::prelude::*;

verus! {

/// The project and the tag in a text of the form `project@tag`. The text
/// is trimmed and split at its first `@`; a tag that is blank is none, and
/// then the project is the whole text without the `@` at its end.
pub open spec fn project_and_tag(input: Seq<char>) -> (Seq<char>, Option<Seq<char>>) {
    match split_once(trim(input, CharClass::Space), '@') {
        Some(halves) => {
            let tag = trim(halves.1, CharClass::Space);
            if tag.len() > 0 {
                (halves.0, Some(tag))
            } else {
                (trim_end(input, CharClass::Just('@')), None)
            }
        },
        None => (trim_end(input, CharClass::Just('@')), None),
    }
}

/// Splits a text of the form `project@tag`.
pub fn split_project_tag(input: &str) -> (r: (String, Option<String>))
    ensures
        (r.0@, opt_text(r.1)) == project_and_tag(input@),
{
    let raw = chars_of(input);
    let text = trim_chars(&raw, CharClass::Space);
    match split_once_chars(&text, '@') {
        Some((project, tag)) => {
            let t = trim_chars(&tag, CharClass::Space);
            if t.len() > 0 {
                return (string_of(&project), Some(string_of(&t)));
            }
        },
        None => {},
    }
    (string_of(&trim_end_chars(&raw, CharClass::Just('@'))), None)
}

/// The index that a typed number chooses among `count` items: the number,
/// trimmed, must lie between 1 and `count`, and chooses the item before it.
pub open spec fn chosen_index(input: Seq<char>, count: usize) -> Option<usize> {
    match parse_u64(trim(input, CharClass::Space)) {
        Some(n) => if 1 <= n <= count {
            Some((n - 1) as usize)
        } else {
            None
        },
        None => None,
    }
}

/// Reads a choice among `count` items.
pub fn parse_selection(input: &str, count: usize) -> (r: Option<usize>)
    ensures
        r == chosen_index(input@, count),
{
    match parse_u64_chars(&trim_chars(&chars_of(input), CharClass::Space)) {
        Some(n) => if 1 <= n && n <= count as u64 {
            Some((n - 1) as usize)
        } else {
            None
        },
        None => None,
    }
}

/// Whether the first of `count` assets is taken without asking: there is
/// only one, or the user has agreed to everything beforehand.
pub fn takes_first(count: usize, yes: bool) -> (r: bool)
    ensures
        r == (count == 1 || yes),
{
    count == 1 || yes
}

/// An answer agrees when, trimmed and in lowercase, it is `y` or `yes`.
pub open spec fn agrees(answer: Seq<char>) -> bool {
    let a = lowercase(trim(answer, CharClass::Space));
    a == seq!['y'] || a == seq!['y', 'e', 's']
}

/// Whether an answer to a yes-or-no question agrees.
pub fn is_affirmative(answer: &str) -> (r: bool)
    ensures
        r == agrees(answer@),
{
    let a = lowercase_chars(&trim_chars(&chars_of(answer), CharClass::Space));
    let y = chars_of("y");
    let yes = chars_of("yes");
    proof {
        reveal_strlit("y");
        reveal_strlit("yes");
        assert(y@ =~= seq!['y']);
        assert(yes@ =~= seq!['y', 'e', 's']);
    }
    same_chars(&a, &y) || same_chars(&a, &yes)
}

} // verus!
