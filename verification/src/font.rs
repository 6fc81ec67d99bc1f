//! The font family inside a font description.

use vstd::prelude::*;
use vstd::string::*;

verus! {

/// Whether `c` is white space: what [`char::is_whitespace`] answers for it.
pub uninterp spec fn white_space(c: char) -> bool;

/// `text` without the white space at its start.
pub open spec fn trimmed_start(text: Seq<char>) -> Seq<char>
    decreases text.len(),
{
    if text.len() > 0 && white_space(text.first()) {
        trimmed_start(text.drop_first())
    } else {
        text
    }
}

/// `text` without the white space at its end.
pub open spec fn trimmed_end(text: Seq<char>) -> Seq<char>
    decreases text.len(),
{
    if text.len() > 0 && white_space(text.last()) {
        trimmed_end(text.drop_last())
    } else {
        text
    }
}

/// `text` without the white space at its start and at its end.
pub open spec fn trimmed(text: Seq<char>) -> Seq<char> {
    trimmed_end(trimmed_start(text))
}

/// The place of the last space in `text`, if there is one.
pub open spec fn last_space(text: Seq<char>) -> Option<int>
    decreases text.len(),
{
    if text.len() == 0 {
        None
    } else if text.last() == ' ' {
        Some(text.len() - 1)
    } else {
        last_space(text.drop_last())
    }
}

/// A font description without its last word, which is the size: what stands
/// before the last space, or all of it where there is no space.
pub open spec fn without_size(description: Seq<char>) -> Seq<char> {
    match last_space(description) {
        Some(at) => description.subrange(0, at),
        None => description,
    }
}

/// The family that a font description names: the description without its
/// size and without white space around it.
pub open spec fn family(description: Seq<char>) -> Seq<char> {
    trimmed(without_size(description))
}

/// Where `last_space` finds a space, it is the last one.
pub proof fn lemma_last_space(text: Seq<char>)
    ensures
        match last_space(text) {
            Some(at) => 0 <= at < text.len() && text[at] == ' ' && forall|k: int|
                at < k < text.len() ==> text[k] != ' ',
            None => forall|k: int| 0 <= k < text.len() ==> text[k] != ' ',
        },
    decreases text.len(),
{
    if text.len() > 0 && text.last() != ' ' {
        let rest = text.drop_last();
        lemma_last_space(rest);
        assert(forall|k: int| 0 <= k < rest.len() ==> rest[k] == text[k]);
    }
}

/// Calls [`char::is_whitespace`], which tells whether a character has the
/// Unicode property White_Space. The contract only gives the answer its name.
#[verifier::external_body]
fn is_white_space(c: char) -> (r: bool)
    ensures
        r == white_space(c),
{
    c.is_whitespace()
}

/// Takes the white space off both ends of `text`, see [`trimmed`].
pub fn trim(text: &str) -> (inner: &str)
    ensures
        inner@ == trimmed(text@),
{
    let length = text.unicode_len();
    let mut from: usize = 0;
    assert(text@.subrange(0, length as int) =~= text@);
    while from < length && is_white_space(text.get_char(from))
        invariant
            from <= length == text@.len(),
            trimmed_start(text@) == trimmed_start(text@.subrange(from as int, length as int)),
        decreases length - from,
    {
        assert(text@.subrange(from as int, length as int).drop_first() =~= text@.subrange(
            from + 1,
            length as int,
        ));
        from = from + 1;
    }
    let ghost rest = text@.subrange(from as int, length as int);
    assert(trimmed_start(text@) == rest);
    let mut to: usize = length;
    while to > from && is_white_space(text.get_char(to - 1))
        invariant
            from <= to <= length == text@.len(),
            trimmed_end(rest) == trimmed_end(text@.subrange(from as int, to as int)),
        decreases to,
    {
        assert(text@.subrange(from as int, to as int).drop_last() =~= text@.subrange(
            from as int,
            to - 1,
        ));
        to = to - 1;
    }
    text.substring_char(from, to)
}

/// Cuts the size off a font description, see [`without_size`].
pub fn strip_size(description: &str) -> (rest: &str)
    ensures
        rest@ == without_size(description@),
{
    let length = description.unicode_len();
    let mut end = length;
    assert(description@.subrange(0, end as int) =~= description@);
    while end > 0
        invariant
            end <= length == description@.len(),
            last_space(description@) == last_space(description@.subrange(0, end as int)),
        decreases end,
    {
        let ghost head = description@.subrange(0, end as int);
        assert(head.last() == description@[end - 1]);
        assert(head.drop_last() =~= description@.subrange(0, end - 1));
        if description.get_char(end - 1) == ' ' {
            return description.substring_char(0, end - 1);
        }
        end = end - 1;
    }
    description
}

/// The family that a font description names, see [`family`].
pub fn font_name(description: &str) -> (name: &str)
    ensures
        name@ == family(description@),
{
    trim(strip_size(description))
}

} // verus!
