//! Small operations on text, stated over sequences of characters.

use vstd::prelude::*;

verus! {

/// Whether `text` begins with the characters of `prefix`.
pub fn has_prefix(text: &str, prefix: &str) -> (found: bool)
    ensures
        found == prefix@.is_prefix_of(text@),
{
    let wanted: usize = prefix.unicode_len();
    if text.unicode_len() < wanted {
        return false;
    }
    let mut i: usize = 0;
    while i < wanted
        invariant
            i <= wanted,
            wanted == prefix@.len(),
            wanted <= text@.len(),
            forall|j: int| 0 <= j < i ==> text@[j] == prefix@[j],
        decreases wanted - i,
    {
        if text.get_char(i) != prefix.get_char(i) {
            return false;
        }
        i += 1;
    }
    assert(prefix@ =~= text@.subrange(0, prefix@.len() as int));
    true
}

/// Whether `left` and `right` hold the same characters.
pub fn same_text(left: &str, right: &str) -> (same: bool)
    ensures
        same == (left@ == right@),
{
    let same: bool = has_prefix(left, right) && has_prefix(right, left);
    assert(same ==> left@ =~= right@);
    same
}

/// Whether `c` is white space: a character with Unicode's `White_Space`
/// property.
pub open spec fn whitespace(c: char) -> bool {
    let code = c as u32;
    ||| 0x09 <= code <= 0x0d
    ||| code == 0x20
    ||| code == 0x85
    ||| code == 0xa0
    ||| code == 0x1680
    ||| 0x2000 <= code <= 0x200a
    ||| code == 0x2028
    ||| code == 0x2029
    ||| code == 0x202f
    ||| code == 0x205f
    ||| code == 0x3000
}

/// How many characters of `text` are left when the white space at its end is
/// taken away.
pub open spec fn trimmed_len(text: Seq<char>) -> nat
    decreases text.len(),
{
    if text.len() > 0 && whitespace(text.last()) {
        trimmed_len(text.drop_last())
    } else {
        text.len()
    }
}

/// `text` without the white space at its end.
pub open spec fn trimmed(text: Seq<char>) -> Seq<char> {
    text.take(trimmed_len(text) as int)
}

/// `trimmed(text)` is the longest beginning of `text` that does not end in
/// white space: it is a beginning of `text`, it is empty or ends in a
/// character that is no white space, and all that follows it in `text` is
/// white space.
pub proof fn trimmed_is_longest_clean_prefix(text: Seq<char>)
    ensures
        trimmed(text).len() == trimmed_len(text) <= text.len(),
        trimmed(text).is_prefix_of(text),
        trimmed(text).len() == 0 || !whitespace(trimmed(text).last()),
        forall|i: int| trimmed(text).len() <= i < text.len() ==> whitespace(#[trigger] text[i]),
    decreases text.len(),
{
    if text.len() > 0 && whitespace(text.last()) {
        let shorter = text.drop_last();
        trimmed_is_longest_clean_prefix(shorter);
        assert(trimmed(text) =~= trimmed(shorter));
        assert forall|i: int| trimmed(text).len() <= i < text.len() implies whitespace(
            #[trigger] text[i],
        ) by {
            if i < shorter.len() {
                assert(text[i] == shorter[i]);
            }
        }
    } else {
        assert(trimmed(text) =~= text);
    }
}

/// Whether `c` is white space.
pub fn is_whitespace(c: char) -> (yes: bool)
    ensures
        yes == whitespace(c),
{
    let code: u32 = c as u32;
    (0x09 <= code && code <= 0x0d) || code == 0x20 || code == 0x85 || code == 0xa0
        || code == 0x1680 || (0x2000 <= code && code <= 0x200a) || code == 0x2028
        || code == 0x2029 || code == 0x202f || code == 0x205f || code == 0x3000
}

/// The part of `text` before the white space at its end.
pub fn trim_end(text: &str) -> (kept: &str)
    ensures
        kept@ == trimmed(text@),
        kept@.is_prefix_of(text@),
        kept@.len() == 0 || !whitespace(kept@.last()),
        forall|i: int| kept@.len() <= i < text@.len() ==> whitespace(#[trigger] text@[i]),
{
    proof {
        trimmed_is_longest_clean_prefix(text@);
    }
    let mut end: usize = text.unicode_len();
    assert(text@.take(end as int) =~= text@);
    while end > 0
        invariant
            end <= text@.len(),
            trimmed_len(text@.take(end as int)) == trimmed_len(text@),
        ensures
            end == 0 || !whitespace(text@[end - 1]),
        decreases end,
    {
        if !is_whitespace(text.get_char(end - 1)) {
            break;
        }
        assert(text@.take(end as int).drop_last() =~= text@.take(end - 1));
        end -= 1;
    }
    text.substring_char(0, end)
}

} // verus!
