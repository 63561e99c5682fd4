//! The messages that the matchers report.

use vstd::prelude::*;

verus! {

/// `String::push` appends the character to the end of the string and leaves
/// what was there in place.
pub assume_specification[ String::push ](s: &mut String, ch: char)
    ensures
        final(s)@ == old(s)@.push(ch),
;

/// The message of a matcher that wants the punctuation character `ch`.
pub open spec fn expected_punct(ch: char) -> Seq<char> {
    "expected "@.push(ch)
}

/// The message of a matcher that wants the identifier `expected` and finds
/// the identifier `found`.
pub open spec fn expected_found(expected: Seq<char>, found: Seq<char>) -> Seq<char> {
    "expected '</"@ + expected + ">', found '</"@ + found + ">'"@
}

/// Whether `needle` occurs in `text` as a run of adjacent characters.
pub open spec fn occurs_in(needle: Seq<char>, text: Seq<char>) -> bool {
    exists|k: int|
        0 <= k && k + needle.len() <= text.len() && #[trigger] text.subrange(
            k,
            k + needle.len(),
        ) == needle
}

/// The message about a wrong identifier names both the identifier that was
/// wanted and the one that was found.
pub proof fn lemma_expected_found_names_both(expected: Seq<char>, found: Seq<char>)
    ensures
        occurs_in(expected, expected_found(expected, found)),
        occurs_in(found, expected_found(expected, found)),
{
    let text = expected_found(expected, found);
    let a = "expected '</"@.len() as int;
    let b = a + expected.len() + ">', found '</"@.len();
    assert(text.subrange(a, a + expected.len()) =~= expected);
    assert(text.subrange(b, b + found.len()) =~= found);
}

/// Builds the message [`expected_punct`].
pub fn expected_punct_message(ch: char) -> (message: String)
    ensures
        message@ == expected_punct(ch),
{
    let mut message = String::from_str("expected ");
    message.push(ch);
    message
}

/// Builds the message [`expected_found`].
pub fn expected_found_message(expected: &str, found: &str) -> (message: String)
    ensures
        message@ == expected_found(expected@, found@),
{
    let mut message = String::from_str("expected '</");
    message.append(expected);
    message.append(">', found '</");
    message.append(found);
    message.append(">'");
    message
}

} // verus!
