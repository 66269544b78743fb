//! Characters and their passage between strings and vectors.
//!
//! Two character classes and the appending of a character to a string
//! are taken from the standard library on trust; what the crate does with
//! characters it does on vectors of them, where it can be followed.

use vstd::prelude::*;

verus! {

broadcast use vstd::string::group_string_axioms;

/// Whether a character has the Unicode property `Uppercase`, as
/// `char::is_uppercase` answers.
pub uninterp spec fn char_is_uppercase(c: char) -> bool;

/// Whether a character has the Unicode property `White_Space`, as
/// `char::is_whitespace` answers.
pub uninterp spec fn char_is_whitespace(c: char) -> bool;

/// `char::is_uppercase`. The answer is the character's Unicode property,
/// which the crate names and does not spell out.
#[verifier::external_body]
pub(crate) fn is_uppercase(c: char) -> (answer: bool)
    ensures
        answer == char_is_uppercase(c),
{
    c.is_uppercase()
}

/// `char::is_whitespace`. The answer is the character's Unicode property,
/// which the crate names and does not spell out.
#[verifier::external_body]
pub(crate) fn is_whitespace(c: char) -> (answer: bool)
    ensures
        answer == char_is_whitespace(c),
{
    c.is_whitespace()
}

/// `String::push`: the character is appended to the string.
#[verifier::external_body]
pub(crate) fn push_char(text: &mut String, c: char)
    ensures
        final(text)@ == old(text)@.push(c),
{
    text.push(c)
}

/// The characters of a string, in order.
pub(crate) fn chars_of(text: &str) -> (chars: Vec<char>)
    ensures
        chars@ == text@,
{
    let mut chars: Vec<char> = Vec::new();
    for c in all: text.chars()
        invariant
            all.seq() == text@,
            chars@ == all.seq().take(all.index() as int),
    {
        chars.push(c);
        proof {
            assert(all.seq().take(all.index() + 1) == all.seq().take(all.index() as int).push(c));
        }
    }
    proof {
        assert(text@.take(text@.len() as int) == text@);
    }
    chars
}

/// The string made of the given characters, in order.
pub(crate) fn string_of(chars: &Vec<char>) -> (text: String)
    ensures
        text@ == chars@,
{
    let mut text = String::new();
    let mut i: usize = 0;
    while i < chars.len()
        invariant
            i <= chars.len(),
            text@ == chars@.take(i as int),
        decreases chars.len() - i,
    {
        push_char(&mut text, chars[i]);
        proof {
            assert(chars@.take(i as int + 1) == chars@.take(i as int).push(chars@[i as int]));
        }
        i += 1;
    }
    proof {
        assert(chars@.take(chars@.len() as int) == chars@);
    }
    text
}

/// A lower-case ASCII letter becomes its upper-case letter; every other
/// character stays as it is.
pub open spec fn spec_ascii_upper(c: char) -> char {
    if 'a' <= c && c <= 'z' {
        ((c as u8 - 32) as u8) as char
    } else {
        c
    }
}

/// The upper-case form of an ASCII letter; any other character unchanged.
pub fn ascii_upper(c: char) -> (upper: char)
    ensures
        upper == spec_ascii_upper(c),
{
    if 'a' <= c && c <= 'z' {
        let code: u8 = c as u8;
        (code - 32) as char
    } else {
        c
    }
}

} // verus!
