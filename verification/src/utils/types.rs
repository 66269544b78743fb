//! Names of enum variants as configuration keywords.

use vstd::prelude::*;
use crate::utils::chars::{ascii_upper, char_is_uppercase, chars_of, is_uppercase, spec_ascii_upper, string_of};

verus! {

/// What one character of a name contributes to the keyword: itself with
/// ASCII letters in upper case, after an underscore where it is an
/// upper-case character and not the first.
pub open spec fn spec_keyword_piece(c: char, first: bool) -> Seq<char> {
    if char_is_uppercase(c) && !first {
        seq!['_', spec_ascii_upper(c)]
    } else {
        seq![spec_ascii_upper(c)]
    }
}

/// The keyword of a name written in camel case: `NavierStokes` gives
/// `NAVIER_STOKES`.
pub open spec fn spec_keyword(name: Seq<char>) -> Seq<char>
    decreases name.len(),
{
    if name.len() == 0 {
        Seq::empty()
    } else {
        spec_keyword(name.drop_last()) + spec_keyword_piece(name.last(), name.len() == 1)
    }
}

/// The keyword of a name written in camel case: every character with its
/// ASCII letters in upper case, and an underscore before each upper-case
/// character but the first of the name.
pub fn keyword(name: &str) -> (word: String)
    ensures
        word@ == spec_keyword(name@),
{
    let chars = chars_of(name);
    let mut word: Vec<char> = Vec::new();
    let mut i: usize = 0;
    while i < chars.len()
        invariant
            i <= chars.len(),
            word@ == spec_keyword(chars@.take(i as int)),
        decreases chars.len() - i,
    {
        let c = chars[i];
        if is_uppercase(c) && i > 0 {
            word.push('_');
        }
        word.push(ascii_upper(c));
        proof {
            let upto = chars@.take(i as int + 1);
            assert(upto.drop_last() == chars@.take(i as int));
            assert(upto.last() == c);
        }
        i += 1;
    }
    proof {
        assert(chars@.take(i as int) == chars@);
    }
    string_of(&word)
}

/// The text by which a value shows itself for debugging (`{:?}`). It is
/// whatever the type's implementation writes.
#[verifier::external_body]
fn debug_text<T: core::fmt::Debug>(value: &T) -> (text: String) {
    format!("{:?}", value)
}

/// The keyword of an enum variant, from the name under which it shows
/// itself for debugging. For a variant without fields that name is the
/// variant's; what a type writes there is its own affair, so the result is
/// the keyword of some text.
pub fn variant_name_upper<T: core::fmt::Debug>(variant: &T) -> (word: String)
    ensures
        exists|name: Seq<char>| word@ == spec_keyword(name),
{
    let name = debug_text(variant);
    keyword(name.as_str())
}

} // verus!
