//! Specifications of the `std` character and string operations the generator
//! relies on, and the few lemmas about text that the builders share.

use vstd::prelude::*;

verus! {

/// Whether `c` has the Unicode `Uppercase` property, as `char::is_uppercase`
/// reports it.
pub uninterp spec fn unicode_uppercase(c: char) -> bool;

/// The lowercase mapping of `c`: the characters `char::to_lowercase` yields,
/// in order.
pub uninterp spec fn unicode_lowercase(c: char) -> Seq<char>;

/// ASCII case folding: `'A'..='Z'` go to `'a'..='z'`, every other character
/// stays as it is.
pub open spec fn ascii_lower(c: char) -> char {
    if 'A' <= c && c <= 'Z' {
        ((c as u8) + 32) as char
    } else {
        c
    }
}

/// `char::is_uppercase` decides the Unicode `Uppercase` property. The property
/// is a table of the Unicode standard, so the result is only named here.
pub assume_specification[ char::is_uppercase ](c: char) -> (r: bool)
    ensures
        r == unicode_uppercase(c),
;

/// `char::to_ascii_lowercase` maps the ASCII letters `'A'..='Z'` to
/// `'a'..='z'` and returns every other character unchanged.
pub assume_specification[ char::to_ascii_lowercase ](c: &char) -> (r: char)
    ensures
        r == ascii_lower(*c),
;

/// `String::push` appends the one character to the end of the string.
pub assume_specification[ String::push ](s: &mut String, c: char)
    ensures
        final(s)@ == old(s)@.push(c),
;

/// `str == str` holds exactly when both hold the same characters.
pub assume_specification[ <str as PartialEq>::eq ](a: &str, b: &str) -> (r: bool)
    ensures
        r == (a@ == b@),
;

/// `char::to_lowercase`, with the characters it yields collected into a
/// string. The mapping is a table of the Unicode standard, so the result is
/// only named here.
#[verifier::external_body]
pub(crate) fn lowercase_of(c: char) -> (r: String)
    ensures
        r@ == unicode_lowercase(c),
{
    c.to_lowercase().collect()
}

} // verus!
