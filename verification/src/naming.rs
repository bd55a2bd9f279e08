//! Naming conventions: the camel-cased instance name of a model and the
//! kebab-cased stem of its file names.

use crate::text::{ascii_lower, lowercase_of, unicode_lowercase, unicode_uppercase};
use vstd::prelude::*;
use vstd::string::*;

verus! {

/// `s` with its first character replaced by `head`; the empty string stays
/// empty.
pub open spec fn replace_first(s: Seq<char>, head: Seq<char>) -> Seq<char> {
    if s.len() == 0 {
        Seq::empty()
    } else {
        head + s.skip(1)
    }
}

/// `s` with its first character lowercased, the rest untouched.
pub open spec fn lowercase_first(s: Seq<char>) -> Seq<char> {
    if s.len() == 0 {
        Seq::empty()
    } else {
        replace_first(s, unicode_lowercase(s[0]))
    }
}

/// What one character of a name contributes to its kebab-cased form: itself,
/// ASCII-folded to lower case, with a hyphen in front when it is an uppercase
/// character that does not start the name.
pub open spec fn kebab_piece(c: char, upper: bool, first: bool) -> Seq<char> {
    if upper && !first {
        seq!['-', ascii_lower(c)]
    } else {
        seq![ascii_lower(c)]
    }
}

/// The kebab-cased form of `s`: the pieces of its characters, in order.
pub open spec fn kebab_case(s: Seq<char>) -> Seq<char>
    decreases s.len(),
{
    if s.len() == 0 {
        Seq::empty()
    } else {
        kebab_case(s.drop_last()) + kebab_piece(
            s.last(),
            unicode_uppercase(s.last()),
            s.len() == 1,
        )
    }
}

/// The number of uppercase characters of `s` that do not start it.
pub open spec fn uppercase_behind_first(s: Seq<char>) -> nat
    decreases s.len(),
{
    if s.len() <= 1 {
        0
    } else {
        uppercase_behind_first(s.drop_last()) + if unicode_uppercase(s.last()) {
            1nat
        } else {
            0nat
        }
    }
}

/// Replaces the first character of `s` by `head`.
pub fn replace_first_char(s: &str, head: &str) -> (r: String)
    ensures
        r@ == replace_first(s@, head@),
{
    let n = s.unicode_len();
    if n == 0 {
        String::new()
    } else {
        let mut out = String::new();
        out.append(head);
        out.append(s.substring_char(1, n));
        out
    }
}

/// Lowercases the first character of `s`, as when the name of a model becomes
/// the name of an instance of it.
pub fn lowercase_first_char(s: &str) -> (r: String)
    ensures
        r@ == lowercase_first(s@),
{
    if s.unicode_len() == 0 {
        String::new()
    } else {
        let head = lowercase_of(s.get_char(0));
        replace_first_char(s, head.as_str())
    }
}

/// Appends the kebab-case piece of one character to `out`.
pub fn push_kebab_char(out: &mut String, c: char, upper: bool, first: bool)
    ensures
        final(out)@ == old(out)@ + kebab_piece(c, upper, first),
{
    if upper && !first {
        out.push('-');
    }
    out.push(c.to_ascii_lowercase());
}

/// The kebab-cased form of a Pascal-cased name, from which file names are
/// made.
pub fn to_kebab_case(name: &str) -> (r: String)
    ensures
        r@ == kebab_case(name@),
{
    let mut out = String::new();
    let mut first = true;
    for c in it: name.chars()
        invariant
            it.seq() == name@,
            first == (it.index() == 0),
            out@ == kebab_case(name@.take(it.index() as int)),
    {
        assert(name@.take(it.index() + 1).drop_last() =~= name@.take(it.index()));
        push_kebab_char(&mut out, c, c.is_uppercase(), first);
        first = false;
    }
    assert(name@.take(name@.len() as int) =~= name@);
    out
}

/// A name of one character is only folded to lower case.
pub proof fn lemma_kebab_single(c: char)
    ensures
        kebab_case(seq![c]) == seq![ascii_lower(c)],
{
    reveal_with_fuel(kebab_case, 2);
    assert(seq![c].drop_last() =~= Seq::<char>::empty());
    assert(Seq::<char>::empty() + seq![ascii_lower(c)] =~= seq![ascii_lower(c)]);
}

/// A name without an uppercase character gets no hyphen: it is only folded to
/// lower case, character by character.
pub proof fn lemma_kebab_without_uppercase(s: Seq<char>)
    requires
        forall|i: int| 0 <= i < s.len() ==> !unicode_uppercase(#[trigger] s[i]),
    ensures
        kebab_case(s) == s.map_values(|c: char| ascii_lower(c)),
    decreases s.len(),
{
    let fold = |c: char| ascii_lower(c);
    if s.len() == 0 {
        assert(kebab_case(s) =~= s.map_values(fold));
    } else {
        lemma_kebab_without_uppercase(s.drop_last());
        assert(s.drop_last().map_values(fold) + seq![ascii_lower(s.last())] =~= s.map_values(
            fold,
        ));
    }
}

/// The kebab-cased form is longer than the name by the number of uppercase
/// characters behind the first.
pub proof fn lemma_kebab_len(s: Seq<char>)
    ensures
        kebab_case(s).len() == s.len() + uppercase_behind_first(s),
    decreases s.len(),
{
    if s.len() > 0 {
        lemma_kebab_len(s.drop_last());
    }
}

} // verus!
