//! The building blocks of a statement's text: numbers in decimal notation,
//! placeholders, and lists with a separator.

use std::borrow::Cow;
use vstd::prelude::*;
use vstd::string::is_ascii;

verus! {

/// The character of one decimal digit.
pub open spec fn digit(d: nat) -> char
    recommends
        d < 10,
{
    seq!['0', '1', '2', '3', '4', '5', '6', '7', '8', '9'][d as int]
}

/// The decimal notation of a number, without sign or leading zeros.
pub open spec fn decimal(n: nat) -> Seq<char>
    decreases n,
{
    if n < 10 {
        seq![digit(n)]
    } else {
        decimal(n / 10).push(digit(n % 10))
    }
}

/// The placeholder that stands for the bound value number `n`.
pub open spec fn placeholder(n: nat) -> Seq<char> {
    seq!['$'] + decimal(n)
}

/// The numbers `first`, `first + 1`, ... of `n` placeholders in a row.
pub open spec fn numbers(first: nat, n: nat) -> Seq<nat> {
    Seq::new(n, |k: int| (first + k) as nat)
}

/// The items of `parts` in order, with `sep` between each two neighbours.
pub open spec fn joined(parts: Seq<Seq<char>>, sep: Seq<char>) -> Seq<char>
    decreases parts.len(),
{
    if parts.len() == 0 {
        Seq::empty()
    } else if parts.len() == 1 {
        parts[0]
    } else {
        joined(parts.drop_last(), sep) + sep + parts.last()
    }
}

/// The text of a name, as it is.
pub fn as_str<'a>(name: &'a Cow<'static, str>) -> (s: &'a str)
    ensures
        s@ == name@,
{
    match name {
        Cow::Borrowed(borrowed) => borrowed,
        Cow::Owned(owned) => owned.as_str(),
    }
}

/// One decimal digit as text.
fn digit_str(d: usize) -> (s: &'static str)
    requires
        d < 10,
    ensures
        s@ == seq![digit(d as nat)],
{
    let s = match d {
        0 => "0",
        1 => "1",
        2 => "2",
        3 => "3",
        4 => "4",
        5 => "5",
        6 => "6",
        7 => "7",
        8 => "8",
        _ => "9",
    };
    proof {
        reveal_strlit("0");
        reveal_strlit("1");
        reveal_strlit("2");
        reveal_strlit("3");
        reveal_strlit("4");
        reveal_strlit("5");
        reveal_strlit("6");
        reveal_strlit("7");
        reveal_strlit("8");
        reveal_strlit("9");
    }
    s
}

/// Renders a number in decimal notation.
pub fn decimal_string(n: usize) -> (s: String)
    ensures
        s@ == decimal(n as nat),
    decreases n,
{
    if n < 10 {
        digit_str(n).to_owned()
    } else {
        let mut s = decimal_string(n / 10);
        s.append(digit_str(n % 10));
        s
    }
}

/// Renders the placeholder of the bound value number `n`.
pub fn placeholder_string(n: usize) -> (s: String)
    ensures
        s@ == placeholder(n as nat),
{
    let mut s = String::new();
    s.push('$');
    s.append(decimal_string(n).as_str());
    s
}

/// Joins the strings of a vector with [`itertools::Itertools::join`].
///
/// Taken on trust, not proved: `join` writes each item as its `Display`
/// writes it, which for a string is the string itself, in the order of the
/// iterator, and writes the separator before each item but the first.
///
/// `join` multiplies the separator's length in bytes by the number of items
/// that follow the first. A vector of strings holds fewer than
/// `isize::MAX / 8` of them, so with a separator of at most eight bytes the
/// product fits.
#[verifier::external_body]
pub(crate) fn join(parts: &Vec<String>, sep: &str) -> (s: String)
    requires
        is_ascii(sep),
        sep@.len() <= 8,
    ensures
        s@ == joined(parts.deep_view(), sep@),
{
    itertools::Itertools::join(&mut parts.iter(), sep)
}

/// Taken on trust, not proved: `String::push` of std appends the character
/// to the end of the string.
pub assume_specification[ String::push ](s: &mut String, ch: char)
    ensures
        final(s)@ == old(s)@.push(ch),
;

} // verus!
