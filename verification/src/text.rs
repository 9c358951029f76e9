//! Small helpers over strings, seen as sequences of characters.

use vstd::prelude::*;
use vstd::string::StringExecFns;

verus! {

/// Appends one character with `String::push`, whose documentation says that
/// it appends the given character to the end of the string.
#[verifier::external_body]
pub(crate) fn push_char(text: &mut String, c: char)
    ensures
        final(text)@ == old(text)@.push(c),
{
    text.push(c);
}

/// One string after the other.
pub fn concat(a: &str, b: &str) -> (s: String)
    ensures
        s@ == a@ + b@,
{
    String::from_str(a).concat(b)
}

/// The lower-case form of an ASCII capital letter; every other character is
/// left as it is.
pub open spec fn lower_char(c: char) -> char {
    if 'A' <= c && c <= 'Z' {
        ((c as u8) + 32) as char
    } else {
        c
    }
}

/// A sequence of characters with its ASCII capital letters in lower case.
pub open spec fn lower(s: Seq<char>) -> Seq<char> {
    s.map_values(|c: char| lower_char(c))
}

/// Computes [`lower_char`].
pub fn to_lower_char(c: char) -> (r: char)
    ensures
        r == lower_char(c),
{
    if 'A' <= c && c <= 'Z' {
        ((c as u8) + 32) as char
    } else {
        c
    }
}

/// The characters of `chars` with the ASCII capital letters in lower case.
pub fn to_lower(chars: &Vec<char>) -> (r: Vec<char>)
    ensures
        r@ == lower(chars@),
{
    let mut r: Vec<char> = Vec::new();
    let mut i: usize = 0;
    while i < chars.len()
        invariant
            i <= chars.len(),
            r@ == lower(chars@.take(i as int)),
        decreases chars.len() - i,
    {
        r.push(to_lower_char(chars[i]));
        assert(lower(chars@.take(i + 1)) =~= lower(chars@.take(i as int)).push(
            lower_char(chars@[i as int]),
        ));
        i = i + 1;
    }
    assert(chars@.take(chars.len() as int) =~= chars@);
    r
}

/// The lower-case form of a string by the rules of Unicode: what
/// `str::to_lowercase` returns.
pub uninterp spec fn lowercased(s: Seq<char>) -> Seq<char>;

/// Turns a string into lower case with `str::to_lowercase`, which returns
/// the lower-case equivalent of the string as a new string, lower case being
/// that of the Unicode derived core property.
#[verifier::external_body]
pub(crate) fn to_lowercase(s: &str) -> (r: String)
    ensures
        r@ == lowercased(s@),
{
    s.to_lowercase()
}

/// Whether two strings hold the same characters.
pub fn same_text(a: &str, b: &str) -> (r: bool)
    ensures
        r == (a@ == b@),
{
    String::from_str(a) == String::from_str(b)
}

/// The decimal digit `d`, for `d` below ten.
pub open spec fn digit_char(d: int) -> char {
    (('0' as u8) + d) as char
}

/// A natural number in decimal, without leading zeros.
pub open spec fn decimal(n: nat) -> Seq<char>
    decreases n,
{
    if n < 10 {
        seq![digit_char(n as int)]
    } else {
        decimal(n / 10).push(digit_char((n % 10) as int))
    }
}

/// A number in decimal holds digits alone, and so no `/`.
pub proof fn lemma_decimal_has_no_separator(n: nat)
    ensures
        decimal(n).len() > 0,
        !decimal(n).contains('/'),
    decreases n,
{
    let digits = decimal(n);
    if n >= 10 {
        lemma_decimal_has_no_separator(n / 10);
        let front = decimal(n / 10);
        assert forall|i: int| 0 <= i < digits.len() implies digits[i] != '/' by {
            if i < front.len() {
                assert(front.contains(front[i]));
            }
        }
    } else {
        assert forall|i: int| 0 <= i < digits.len() implies digits[i] != '/' by {}
    }
}

/// Two strings without a character joined hold no such character.
pub proof fn lemma_concat_lacks(a: Seq<char>, b: Seq<char>, c: char)
    requires
        !a.contains(c),
        !b.contains(c),
    ensures
        !(a + b).contains(c),
{
    let whole = a + b;
    assert forall|i: int| 0 <= i < whole.len() implies whole[i] != c by {
        if i < a.len() {
            assert(a.contains(a[i]));
        } else {
            assert(b.contains(b[i - a.len()]));
        }
    }
}

/// Appends [`decimal`] of `n`.
pub fn push_decimal(text: &mut String, n: u64)
    ensures
        final(text)@ == old(text)@ + decimal(n as nat),
    decreases n,
{
    if n >= 10 {
        push_decimal(text, n / 10);
    }
    let d: u8 = (n % 10) as u8;
    push_char(text, (48u8 + d) as char);
    proof {
        if n >= 10 {
            assert(old(text)@ + decimal(n as nat) =~= (old(text)@ + decimal((n / 10) as nat)).push(
                digit_char((n % 10) as int),
            ));
        } else {
            assert(old(text)@ + decimal(n as nat) =~= old(text)@.push(digit_char(n as int)));
        }
    }
}

/// Appends a string slice.
pub fn push_text(text: &mut String, more: &str)
    ensures
        final(text)@ == old(text)@ + more@,
{
    text.append(more);
}

/// The characters of a string slice, in order.
pub fn chars_of(s: &str) -> (v: Vec<char>)
    ensures
        v@ == s@,
{
    let mut v: Vec<char> = Vec::new();
    for c in it: s.chars()
        invariant
            v@ == it.seq().take(it.index() as int),
            it.seq() == s@,
    {
        v.push(c);
    }
    v
}

/// The string that holds the given characters, in order.
pub fn string_of(chars: &Vec<char>) -> (s: String)
    ensures
        s@ == chars@,
{
    let mut s = String::new();
    let mut i: usize = 0;
    while i < chars.len()
        invariant
            i <= chars.len(),
            s@ == chars@.take(i as int),
        decreases chars.len() - i,
    {
        push_char(&mut s, chars[i]);
        i = i + 1;
    }
    s
}

} // verus!
