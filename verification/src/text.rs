//! Characters and strings: the few notions of text that the map format, the
//! lookups and the configuration share.

use vstd::prelude::*;
use vstd::utf8::{decode_utf8, valid_utf8};

verus! {

/// Whether a character beyond ASCII has the Unicode property `White_Space`,
/// as `char::is_whitespace` reports it.
pub uninterp spec fn is_wide_whitespace(c: char) -> bool;

/// Whether `c` has the Unicode property `White_Space`. Within ASCII these
/// are the space and the characters from horizontal tab to carriage return;
/// beyond ASCII the property is known here by name only.
pub open spec fn is_whitespace(c: char) -> bool {
    if c <= '\x7f' {
        c == ' ' || ('\x09' <= c && c <= '\x0d')
    } else {
        is_wide_whitespace(c)
    }
}

/// The lower-case form of a text, as `str::to_lowercase` computes it.
pub uninterp spec fn lowercase(s: Seq<char>) -> Seq<char>;

/// The five characters that separate the tokens of a logical line: space,
/// horizontal tab, line feed, form feed and carriage return.
pub open spec fn is_ascii_whitespace(c: char) -> bool {
    c == ' ' || c == '\t' || c == '\n' || c == '\x0C' || c == '\r'
}

/// `c` with the letters `A` to `Z` mapped to `a` to `z`.
pub open spec fn ascii_lower(c: char) -> char {
    if 'A' <= c && c <= 'Z' {
        ((c as u8) + 32) as char
    } else {
        c
    }
}

/// Two texts are equal but for the case of their ASCII letters.
pub open spec fn eq_ignore_ascii_case(a: Seq<char>, b: Seq<char>) -> bool {
    &&& a.len() == b.len()
    &&& forall|i: int| 0 <= i < a.len() ==> ascii_lower(#[trigger] a[i]) == ascii_lower(b[i])
}

/// The texts of a sequence of strings.
pub open spec fn texts(v: Seq<String>) -> Seq<Seq<char>> {
    Seq::new(v.len(), |i: int| v[i]@)
}

/// Whether `c` is one of the digits `0` to `9`.
pub open spec fn is_digit(c: char) -> bool {
    '0' <= c && c <= '9'
}

/// Whether every character of a text is a digit.
pub open spec fn all_digits(digits: Seq<char>) -> bool {
    forall|i: int| 0 <= i < digits.len() ==> is_digit(#[trigger] digits[i])
}

/// The number that a sequence of digits denotes in base ten.
pub open spec fn digits_value(digits: Seq<char>) -> nat
    decreases digits.len(),
{
    if digits.len() == 0 {
        0
    } else {
        digits_value(digits.drop_last()) * 10 + ((digits.last() as u32 - '0' as u32) as nat)
    }
}

/// The number that a text denotes, as `u64::from_str` reads it: an optional
/// `+`, then one digit or more and nothing else, denoting a number that
/// fits in 64 bits.
pub open spec fn decimal_u64(s: Seq<char>) -> Option<u64> {
    let digits = if s.len() > 0 && s[0] == '+' {
        s.skip(1)
    } else {
        s
    };
    if digits.len() > 0 && all_digits(digits) && digits_value(digits) <= u64::MAX {
        Some(digits_value(digits) as u64)
    } else {
        None
    }
}

/// The first position at or after `from` that holds `sep`, or the length of
/// `s` where there is none.
pub open spec fn field_end(s: Seq<char>, sep: char, from: int) -> int
    decreases s.len() - from,
{
    if 0 <= from < s.len() && s[from] != sep {
        field_end(s, sep, from + 1)
    } else {
        from
    }
}

/// `String::push`. Trusted: the character is added at the end of the
/// string, which is otherwise left as it was.
pub assume_specification[ String::push ](s: &mut String, ch: char)
    ensures
        final(s)@ == old(s)@.push(ch),
;

/// Calls `char::is_whitespace`. Trusted: the answer is the `White_Space`
/// property of `c`. Within ASCII that is the space and the characters from
/// horizontal tab to carriage return; beyond ASCII this crate knows the
/// property by name only.
#[verifier::external_body]
pub(crate) fn char_is_whitespace(c: char) -> (b: bool)
    ensures
        b == is_whitespace(c),
        c > '\x7f' ==> b == is_wide_whitespace(c),
{
    c.is_whitespace()
}

/// Calls `str::to_lowercase`. Trusted: the result is the lower-case form of
/// `s`, which this crate only knows by name.
#[verifier::external_body]
pub(crate) fn to_lowercase(s: &str) -> (r: String)
    ensures
        r@ == lowercase(s@),
{
    s.to_lowercase()
}

/// Calls `str::eq_ignore_ascii_case`. Trusted: the two strings match when
/// they have the same characters once `A` to `Z` are mapped to `a` to `z`.
#[verifier::external_body]
pub(crate) fn str_eq_ignore_ascii_case(a: &str, b: &str) -> (r: bool)
    ensures
        r == eq_ignore_ascii_case(a@, b@),
{
    a.eq_ignore_ascii_case(b)
}

/// Calls `core::str::from_utf8`. Trusted: the bytes are accepted exactly when
/// they are valid UTF-8, and the string then holds the characters they
/// encode.
#[verifier::external_body]
pub(crate) fn str_from_utf8(bytes: &[u8]) -> (r: Option<&str>)
    ensures
        r.is_some() == valid_utf8(bytes@),
        r matches Some(s) ==> s@ == decode_utf8(bytes@),
{
    core::str::from_utf8(bytes).ok()
}

/// Calls `str::parse::<u64>`. Trusted: the text is accepted exactly when it
/// is an optional `+` followed by digits that denote a number of 64 bits,
/// and that number is returned. Of the text that describes a failure
/// nothing is claimed.
#[verifier::external_body]
pub(crate) fn parse_u64(s: &str) -> (r: Result<u64, String>)
    ensures
        match r {
            Ok(n) => decimal_u64(s@) == Some(n),
            Err(_) => decimal_u64(s@).is_none(),
        },
{
    match s.parse::<u64>() {
        Ok(n) => Ok(n),
        Err(e) => Err(format!("{:?}", e)),
    }
}

/// Whether two strings hold the same text.
pub(crate) fn str_eq(a: &str, b: &str) -> (r: bool)
    ensures
        r == (a@ == b@),
{
    let a = a.to_owned();
    let b = b.to_owned();
    a == b
}

/// The position of the next `sep` at or after `from`.
pub(crate) fn find_char(s: &[char], sep: char, from: usize) -> (end: usize)
    requires
        from <= s@.len(),
    ensures
        end == field_end(s@, sep, from as int),
        from <= end <= s@.len(),
{
    let mut i: usize = from;
    while i < s.len() && s[i] != sep
        invariant
            from <= i <= s@.len(),
            field_end(s@, sep, from as int) == field_end(s@, sep, i as int),
        decreases s@.len() - i,
    {
        i += 1;
    }
    i
}

/// The characters of a string, one by one.
pub(crate) fn chars_of(s: &str) -> (v: Vec<char>)
    ensures
        v@ == s@,
{
    let mut v: Vec<char> = Vec::new();
    for c in it: s.chars()
        invariant
            v@ == it.seq().take(it.index() as int),
            it.seq() == s@,
    {
        v.push(c);
    }
    v
}

/// The string that holds the given characters.
pub(crate) fn string_from_chars(chars: &[char]) -> (s: String)
    ensures
        s@ == chars@,
{
    let mut s = String::new();
    let mut i: usize = 0;
    while i < chars.len()
        invariant
            i <= chars@.len(),
            s@ == chars@.take(i as int),
        decreases chars@.len() - i,
    {
        s.push(chars[i]);
        i += 1;
        assert(chars@.take(i as int) =~= chars@.take(i - 1).push(chars@[i - 1]));
    }
    assert(chars@.take(i as int) =~= chars@);
    s
}

} // verus!
