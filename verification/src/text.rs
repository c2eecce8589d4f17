//! Small operations on strings, all counted in characters.

use vstd::prelude::*;
use vstd::string::*;
use vstd::utf8::encode_utf8;

verus! {

/// The character that shows the digit `d`.
pub open spec fn digit(d: nat) -> char
    recommends
        d < 10,
{
    (48 + d) as u8 as char
}

/// The number `n` written in base ten, without leading zeros.
pub open spec fn decimal(n: nat) -> Seq<char>
    decreases n,
{
    if n < 10 {
        seq![digit(n)]
    } else {
        decimal(n / 10).push(digit(n % 10))
    }
}

/// Calls `String::push`, which appends one character and changes nothing
/// else. As with vstd's own string functions, running out of memory is not
/// modelled.
#[verifier::external_body]
pub(crate) fn push_char(s: &mut String, c: char)
    ensures
        final(s)@ == old(s)@.push(c),
{
    s.push(c)
}

/// Calls `String::pop`, which removes the last character and returns it,
/// and returns `None` and changes nothing when the string is empty.
#[verifier::external_body]
pub(crate) fn pop_char(s: &mut String) -> (c: Option<char>)
    ensures
        old(s)@.len() == 0 ==> c.is_none() && final(s)@ == old(s)@,
        old(s)@.len() > 0 ==> c == Some(old(s)@.last()) && final(s)@ == old(s)@.drop_last(),
{
    s.pop()
}

/// A text has no more characters than bytes.
pub proof fn lemma_chars_fit_in_bytes(s: Seq<char>)
    ensures
        s.len() <= encode_utf8(s).len(),
    decreases s.len(),
{
    if s.len() > 0 {
        lemma_chars_fit_in_bytes(s.drop_first());
    }
}

/// The decimal digit `d` as a character.
pub fn digit_char(d: u8) -> (c: char)
    requires
        d < 10,
    ensures
        c == digit(d as nat),
{
    (48u8 + d) as char
}

/// Writes `n` in base ten.
pub fn format_decimal(n: u128) -> (s: String)
    ensures
        s@ == decimal(n as nat),
    decreases n,
{
    if n < 10 {
        let mut s = String::new();
        push_char(&mut s, digit_char(n as u8));
        assert(s@ =~= seq![digit(n as nat)]);
        s
    } else {
        let mut s = format_decimal(n / 10);
        push_char(&mut s, digit_char((n % 10) as u8));
        s
    }
}

/// The characters of `s` from position `from` up to, not including,
/// position `to`, as a string of their own.
pub fn slice_chars(s: &str, from: usize, to: usize) -> (r: String)
    requires
        from <= to <= s@.len(),
    ensures
        r@ == s@.subrange(from as int, to as int),
{
    String::from_str(s.substring_char(from, to))
}

/// Puts `c` into `s` before the character at position `at`; with `at` the
/// length of `s`, at its end.
pub fn insert_char_at(s: &mut String, at: usize, c: char)
    requires
        at <= old(s)@.len(),
    ensures
        final(s)@ == old(s)@.insert(at as int, c),
{
    let n: usize = s.as_str().unicode_len();
    let mut out = slice_chars(s.as_str(), 0, at);
    push_char(&mut out, c);
    out.append(s.as_str().substring_char(at, n));
    assert(out@ =~= s@.insert(at as int, c));
    *s = out;
}

/// Takes the character at position `at` out of `s`.
pub fn remove_char_at(s: &mut String, at: usize)
    requires
        at < old(s)@.len(),
    ensures
        final(s)@ == old(s)@.remove(at as int),
{
    let n: usize = s.as_str().unicode_len();
    let mut out = slice_chars(s.as_str(), 0, at);
    out.append(s.as_str().substring_char(at + 1, n));
    assert(out@ =~= s@.remove(at as int));
    *s = out;
}

} // verus!
