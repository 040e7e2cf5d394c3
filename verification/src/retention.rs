//! How many package versions, or days of logs, to keep: the answer to a
//! prompt, read as an unsigned 16-bit decimal numeral with a default.

use crate::text::{chars_of, trim, trimmed};
use vstd::prelude::*;

verus! {

/// The decimal digits, `0` to `9` and no other.
pub open spec fn is_digit(c: char) -> bool {
    '0' <= c <= '9'
}

/// The number that a decimal digit denotes.
pub open spec fn digit_value(c: char) -> nat {
    (c as int - '0' as int) as nat
}

/// The number that a sequence of decimal digits denotes.
pub open spec fn digits_value(s: Seq<char>) -> nat
    decreases s.len(),
{
    if s.len() == 0 {
        0
    } else {
        digits_value(s.drop_last()) * 10 + digit_value(s.last())
    }
}

/// Whether `s` holds nothing but decimal digits.
pub open spec fn all_digits(s: Seq<char>) -> bool {
    forall|i: int| 0 <= i < s.len() ==> is_digit(#[trigger] s[i])
}

/// A numeral may start with one `+`; what follows it are the digits.
pub open spec fn unsigned_digits(s: Seq<char>) -> Seq<char> {
    if s.len() > 0 && s.first() == '+' {
        s.drop_first()
    } else {
        s
    }
}

/// The value of `s` as an unsigned 16-bit numeral: an optional `+`, then
/// at least one decimal digit and nothing else, the whole no larger than
/// 65535. Leading zeros are accepted.
pub open spec fn u16_of(s: Seq<char>) -> Option<u16> {
    let d = unsigned_digits(s);
    if d.len() > 0 && all_digits(d) && digits_value(d) <= u16::MAX {
        Some(digits_value(d) as u16)
    } else {
        None
    }
}

/// What is kept when the prompt is answered with nothing but white space.
pub open spec fn default_retention() -> Seq<char> {
    seq!['3']
}

/// The retention that `reply` asks for, as the text to hand on: the default
/// for a blank reply, the trimmed reply where it is a 16-bit numeral, and
/// nothing for any other reply.
pub open spec fn retention_of(reply: Seq<char>) -> Option<Seq<char>> {
    let t = trimmed(reply);
    if t.len() == 0 {
        Some(default_retention())
    } else if u16_of(t) is Some {
        Some(t)
    } else {
        None
    }
}

/// Reads `s` as an unsigned 16-bit decimal numeral.
pub fn parse_u16(s: &str) -> (r: Option<u16>)
    ensures
        r == u16_of(s@),
{
    let v = chars_of(s);
    let n = v.len();
    let start: usize = if n > 0 && v[0] == '+' {
        1
    } else {
        0
    };
    let ghost d = unsigned_digits(s@);
    assert(d =~= v@.skip(start as int));
    if start == n {
        return None;
    }
    let mut acc: u32 = 0;
    let mut i: usize = start;
    assert(d.take(0) =~= Seq::<char>::empty());
    while i < n
        invariant
            start <= i <= n,
            n == v@.len(),
            d == v@.skip(start as int),
            d == unsigned_digits(s@),
            all_digits(d.take(i - start)),
            acc == digits_value(d.take(i - start)),
            acc <= u16::MAX,
        decreases n - i,
    {
        let c = v[i];
        assert(d[i - start] == c);
        if !('0' <= c && c <= '9') {
            return None;
        }
        let next: u32 = acc * 10 + (c as u32 - '0' as u32);
        assert(d.take(i - start + 1).drop_last() =~= d.take(i - start));
        assert(next == digits_value(d.take(i - start + 1)));
        if next > 0xffff {
            proof {
                lemma_digits_value_prefix(d, i - start + 1);
            }
            return None;
        }
        acc = next;
        i += 1;
    }
    assert(d.take(n - start) =~= d);
    Some(acc as u16)
}

/// Decides what a reply to a retention prompt asks for.
pub fn retention<'a>(reply: &'a str) -> (kept: Option<&'a str>)
    ensures
        kept is Some <==> retention_of(reply@) is Some,
        kept matches Some(t) ==> retention_of(reply@) == Some(t@),
{
    let t = trim(reply);
    if t.is_empty() {
        proof {
            reveal_strlit("3");
            assert("3"@ =~= default_retention());
        }
        Some("3")
    } else if parse_u16(t).is_some() {
        Some(t)
    } else {
        None
    }
}

/// A numeral's value is at least that of each of its prefixes.
pub proof fn lemma_digits_value_prefix(s: Seq<char>, k: int)
    requires
        0 <= k <= s.len(),
    ensures
        digits_value(s.take(k)) <= digits_value(s),
    decreases s.len(),
{
    if k == s.len() {
        assert(s.take(k) =~= s);
    } else {
        lemma_digits_value_prefix(s.drop_last(), k);
        assert(s.drop_last().take(k) =~= s.take(k));
    }
}

} // verus!
