//! Numbers as decimal text, and the few string operations the menu needs.

use vstd::prelude::*;
use vstd::string::*;

verus! {

/// The decimal digit for `d`, which is below ten.
pub open spec fn digit_char(d: nat) -> char {
    ('0' as nat + d) as char
}

/// The value of a decimal digit.
pub open spec fn digit_value(c: char) -> nat {
    (c as nat - '0' as nat) as nat
}

pub open spec fn is_digit(c: char) -> bool {
    '0' <= c <= '9'
}

/// `n` in decimal, without leading zeros.
pub open spec fn decimal(n: nat) -> Seq<char>
    decreases n,
{
    if n < 10 {
        seq![digit_char(n)]
    } else {
        decimal(n / 10).push(digit_char(n % 10))
    }
}

/// `n` in decimal, with a minus sign where it is negative.
pub open spec fn signed_decimal(n: int) -> Seq<char> {
    if n < 0 {
        seq!['-'] + decimal((-n) as nat)
    } else {
        decimal(n as nat)
    }
}

/// `n` in decimal, on at least two places.
pub open spec fn two_places(n: nat) -> Seq<char> {
    if n < 10 {
        seq!['0'] + decimal(n)
    } else {
        decimal(n)
    }
}

/// The number that a string of digits stands for.
pub open spec fn value_of(digits: Seq<char>) -> nat
    decreases digits.len(),
{
    if digits.len() == 0 {
        0
    } else {
        value_of(digits.drop_last()) * 10 + digit_value(digits.last())
    }
}

pub open spec fn all_digits(s: Seq<char>) -> bool {
    forall|i: int| 0 <= i < s.len() ==> is_digit(#[trigger] s[i])
}

/// `s` without one leading plus sign.
pub open spec fn without_plus(s: Seq<char>) -> Seq<char> {
    if s.len() > 0 && s[0] == '+' {
        s.skip(1)
    } else {
        s
    }
}

/// The `u64` that `s` spells: decimal digits, at least one, after an optional plus sign, and
/// no more than fits.
pub open spec fn u64_spelled(s: Seq<char>) -> Option<u64> {
    let digits = without_plus(s);
    if digits.len() > 0 && all_digits(digits) && value_of(digits) <= u64::MAX {
        Some(value_of(digits) as u64)
    } else {
        None
    }
}

/// What follows `prefix` in `s`.
pub open spec fn after_prefix(s: Seq<char>, prefix: Seq<char>) -> Option<Seq<char>> {
    if prefix.is_prefix_of(s) {
        Some(s.skip(prefix.len() as int))
    } else {
        None
    }
}

/// Reading back a number that was written in decimal gives the number.
pub proof fn law_decimal_reads_back(n: nat)
    ensures
        decimal(n).len() > 0,
        all_digits(decimal(n)),
        value_of(decimal(n)) == n,
    decreases n,
{
    if n >= 10 {
        law_decimal_reads_back(n / 10);
        assert(decimal(n).drop_last() =~= decimal(n / 10));
    } else {
        assert(decimal(n).drop_last() =~= Seq::<char>::empty());
        assert(value_of(Seq::<char>::empty()) == 0);
    }
}

/// Every `u64` written in decimal is read back as itself.
pub proof fn law_u64_round_trip(n: u64)
    ensures
        u64_spelled(decimal(n as nat)) == Some(n),
{
    law_decimal_reads_back(n as nat);
    assert(is_digit(decimal(n as nat)[0]));
}

proof fn lemma_value_grows(s: Seq<char>, k: int)
    requires
        0 <= k <= s.len(),
    ensures
        value_of(s.take(k)) <= value_of(s),
    decreases s.len() - k,
{
    if k < s.len() {
        lemma_value_grows(s, k + 1);
        assert(s.take(k + 1).drop_last() =~= s.take(k));
    } else {
        assert(s.take(k) =~= s);
    }
}

fn digit_text(d: u64) -> (text: &'static str)
    requires
        d < 10,
    ensures
        text@ == seq![digit_char(d as nat)],
{
    let text = if d == 0 {
        "0"
    } else if d == 1 {
        "1"
    } else if d == 2 {
        "2"
    } else if d == 3 {
        "3"
    } else if d == 4 {
        "4"
    } else if d == 5 {
        "5"
    } else if d == 6 {
        "6"
    } else if d == 7 {
        "7"
    } else if d == 8 {
        "8"
    } else {
        "9"
    };
    proof {
        reveal_strlit("0");
        reveal_strlit("1");
        reveal_strlit("2");
        reveal_strlit("3");
        reveal_strlit("4");
        reveal_strlit("5");
        reveal_strlit("6");
        reveal_strlit("7");
        reveal_strlit("8");
        reveal_strlit("9");
    }
    text
}

/// Appends `n` in decimal.
pub fn push_decimal(out: &mut String, n: u64)
    ensures
        final(out)@ == old(out)@ + decimal(n as nat),
    decreases n,
{
    if n >= 10 {
        push_decimal(out, n / 10);
    }
    let digit = digit_text(n % 10);
    out.append(digit);
}

/// Appends `n` in decimal, with its sign.
pub fn push_signed_decimal(out: &mut String, n: i64)
    ensures
        final(out)@ == old(out)@ + signed_decimal(n as int),
{
    if n < 0 {
        proof {
            reveal_strlit("-");
        }
        out.append("-");
        push_decimal(out, (-(n + 1)) as u64 + 1);
    } else {
        push_decimal(out, n as u64);
    }
}

/// Appends `n` in decimal, on at least two places.
pub fn push_two_places(out: &mut String, n: u64)
    ensures
        final(out)@ == old(out)@ + two_places(n as nat),
{
    if n < 10 {
        proof {
            reveal_strlit("0");
        }
        out.append("0");
    }
    push_decimal(out, n);
}

/// Whether the two hold the same characters.
pub fn same_text(a: &str, b: &str) -> (same: bool)
    ensures
        same == (a@ == b@),
{
    a.to_owned() == b.to_owned()
}

/// What follows `prefix` in `s`, if `s` begins with it.
pub fn strip_prefix<'a>(s: &'a str, prefix: &str) -> (rest: Option<&'a str>)
    ensures
        match rest {
            Some(rest) => after_prefix(s@, prefix@) == Some(rest@),
            None => after_prefix(s@, prefix@) is None,
        },
{
    let n: usize = prefix.unicode_len();
    let len: usize = s.unicode_len();
    if len < n {
        return None;
    }
    if same_text(s.substring_char(0, n), prefix) {
        Some(s.substring_char(n, len))
    } else {
        None
    }
}

/// Reads a `u64` in decimal.
pub fn parse_u64(s: &str) -> (n: Option<u64>)
    ensures
        n == u64_spelled(s@),
{
    let len: usize = s.unicode_len();
    let start: usize = if len > 0 && s.get_char(0) == '+' {
        1
    } else {
        0
    };
    let ghost digits = without_plus(s@);
    assert(digits =~= s@.skip(start as int));
    if len == start {
        return None;
    }
    let mut value: u64 = 0;
    let mut i: usize = start;
    assert(digits.take(0) =~= Seq::<char>::empty());
    while i < len
        invariant
            start <= i <= len,
            len == s@.len(),
            digits == s@.skip(start as int),
            digits == without_plus(s@),
            forall|k: int| 0 <= k < i - start ==> is_digit(#[trigger] digits[k]),
            value == value_of(digits.take(i - start)),
        decreases len - i,
    {
        let c = s.get_char(i);
        assert(c == digits[i - start]);
        if c < '0' || c > '9' {
            return None;
        }
        let d: u64 = (c as u32 - '0' as u32) as u64;
        proof {
            let k = i - start;
            assert(digits.take(k + 1).drop_last() =~= digits.take(k));
            assert(digits.take(k + 1).last() == c);
            lemma_value_grows(digits, k + 1);
        }
        if value > (u64::MAX - d) / 10 {
            return None;
        }
        value = value * 10 + d;
        i = i + 1;
    }
    assert(digits.take(len - start) =~= digits);
    Some(value)
}

} // verus!
