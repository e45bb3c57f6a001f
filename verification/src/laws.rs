//! What the library promises, said of what goes into its functions and what comes out.
//!
//! A law here takes what a call may return, by its contract, and says in plain terms what that
//! amounts to: which numbers a text reads as, which calls reach the operating system, how much
//! time is left.

use vstd::prelude::*;

pub mod awake;
pub mod kernel;
pub mod menu;

use crate::text::{parse_u64, push_decimal, push_signed_decimal, push_two_places};
use crate::time::{Duration, Instant};

verus! {

// ---------------------------------------------------------------------------
// Numbers as text
// ---------------------------------------------------------------------------

/// Whether there is nothing but decimal digits in `t`.
pub open spec fn digits(t: Seq<char>) -> bool {
    forall|i: int| 0 <= i < t.len() ==> '0' <= #[trigger] t[i] && t[i] <= '9'
}

/// What `t` reads as in decimal.
pub open spec fn reads(t: Seq<char>) -> int
    decreases t.len(),
{
    if t.len() == 0 {
        0
    } else {
        reads(t.drop_last()) * 10 + (t.last() as int - 48)
    }
}

/// Whether `t` is `n` in decimal as people write it: digits that read as `n`, with no zero in
/// front.
pub open spec fn plain_number(t: Seq<char>, n: int) -> bool {
    &&& t.len() > 0
    &&& digits(t)
    &&& reads(t) == n
    &&& t.len() > 1 ==> t[0] != '0'
}

proof fn lemma_reads_is_value(t: Seq<char>)
    requires
        digits(t),
    ensures
        reads(t) == crate::text::value_of(t),
        crate::text::all_digits(t),
    decreases t.len(),
{
    if t.len() > 0 {
        let front = t.drop_last();
        assert(forall|i: int| 0 <= i < front.len() ==> front[i] == t[i]);
        lemma_reads_is_value(front);
        assert('0' <= t[t.len() - 1]);
    }
}

pub(crate) proof fn lemma_decimal_is_plain(n: nat)
    ensures
        plain_number(crate::text::decimal(n), n as int),
    decreases n,
{
    let t = crate::text::decimal(n);
    crate::text::law_decimal_reads_back(n);
    assert(digits(t)) by {
        assert forall|i: int| 0 <= i < t.len() implies '0' <= #[trigger] t[i] && t[i] <= '9' by {
            assert(crate::text::is_digit(t[i]));
        }
    }
    lemma_reads_is_value(t);
    if n >= 10 {
        lemma_decimal_is_plain(n / 10);
        assert(t.drop_last() =~= crate::text::decimal(n / 10));
        assert(t[0] == t.drop_last()[0]);
        if n / 10 < 10 {
            assert(t[0] == crate::text::digit_char(n / 10));
            assert(t[0] as int == 48 + n / 10);
        } else {
            crate::text::law_decimal_reads_back((n / 10) / 10);
            assert(crate::text::decimal(n / 10).len() > 1);
        }
    }
}

/// Appending a number appends its decimal form: no zero in front, and it reads as the number.
pub proof fn law_number_is_appended_in_decimal(before: String, n: u64, after: String)
    requires
        exists|out: &mut String|
            *out == before && *final(out) == after && #[trigger] call_ensures(
                push_decimal,
                (out, n),
                (),
            ),
    ensures
        after@.len() > before@.len(),
        after@.take(before@.len() as int) == before@,
        plain_number(after@.skip(before@.len() as int), n as int),
{
    lemma_decimal_is_plain(n as nat);
    let t = crate::text::decimal(n as nat);
    assert(after@ =~= before@ + t);
    assert(after@.skip(before@.len() as int) =~= t);
    assert(after@.take(before@.len() as int) =~= before@);
}

/// Appending a signed number appends a minus sign exactly if it is negative, and then its
/// decimal form.
pub proof fn law_signed_number_is_appended_in_decimal(before: String, n: i64, after: String)
    requires
        exists|out: &mut String|
            *out == before && *final(out) == after && #[trigger] call_ensures(
                push_signed_decimal,
                (out, n),
                (),
            ),
    ensures
        after@.len() > before@.len(),
        after@.take(before@.len() as int) == before@,
        signed_number(after@.skip(before@.len() as int), n as int),
{
    let t = crate::text::signed_decimal(n as int);
    lemma_signed_is_signed(n as int);
    assert(after@ =~= before@ + t);
    assert(after@.skip(before@.len() as int) =~= t);
    assert(after@.take(before@.len() as int) =~= before@);
}

/// Whether `t` is `n` in decimal, with a minus sign exactly if it is negative.
pub open spec fn signed_number(t: Seq<char>, n: int) -> bool {
    if n < 0 {
        t.len() > 0 && t[0] == '-' && plain_number(t.skip(1), -n)
    } else {
        plain_number(t, n)
    }
}

pub(crate) proof fn lemma_signed_is_signed(n: int)
    ensures
        signed_number(crate::text::signed_decimal(n), n),
{
    if n < 0 {
        lemma_decimal_is_plain((-n) as nat);
        assert(crate::text::signed_decimal(n).skip(1) =~= crate::text::decimal((-n) as nat));
    } else {
        lemma_decimal_is_plain(n as nat);
    }
}

/// Whether `t` is `n` on two places: two digits that read as `n`.
pub open spec fn two_digits(t: Seq<char>, n: int) -> bool {
    t.len() == 2 && digits(t) && reads(t) == n
}

pub(crate) proof fn lemma_two_places(n: nat)
    requires
        n < 100,
    ensures
        two_digits(crate::text::two_places(n), n as int),
{
    let t = crate::text::two_places(n);
    lemma_decimal_is_plain(n);
    if n < 10 {
        let d = crate::text::decimal(n);
        assert(d.drop_last() =~= Seq::<char>::empty());
        assert(t.drop_last() =~= seq!['0']);
        assert(t.drop_last().drop_last() =~= Seq::<char>::empty());
        assert(reads(Seq::<char>::empty()) == 0);
        assert(reads(seq!['0']) == 0);
        assert(t.last() == d.last());
        assert(t[0] == '0' && t[1] == d[0]);
    } else {
        assert(crate::text::decimal(n / 10).len() == 1);
    }
}

/// Appending a number on two places appends two digits that read as it, or all of its digits
/// where it has more.
pub proof fn law_padded_number_is_appended(before: String, n: u64, after: String)
    requires
        exists|out: &mut String|
            *out == before && *final(out) == after && #[trigger] call_ensures(
                push_two_places,
                (out, n),
                (),
            ),
    ensures
        after@.len() > before@.len(),
        after@.take(before@.len() as int) == before@,
        n < 100 ==> two_digits(after@.skip(before@.len() as int), n as int),
        n >= 100 ==> plain_number(after@.skip(before@.len() as int), n as int),
{
    let t = crate::text::two_places(n as nat);
    if n < 100 {
        lemma_two_places(n as nat);
    }
    lemma_decimal_is_plain(n as nat);
    assert(after@ =~= before@ + t);
    assert(after@.skip(before@.len() as int) =~= t);
    assert(after@.take(before@.len() as int) =~= before@);
}

/// Whether `t` spells `n`: digits that read as `n`, at least one, after at most one plus sign.
pub open spec fn spells(t: Seq<char>, n: int) -> bool {
    let d = if t.len() > 0 && t[0] == '+' {
        t.skip(1)
    } else {
        t
    };
    d.len() > 0 && digits(d) && reads(d) == n
}

pub(crate) proof fn lemma_spelled(t: Seq<char>)
    ensures
        forall|n: u64| crate::text::u64_spelled(t) == Some(n) <==> #[trigger] spells(t, n as int),
{
    let d = crate::text::without_plus(t);
    if crate::text::all_digits(d) {
        assert(digits(d)) by {
            assert forall|i: int| 0 <= i < d.len() implies '0' <= #[trigger] d[i] && d[i]
                <= '9' by {
                assert(crate::text::is_digit(d[i]));
            }
        }
        lemma_reads_is_value(d);
    } else {
        if digits(d) {
            lemma_reads_is_value(d);
        }
    }
}

/// A text is read as a number exactly if it spells one that fits, and as that number.
pub proof fn law_number_is_read_as_spelled(text: &str, n: Option<u64>)
    requires
        call_ensures(parse_u64, (text,), n),
    ensures
        forall|k: u64| n == Some(k) <==> #[trigger] spells(text@, k as int),
{
    lemma_spelled(text@);
}

/// What follows a prefix: exactly the rest of a text that begins with it.
pub proof fn law_prefix_is_stripped(text: &str, prefix: &str, rest: Option<&str>)
    requires
        call_ensures(crate::text::strip_prefix, (text, prefix), rest),
    ensures
        match rest {
            Some(rest) => text@ == prefix@ + rest@,
            None => forall|r: Seq<char>| text@ != #[trigger] (prefix@ + r),
        },
{
    match rest {
        Some(rest) => {
            assert(text@ =~= prefix@ + rest@);
        },
        None => {
            assert forall|r: Seq<char>| text@ != #[trigger] (prefix@ + r) by {
                if text@ == prefix@ + r {
                    assert(prefix@.is_prefix_of(text@));
                }
            }
        },
    }
}

/// Two texts are the same exactly if they hold the same characters.
pub proof fn law_same_text(a: &str, b: &str, same: bool)
    requires
        call_ensures(crate::text::same_text, (a, b), same),
    ensures
        same <==> a@ == b@,
{
}

// ---------------------------------------------------------------------------
// Time
// ---------------------------------------------------------------------------

/// A span made of seconds and nanoseconds gives them back, and whole seconds are a span with no
/// nanoseconds.
pub proof fn law_span_gives_back_its_parts(
    secs: u64,
    nanos: u32,
    d: Duration,
    whole: Duration,
    s: u64,
    n: u32,
)
    requires
        nanos < 1_000_000_000,
        call_ensures(Duration::new, (secs, nanos), d),
        call_ensures(Duration::as_secs, (&d,), s),
        call_ensures(Duration::subsec_nanos, (&d,), n),
        call_ensures(Duration::from_secs, (secs,), whole),
    ensures
        s == secs,
        n == nanos,
        d@ == secs * 1_000_000_000 + nanos,
        whole@ == secs * 1_000_000_000,
{
}

/// Adding a span and taking it off again gives the span that was there; taking off more than
/// there is leaves nothing. Spans are compared by their length.
pub proof fn law_spans_add_and_subtract(
    a: Duration,
    b: Duration,
    sum: Duration,
    left: Duration,
    short: Duration,
    at_least: bool,
    zero: bool,
)
    requires
        call_ensures(Duration::plus, (&a, b), sum),
        call_ensures(Duration::saturating_sub, (&sum, b), left),
        call_ensures(Duration::saturating_sub, (&a, b), short),
        call_ensures(Duration::at_least, (&a, b), at_least),
        call_ensures(Duration::is_zero, (&a,), zero),
    ensures
        left@ == a@,
        sum@ == a@ + b@,
        a@ >= b@ ==> short@ + b@ == a@,
        a@ < b@ ==> short@ == 0,
        at_least <==> a@ >= b@,
        zero <==> a@ == 0,
{
}

/// How far a reading is past an earlier one: together they make the later; never below zero.
pub proof fn law_time_between_readings(earlier: Instant, later: Instant, d: Duration)
    requires
        call_ensures(Instant::saturating_duration_since, (&later, earlier), d),
    ensures
        later@ >= earlier@ ==> earlier@ + d@ == later@,
        later@ < earlier@ ==> d@ == 0,
{
}

/// A clock at some distance from its origin reads that distance.
pub proof fn law_reading_is_at_its_distance(since_origin: Duration, t: Instant)
    requires
        call_ensures(Instant::at, (since_origin,), t),
    ensures
        t@ == since_origin@,
{
}

} // verus!
