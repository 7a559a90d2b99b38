//! The monotonic clock that times a match, and the clock-face text of a duration.

use vstd::prelude::*;
use std::time::{Duration, Instant};

verus! {

/// `std::time::Instant`, carried through the state as an opaque value.
#[verifier::external_type_specification]
#[verifier::external_body]
pub struct ExInstant(Instant);

/// Calls `Instant::now`. Nothing is claimed of the result: it is whatever the
/// monotonic clock reads at the call.
#[verifier::external_body]
pub(crate) fn instant_now() -> Instant {
    Instant::now()
}

/// The time from `earlier` to `later`, zero when `later` is not after it, as
/// `Instant::saturating_duration_since` returns it.
pub uninterp spec fn duration_between(later: Instant, earlier: Instant) -> Duration;

/// Calls `Instant::saturating_duration_since`. The contract claims that the
/// result is the duration named `duration_between` of the two instants, and no
/// more. (`Instant::elapsed` is this call with the clock's current reading.)
#[verifier::external_body]
pub(crate) fn duration_since(later: &Instant, earlier: &Instant) -> (d: Duration)
    ensures
        d == duration_between(*later, *earlier),
{
    later.saturating_duration_since(*earlier)
}

/// The number of whole seconds in a duration, as `Duration::as_secs` returns it.
pub uninterp spec fn duration_whole_secs(d: Duration) -> u64;

/// Calls `Duration::as_secs`. The contract claims that the result is the number
/// named `duration_whole_secs` of the argument, and no more.
#[verifier::external_body]
pub(crate) fn duration_as_secs(d: &Duration) -> (secs: u64)
    ensures
        secs == duration_whole_secs(*d),
{
    d.as_secs()
}

/// The decimal digit `d` (0 to 9) as a character.
pub open spec fn digit_char(d: int) -> char {
    (d + 48) as char
}

/// The decimal text of `n`, without leading zeros.
pub open spec fn decimal(n: nat) -> Seq<char>
    decreases n,
{
    if n < 10 {
        seq![digit_char(n as int)]
    } else {
        decimal(n / 10) + seq![digit_char((n % 10) as int)]
    }
}

/// The two-digit, zero-padded decimal text of `n` (below 100).
pub open spec fn two_digits(n: nat) -> Seq<char> {
    seq![digit_char((n / 10) as int), digit_char((n % 10) as int)]
}

/// A duration of `total` seconds as a clock: `MM:SS` under an hour,
/// `H:MM:SS` (hours unpadded) from an hour on.
pub open spec fn clock_text(total: nat) -> Seq<char> {
    let hours = total / 3600;
    let mins = (total % 3600) / 60;
    let secs = total % 60;
    if hours > 0 {
        decimal(hours) + seq![':'] + two_digits(mins) + seq![':'] + two_digits(secs)
    } else {
        two_digits(mins) + seq![':'] + two_digits(secs)
    }
}

fn digit_str(d: u64) -> (r: &'static str)
    requires
        d < 10,
    ensures
        r@ == seq![digit_char(d as int)],
{
    proof {
        reveal_strlit("0");
        reveal_strlit("1");
        reveal_strlit("2");
        reveal_strlit("3");
        reveal_strlit("4");
        reveal_strlit("5");
        reveal_strlit("6");
        reveal_strlit("7");
        reveal_strlit("8");
        reveal_strlit("9");
    }
    let r = if d == 0 {
        "0"
    } else if d == 1 {
        "1"
    } else if d == 2 {
        "2"
    } else if d == 3 {
        "3"
    } else if d == 4 {
        "4"
    } else if d == 5 {
        "5"
    } else if d == 6 {
        "6"
    } else if d == 7 {
        "7"
    } else if d == 8 {
        "8"
    } else {
        "9"
    };
    assert(r@ =~= seq![digit_char(d as int)]);
    r
}

fn append_decimal(out: &mut String, n: u64)
    ensures
        final(out)@ == old(out)@ + decimal(n as nat),
    decreases n,
{
    if n >= 10 {
        append_decimal(out, n / 10);
    }
    out.append(digit_str(n % 10));
    assert(final(out)@ =~= old(out)@ + decimal(n as nat));
}

fn append_two_digits(out: &mut String, n: u64)
    requires
        n < 100,
    ensures
        final(out)@ == old(out)@ + two_digits(n as nat),
{
    out.append(digit_str(n / 10));
    out.append(digit_str(n % 10));
    assert(final(out)@ =~= old(out)@ + two_digits(n as nat));
}

/// Renders `total` seconds as a clock (see `clock_text`).
pub fn format_elapsed_secs(total: u64) -> (r: String)
    ensures
        r@ == clock_text(total as nat),
{
    let hours = total / 3600;
    let mins = (total % 3600) / 60;
    let secs = total % 60;
    proof {
        reveal_strlit(":");
    }
    let mut out = String::new();
    if hours > 0 {
        append_decimal(&mut out, hours);
        out.append(":");
    }
    append_two_digits(&mut out, mins);
    out.append(":");
    append_two_digits(&mut out, secs);
    assert(out@ =~= clock_text(total as nat));
    out
}

} // verus!
