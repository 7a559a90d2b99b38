//! What the clock-face text of a duration says, read back as numbers.

use vstd::prelude::*;

use crate::clock::{clock_text, decimal, digit_char, two_digits};

verus! {

/// A decimal digit character.
pub open spec fn is_digit(c: char) -> bool {
    '0' <= c && c <= '9'
}

/// The number written by a sequence of decimal digits (0 for none).
pub open spec fn digits_value(s: Seq<char>) -> int
    decreases s.len(),
{
    if s.len() == 0 {
        0
    } else {
        digits_value(s.drop_last()) * 10 + (s.last() as int - '0' as int)
    }
}

proof fn lemma_digit_char(d: int)
    requires
        0 <= d < 10,
    ensures
        is_digit(digit_char(d)),
        digit_char(d) as int - '0' as int == d,
        d > 0 ==> digit_char(d) != '0',
{
}

proof fn lemma_decimal(n: nat)
    ensures
        decimal(n).len() >= 1,
        forall|i: int| 0 <= i < decimal(n).len() ==> is_digit(#[trigger] decimal(n)[i]),
        digits_value(decimal(n)) == n,
        n > 0 ==> decimal(n)[0] != '0',
    decreases n,
{
    if n < 10 {
        lemma_digit_char(n as int);
        let d = decimal(n);
        assert(d.drop_last() =~= Seq::<char>::empty());
        assert(digits_value(d.drop_last()) == 0);
        assert(digits_value(d) == digits_value(d.drop_last()) * 10 + (d.last() as int - '0' as int));
    } else {
        lemma_decimal(n / 10);
        lemma_digit_char((n % 10) as int);
        let d = decimal(n);
        assert(d.drop_last() =~= decimal(n / 10));
        assert forall|i: int| 0 <= i < d.len() implies is_digit(#[trigger] d[i]) by {
            if i < d.len() - 1 {
                assert(d[i] == decimal(n / 10)[i]);
            }
        }
        assert(d[0] == decimal(n / 10)[0]);
        assert(digits_value(d) == digits_value(d.drop_last()) * 10 + (d.last() as int - '0' as int));
        assert(d.last() == digit_char((n % 10) as int));
        assert((n / 10) * 10 + n % 10 == n);
    }
}

proof fn lemma_two_digits(n: nat)
    requires
        n < 100,
    ensures
        two_digits(n).len() == 2,
        is_digit(two_digits(n)[0]),
        is_digit(two_digits(n)[1]),
        digits_value(two_digits(n)) == n,
{
    lemma_digit_char((n / 10) as int);
    lemma_digit_char((n % 10) as int);
    let t = two_digits(n);
    assert(t.drop_last() =~= seq![digit_char((n / 10) as int)]);
    assert(t.drop_last().drop_last() =~= Seq::<char>::empty());
    assert(digits_value(t.drop_last().drop_last()) == 0);
    assert(digits_value(t.drop_last()) == digits_value(t.drop_last().drop_last()) * 10 + (t[0] as int - '0' as int));
    assert(digits_value(t) == digits_value(t.drop_last()) * 10 + (t[1] as int - '0' as int));
    assert((n / 10) * 10 + n % 10 == n);
}

/// The clock text read back: under an hour it is two digits of minutes, a
/// colon and two digits of seconds; from an hour on it is the hours without a
/// leading zero, a colon, two digits of minutes, a colon and two digits of
/// seconds. Minutes and seconds are those left over after the whole hours and
/// minutes.
pub proof fn law_clock_text_reads_back(total: nat)
    ensures
        ({
            let t = clock_text(total);
            let n = t.len() as int;
            &&& total < 3600 ==> {
                &&& n == 5
                &&& t[2] == ':'
                &&& is_digit(t[0]) && is_digit(t[1]) && is_digit(t[3]) && is_digit(t[4])
                &&& digits_value(t.take(2)) == total / 60
                &&& digits_value(t.skip(3)) == total % 60
            }
            &&& total >= 3600 ==> {
                &&& n >= 7
                &&& t[n - 3] == ':'
                &&& t[n - 6] == ':'
                &&& t[0] != '0'
                &&& forall|i: int| 0 <= i < n - 6 ==> is_digit(#[trigger] t[i])
                &&& is_digit(t[n - 5]) && is_digit(t[n - 4]) && is_digit(t[n - 2]) && is_digit(t[n - 1])
                &&& digits_value(t.take(n - 6)) == total / 3600
                &&& digits_value(t.subrange(n - 5, n - 3)) == (total % 3600) / 60
                &&& digits_value(t.skip(n - 2)) == total % 60
            }
        }),
{
    let hours = total / 3600;
    let mins = (total % 3600) / 60;
    let secs = total % 60;
    lemma_two_digits(mins);
    lemma_two_digits(secs);
    let t = clock_text(total);
    let n = t.len() as int;
    if total < 3600 {
        assert(t.take(2) =~= two_digits(mins));
        assert(t.skip(3) =~= two_digits(secs));
        assert(mins == total / 60);
    } else {
        lemma_decimal(hours);
        let h = decimal(hours);
        assert(t.take(n - 6) =~= h);
        assert(t.subrange(n - 5, n - 3) =~= two_digits(mins));
        assert(t.skip(n - 2) =~= two_digits(secs));
        assert forall|i: int| 0 <= i < n - 6 implies is_digit(#[trigger] t[i]) by {
            assert(t[i] == h[i]);
        }
    }
}

} // verus!
