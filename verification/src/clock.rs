//! The wall-clock stamp that starts every trace line: `%H:%m:%S` (hour,
//! month, second, each as two digits), as the tracer has always printed it.
use vstd::prelude::*;
use crate::text::{decimal, digit_char, digits_value, push_decimal, reads_as_integer};

verus! {

/// One reading of the local clock, by the fields the stamp shows. A leap
/// second reads as second 59 with a nanosecond count of a billion or more.
#[derive(Debug, Clone, Copy)]
pub struct ClockReading {
    pub hour: u32,
    pub month: u32,
    pub second: u32,
    pub nanosecond: u32,
}

/// Every field within the range the clock gives it.
pub open spec fn reading_in_range(r: ClockReading) -> bool {
    &&& r.hour < 24
    &&& 1 <= r.month <= 12
    &&& r.second < 60
    &&& r.nanosecond < 2_000_000_000
}

/// `n` as two digits, with a leading zero below 10 (`n < 100`).
pub open spec fn two_digits(n: nat) -> Seq<char> {
    seq![digit_char(n / 10), digit_char(n % 10)]
}

/// The second the stamp shows: 60 during a leap second.
pub open spec fn shown_second(r: ClockReading) -> nat {
    (r.second + r.nanosecond / 1_000_000_000) as nat
}

/// The stamp for reading `r`: hour, month and second, two digits each,
/// separated by colons.
pub open spec fn clock_text(r: ClockReading) -> Seq<char> {
    two_digits(r.hour as nat) + seq![':'] + two_digits(r.month as nat) + seq![':'] + two_digits(
        shown_second(r),
    )
}

/// `chrono::Local::now()`, read by its hour, month, second and nanosecond
/// (chrono's `Timelike::hour`, `Datelike::month`, `Timelike::second` and
/// `Timelike::nanosecond`), each in the range chrono documents for it. Not
/// stated: which time it is; and chrono panics when the system clock reads
/// a time before the Unix epoch, a state of the machine that no argument can
/// rule out.
#[verifier::external_body]
pub(crate) fn local_clock_reading() -> (r: ClockReading)
    ensures
        reading_in_range(r),
{
    let now = chrono::Local::now();
    ClockReading {
        hour: chrono::Timelike::hour(&now),
        month: chrono::Datelike::month(&now),
        second: chrono::Timelike::second(&now),
        nanosecond: chrono::Timelike::nanosecond(&now),
    }
}

/// Appends `n` as two digits.
fn push_two_digits(out: &mut String, n: u32)
    requires
        n < 100,
    ensures
        final(out)@ == old(out)@ + two_digits(n as nat),
{
    push_decimal(out, (n / 10) as u64);
    push_decimal(out, (n % 10) as u64);
    assert(decimal((n / 10) as nat) == seq![digit_char((n / 10) as nat)]);
    assert(decimal((n % 10) as nat) == seq![digit_char((n % 10) as nat)]);
    assert(out@ =~= old(out)@ + two_digits(n as nat));
}

/// The stamp for reading `r` (see [`clock_text`]).
pub fn format_clock(r: ClockReading) -> (t: String)
    requires
        reading_in_range(r),
    ensures
        t@ == clock_text(r),
{
    let mut t = String::new();
    push_two_digits(&mut t, r.hour);
    t.append(":");
    push_two_digits(&mut t, r.month);
    t.append(":");
    let second: u32 = r.second + r.nanosecond / 1_000_000_000;
    push_two_digits(&mut t, second);
    proof {
        reveal_strlit(":");
    }
    assert(t@ =~= clock_text(r));
    t
}

/// Two digits read back as the number they were made from.
proof fn lemma_two_digits_read_back(n: nat)
    requires
        n < 100,
    ensures
        two_digits(n).len() == 2,
        reads_as_integer(two_digits(n), n as int),
{
    let t = two_digits(n);
    assert(digit_char(n / 10) as int == 48 + n / 10);
    assert(digit_char(n % 10) as int == 48 + n % 10);
    assert(t.drop_last().drop_last() =~= Seq::<char>::empty());
    assert(digits_value(t.drop_last()) == 10 * digits_value(t.drop_last().drop_last()) + (
    t.drop_last().last() as int - 48));
    assert(digits_value(t) == 10 * digits_value(t.drop_last()) + (t.last() as int - 48));
    assert(n == 10 * (n / 10) + n % 10);
}

/// Law: a stamp is eight characters, colons at the third and sixth, and
/// reads back, field by field, as the reading's hour, its month, and the
/// second it shows (a leap second as 60).
pub proof fn law_stamp_reads_back(r: ClockReading)
    requires
        reading_in_range(r),
    ensures
        clock_text(r).len() == 8,
        clock_text(r)[2] == ':',
        clock_text(r)[5] == ':',
        reads_as_integer(clock_text(r).subrange(0, 2), r.hour as int),
        reads_as_integer(clock_text(r).subrange(3, 5), r.month as int),
        reads_as_integer(
            clock_text(r).subrange(6, 8),
            r.second + r.nanosecond / 1_000_000_000,
        ),
{
    lemma_two_digits_read_back(r.hour as nat);
    lemma_two_digits_read_back(r.month as nat);
    lemma_two_digits_read_back(shown_second(r));
    let t = clock_text(r);
    assert(t.subrange(0, 2) =~= two_digits(r.hour as nat));
    assert(t.subrange(3, 5) =~= two_digits(r.month as nat));
    assert(t.subrange(6, 8) =~= two_digits(shown_second(r)));
}

} // verus!
