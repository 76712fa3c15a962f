//! Column layout used by every line the tracer prints: decimal rendering of
//! integers and space padding to a fixed width, as Rust's `{}`, `{:<w}` and
//! `{:w}` placeholders lay them out.
use vstd::prelude::*;
use vstd::string::StrSliceExecFns;
use vstd::string::StringExecFns;

verus! {

/// The ASCII digit for `d` (`0 <= d < 10`).
pub open spec fn digit_char(d: nat) -> char {
    (48 + d) as char
}

/// The decimal digits of `n`, most significant first, with no leading zero.
pub open spec fn decimal(n: nat) -> Seq<char>
    decreases n,
{
    if n < 10 {
        seq![digit_char(n)]
    } else {
        decimal(n / 10) + seq![digit_char(n % 10)]
    }
}

/// Decimal text of a signed integer: a minus sign before the digits of its
/// magnitude when it is negative.
pub open spec fn signed_decimal(i: int) -> Seq<char> {
    if i < 0 {
        seq!['-'] + decimal((-i) as nat)
    } else {
        decimal(i as nat)
    }
}

/// `n` spaces.
pub open spec fn spaces(n: nat) -> Seq<char> {
    Seq::new(n, |i: int| ' ')
}

/// The text laid out by `{:<w}`: padded on the right with spaces up to `w`
/// characters, never cut.
pub open spec fn left_aligned(t: Seq<char>, w: nat) -> Seq<char> {
    if t.len() < w {
        t + spaces((w - t.len()) as nat)
    } else {
        t
    }
}

/// The text laid out by `{:>w}` (the default for numbers): padded on the left
/// with spaces up to `w` characters, never cut.
pub open spec fn right_aligned(t: Seq<char>, w: nat) -> Seq<char> {
    if t.len() < w {
        spaces((w - t.len()) as nat) + t
    } else {
        t
    }
}

/// The number that a string of ASCII digits denotes.
pub open spec fn digits_value(s: Seq<char>) -> int
    decreases s.len(),
{
    if s.len() == 0 {
        0
    } else {
        10 * digits_value(s.drop_last()) + (s.last() as int - 48)
    }
}

/// Law: the decimal text of `n` is a string of digits that denotes `n`, with
/// no leading zero unless `n` is zero itself.
pub proof fn law_decimal_denotes_value(n: nat)
    ensures
        digits_value(decimal(n)) == n,
        forall|i: int| 0 <= i < decimal(n).len() ==> '0' <= #[trigger] decimal(n)[i] <= '9',
        decimal(n).len() > 1 ==> decimal(n)[0] != '0',
    decreases n,
{
    if n >= 10 {
        law_decimal_denotes_value(n / 10);
        let s = decimal(n);
        assert(s.drop_last() =~= decimal(n / 10));
        assert(s.last() == digit_char(n % 10));
        assert(digit_char(n % 10) as int == 48 + n % 10);
        assert(n == 10 * (n / 10) + n % 10);
        assert(digits_value(s) == 10 * digits_value(s.drop_last()) + (s.last() as int - 48));
        assert forall|i: int| 0 <= i < s.len() implies '0' <= #[trigger] s[i] <= '9' by {
            if i < s.len() - 1 {
                assert(s[i] == decimal(n / 10)[i]);
            }
        }
        assert(s[0] == decimal(n / 10)[0]);
        if decimal(n / 10).len() == 1 {
            assert(n / 10 < 10) by {
                if n / 10 >= 10 {
                    law_decimal_denotes_value(n / 100);
                    assert(decimal(n / 10).len() == decimal(n / 10 / 10).len() + 1);
                }
            }
        }
    } else {
        assert(decimal(n).drop_last() =~= Seq::<char>::empty());
        assert(digit_char(n) as int == 48 + n);
        assert(digits_value(Seq::<char>::empty()) == 0);
        assert(digits_value(decimal(n)) == 10 * digits_value(decimal(n).drop_last()) + (
        decimal(n).last() as int - 48));
    }
}

/// `t` is the decimal text of the integer `n`: an optional minus sign, then
/// at least one ASCII digit, the digits denoting `n`'s magnitude.
pub open spec fn reads_as_integer(t: Seq<char>, n: int) -> bool {
    let negative = t.len() > 0 && t[0] == '-';
    let digits = if negative {
        t.subrange(1, t.len() as int)
    } else {
        t
    };
    &&& digits.len() > 0
    &&& forall|i: int| 0 <= i < digits.len() ==> '0' <= #[trigger] digits[i] <= '9'
    &&& n == if negative {
        -digits_value(digits)
    } else {
        digits_value(digits)
    }
}

/// `field` is the text of `n` with spaces before it.
pub open spec fn right_field_reads_as(field: Seq<char>, n: int) -> bool {
    exists|k: int|
        0 <= k < field.len() && (forall|i: int| 0 <= i < k ==> #[trigger] field[i] == ' ')
            && #[trigger] reads_as_integer(field.subrange(k, field.len() as int), n)
}

/// `field` is the text of `n` with spaces after it.
pub open spec fn left_field_reads_as(field: Seq<char>, n: int) -> bool {
    exists|k: int|
        0 < k <= field.len() && (forall|i: int| k <= i < field.len() ==> #[trigger] field[i] == ' ')
            && #[trigger] reads_as_integer(field.subrange(0, k), n)
}

/// The decimal text of a number reads back as that number.
pub proof fn lemma_decimal_reads_back(n: nat)
    ensures
        reads_as_integer(decimal(n), n as int),
        reads_as_integer(signed_decimal(n as int), n as int),
{
    law_decimal_denotes_value(n);
    assert(decimal(n).len() > 0) by {
        reveal_with_fuel(decimal, 2);
    }
    assert('0' <= decimal(n)[0] <= '9');
}

/// The signed decimal text of an integer reads back as that integer.
pub proof fn lemma_signed_decimal_reads_back(i: int)
    ensures
        reads_as_integer(signed_decimal(i), i),
{
    if i < 0 {
        let m = (-i) as nat;
        lemma_decimal_reads_back(m);
        let t = signed_decimal(i);
        assert(t[0] == '-');
        assert(t.subrange(1, t.len() as int) =~= decimal(m));
        law_decimal_denotes_value(m);
        assert(digits_value(t.subrange(1, t.len() as int)) == m);
        assert(reads_as_integer(t, i));
    } else {
        lemma_decimal_reads_back(i as nat);
    }
}

/// A number's text, laid out by `{:>w}` where it fits, reads back from the
/// field.
pub proof fn lemma_right_field_reads_back(t: Seq<char>, w: nat, n: int)
    requires
        reads_as_integer(t, n),
        t.len() <= w,
    ensures
        right_field_reads_as(right_aligned(t, w), n),
{
    let f = right_aligned(t, w);
    let k = w - t.len();
    law_padding_fills_column(t, w);
    assert(f.subrange(k, f.len() as int) == t);
    assert forall|i: int| 0 <= i < k implies #[trigger] f[i] == ' ' by {
        if t.len() < w {
            assert(f[i] == spaces((w - t.len()) as nat)[i]);
        }
    }
}

/// A number's text, laid out by `{:<w}` where it fits, reads back from the
/// field.
pub proof fn lemma_left_field_reads_back(t: Seq<char>, w: nat, n: int)
    requires
        reads_as_integer(t, n),
        t.len() <= w,
    ensures
        left_field_reads_as(left_aligned(t, w), n),
{
    let f = left_aligned(t, w);
    let k = t.len() as int;
    law_padding_fills_column(t, w);
    assert(f.subrange(0, k) == t);
    assert forall|i: int| k <= i < f.len() implies #[trigger] f[i] == ' ' by {
        if t.len() < w {
            assert(f[i] == spaces((w - t.len()) as nat)[i - k]);
        }
    }
}

/// Law: a padded field is exactly its column's width when its text fits,
/// and the text itself when it does not; left-aligned text starts the field
/// and right-aligned text ends it. This is what keeps the banner and the
/// trace lines in columns.
pub proof fn law_padding_fills_column(t: Seq<char>, w: nat)
    ensures
        left_aligned(t, w).len() == if t.len() < w {
            w as int
        } else {
            t.len() as int
        },
        right_aligned(t, w).len() == left_aligned(t, w).len(),
        left_aligned(t, w).subrange(0, t.len() as int) == t,
        right_aligned(t, w).subrange(
            right_aligned(t, w).len() - t.len(),
            right_aligned(t, w).len() as int,
        ) == t,
{
    if t.len() < w {
        assert(left_aligned(t, w).subrange(0, t.len() as int) =~= t);
        assert(right_aligned(t, w).subrange(
            right_aligned(t, w).len() - t.len(),
            right_aligned(t, w).len() as int,
        ) =~= t);
    } else {
        assert(t.subrange(0, t.len() as int) =~= t);
    }
}

/// The one-character string of the digit `d`.
fn digit_text(d: u64) -> (s: &'static str)
    requires
        d < 10,
    ensures
        s@ == seq![digit_char(d as nat)],
{
    proof {
        reveal_strlit("0");
        reveal_strlit("1");
        reveal_strlit("2");
        reveal_strlit("3");
        reveal_strlit("4");
        reveal_strlit("5");
        reveal_strlit("6");
        reveal_strlit("7");
        reveal_strlit("8");
        reveal_strlit("9");
    }
    if d == 0 {
        "0"
    } else if d == 1 {
        "1"
    } else if d == 2 {
        "2"
    } else if d == 3 {
        "3"
    } else if d == 4 {
        "4"
    } else if d == 5 {
        "5"
    } else if d == 6 {
        "6"
    } else if d == 7 {
        "7"
    } else if d == 8 {
        "8"
    } else {
        "9"
    }
}

/// Appends the decimal digits of `n`.
pub fn push_decimal(out: &mut String, n: u64)
    ensures
        final(out)@ == old(out)@ + decimal(n as nat),
    decreases n,
{
    if n >= 10 {
        push_decimal(out, n / 10);
    }
    out.append(digit_text(n % 10));
    proof {
        assert(decimal(n as nat) == if n < 10 {
            seq![digit_char(n as nat)]
        } else {
            decimal((n / 10) as nat) + seq![digit_char((n % 10) as nat)]
        });
    }
}

/// Appends the decimal text of a signed value.
pub fn push_signed_decimal(out: &mut String, i: i64)
    requires
        i > i64::MIN,
    ensures
        final(out)@ == old(out)@ + signed_decimal(i as int),
{
    if i < 0 {
        proof {
            reveal_strlit("-");
        }
        out.append("-");
        let m: u64 = (-i) as u64;
        push_decimal(out, m);
    } else {
        push_decimal(out, i as u64);
    }
}

/// The decimal text of `n` as a new string.
pub fn decimal_string(n: u64) -> (s: String)
    ensures
        s@ == decimal(n as nat),
{
    let mut s = String::new();
    push_decimal(&mut s, n);
    s
}

/// The decimal text of a signed value as a new string.
pub fn signed_decimal_string(i: i32) -> (s: String)
    ensures
        s@ == signed_decimal(i as int),
{
    let mut s = String::new();
    push_signed_decimal(&mut s, i as i64);
    s
}

/// Appends `k` spaces.
pub fn push_spaces(out: &mut String, k: usize)
    ensures
        final(out)@ == old(out)@ + spaces(k as nat),
{
    let ghost start = out@;
    let mut i: usize = 0;
    proof {
        reveal_strlit(" ");
        assert(start + spaces(0) =~= start);
    }
    while i < k
        invariant
            i <= k,
            out@ == start + spaces(i as nat),
        decreases k - i,
    {
        proof {
            reveal_strlit(" ");
        }
        out.append(" ");
        i = i + 1;
        assert(start + spaces(i as nat) =~= start + spaces((i - 1) as nat) + seq![' ']);
    }
}

/// Appends `t` laid out as `{:<w}`.
pub fn push_left_aligned(out: &mut String, t: &str, w: usize)
    ensures
        final(out)@ == old(out)@ + left_aligned(t@, w as nat),
{
    let n: usize = t.unicode_len();
    let ghost start = out@;
    out.append(t);
    if n < w {
        push_spaces(out, w - n);
        assert(start + t@ + spaces((w - n) as nat) =~= start + (t@ + spaces((w - n) as nat)));
    } else {
        assert(out@ == start + t@);
    }
}

/// Appends `t` laid out as `{:>w}`.
pub fn push_right_aligned(out: &mut String, t: &str, w: usize)
    ensures
        final(out)@ == old(out)@ + right_aligned(t@, w as nat),
{
    let n: usize = t.unicode_len();
    let ghost start = out@;
    if n < w {
        push_spaces(out, w - n);
        out.append(t);
        assert(start + spaces((w - n) as nat) + t@ =~= start + (spaces((w - n) as nat) + t@));
    } else {
        out.append(t);
    }
}

} // verus!
