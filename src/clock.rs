//! Rendering of a second count as `M:SS`.
use vstd::prelude::*;

verus! {

/// The ASCII digit for `d` (only meaningful for `d < 10`).
pub open spec fn digit_char(d: nat) -> char {
    ((d + 48) as u32) as char
}

/// The value of an ASCII digit character.
pub open spec fn digit_value(c: char) -> int {
    c as int - 48
}

/// The number written by a sequence of decimal digits (`0` for none).
pub open spec fn digits_value(s: Seq<char>) -> nat
    decreases s.len(),
{
    if s.len() == 0 {
        0
    } else {
        digits_value(s.drop_last()) * 10 + digit_value(s.last()) as nat
    }
}

/// Whether `c` is one of `'0'..='9'`.
pub open spec fn is_digit(c: char) -> bool {
    48 <= c as int <= 57
}

/// Decimal notation of `n`, without leading zeros (`0` is written `"0"`).
pub open spec fn decimal(n: nat) -> Seq<char>
    decreases n,
{
    if n < 10 {
        seq![digit_char(n)]
    } else {
        decimal(n / 10).push(digit_char(n % 10))
    }
}

/// `total` seconds written as minutes, a colon, and the seconds in two digits.
pub open spec fn mm_ss(total: nat) -> Seq<char> {
    decimal(total / 60) + seq![':', digit_char((total % 60) / 10), digit_char((total % 60) % 10)]
}

proof fn lemma_digit_char(d: nat)
    requires
        d < 10,
    ensures
        is_digit(digit_char(d)),
        digit_value(digit_char(d)) == d,
{
}

/// Every decimal notation is a non-empty run of digits that reads back as
/// the number it was written from.
pub proof fn lemma_decimal_reads_back(n: nat)
    ensures
        decimal(n).len() >= 1,
        forall|i: int| 0 <= i < decimal(n).len() ==> is_digit(#[trigger] decimal(n)[i]),
        digits_value(decimal(n)) == n,
    decreases n,
{
    if n < 10 {
        lemma_digit_char(n);
        let s = decimal(n);
        assert(s.drop_last() =~= Seq::<char>::empty());
        assert(digits_value(Seq::<char>::empty()) == 0);
        assert(digits_value(s) == digits_value(s.drop_last()) * 10 + digit_value(s.last()) as nat);
    } else {
        lemma_decimal_reads_back(n / 10);
        lemma_digit_char(n % 10);
        let s = decimal(n);
        assert(s.drop_last() =~= decimal(n / 10));
        assert(s.last() == digit_char(n % 10));
        assert(digits_value(s) == digits_value(s.drop_last()) * 10 + digit_value(s.last()) as nat);
        assert(n == (n / 10) * 10 + n % 10);
        assert forall|i: int| 0 <= i < s.len() implies is_digit(#[trigger] s[i]) by {
            if i < s.len() - 1 {
                assert(s[i] == decimal(n / 10)[i]);
            }
        }
    }
}

/// The rendering of any second count is the minutes in digits, a colon at
/// the third place from the end, and two digits that read back as the
/// seconds within the minute.
pub proof fn lemma_mm_ss_reads_back(x: nat)
    ensures
        mm_ss(x).len() >= 4,
        mm_ss(x)[mm_ss(x).len() - 3] == ':',
        forall|i: int| 0 <= i < mm_ss(x).len() && i != mm_ss(x).len() - 3
            ==> is_digit(#[trigger] mm_ss(x)[i]),
        digits_value(mm_ss(x).subrange(0, mm_ss(x).len() - 3)) == x / 60,
        digits_value(mm_ss(x).subrange(mm_ss(x).len() - 2, mm_ss(x).len() as int)) == x % 60,
{
    let s = mm_ss(x);
    let m = decimal(x / 60);
    let sec: nat = x % 60;
    lemma_decimal_reads_back(x / 60);
    lemma_digit_char(sec / 10);
    lemma_digit_char(sec % 10);
    assert(s.subrange(0, s.len() - 3) =~= m);
    let two = s.subrange(s.len() - 2, s.len() as int);
    assert(two =~= seq![digit_char(sec / 10), digit_char(sec % 10)]);
    assert(two.drop_last() =~= seq![digit_char(sec / 10)]);
    assert(two.drop_last().drop_last() =~= Seq::<char>::empty());
    assert forall|i: int| 0 <= i < s.len() && i != s.len() - 3 implies is_digit(#[trigger] s[i]) by {
        if i < m.len() {
            assert(s[i] == m[i]);
        }
    }
    assert(digits_value(Seq::<char>::empty()) == 0);
    assert(digits_value(two.drop_last()) == digit_value(digit_char(sec / 10)) as nat);
    assert(digits_value(two) == digits_value(two.drop_last()) * 10 + digit_value(two.last()) as nat);
    assert(sec == (sec / 10) * 10 + sec % 10);
}

/// The one-character string of the digit `d`.
fn digit_str(d: u64) -> (r: &'static str)
    requires
        d < 10,
    ensures
        r@ == seq![digit_char(d as nat)],
{
    proof {
        reveal_strlit("0");
        reveal_strlit("1");
        reveal_strlit("2");
        reveal_strlit("3");
        reveal_strlit("4");
        reveal_strlit("5");
        reveal_strlit("6");
        reveal_strlit("7");
        reveal_strlit("8");
        reveal_strlit("9");
    }
    match d {
        0 => "0",
        1 => "1",
        2 => "2",
        3 => "3",
        4 => "4",
        5 => "5",
        6 => "6",
        7 => "7",
        8 => "8",
        _ => "9",
    }
}

/// Appends the decimal notation of `n` to `out`.
pub fn push_decimal(out: &mut String, n: u64)
    ensures
        final(out)@ == old(out)@ + decimal(n as nat),
    decreases n,
{
    if n < 10 {
        out.append(digit_str(n));
    } else {
        push_decimal(out, n / 10);
        out.append(digit_str(n % 10));
        assert(decimal(n as nat) == decimal((n / 10) as nat).push(digit_char((n % 10) as nat)));
    }
}

/// Formats a second count as `M:SS`: whole minutes without padding (they may
/// exceed 59), then the remaining seconds as exactly two digits.
pub fn fmt_mm_ss(total_secs: u64) -> (r: String)
    ensures
        r@ == mm_ss(total_secs as nat),
{
    let m: u64 = total_secs / 60;
    let s: u64 = total_secs % 60;
    let mut out = String::new();
    push_decimal(&mut out, m);
    proof {
        reveal_strlit(":");
    }
    out.append(":");
    out.append(digit_str(s / 10));
    out.append(digit_str(s % 10));
    assert(out@ =~= mm_ss(total_secs as nat));
    out
}

} // verus!
