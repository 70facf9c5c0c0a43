//! Decimal rendering of integers into strings, used by the human-readable
//! descriptions of halts, rejections and alerts.
use vstd::prelude::*;
use vstd::string::{StringExecFns, StrSliceExecFns};

verus! {

/// The character of a decimal digit.
pub open spec fn digit_char(d: int) -> char {
    if d == 0 { '0' }
    else if d == 1 { '1' }
    else if d == 2 { '2' }
    else if d == 3 { '3' }
    else if d == 4 { '4' }
    else if d == 5 { '5' }
    else if d == 6 { '6' }
    else if d == 7 { '7' }
    else if d == 8 { '8' }
    else { '9' }
}

/// Decimal digits of a natural number, most significant first, without leading zeros.
pub open spec fn dec_digits(n: nat) -> Seq<char>
    decreases n,
{
    if n < 10 {
        seq![digit_char(n as int)]
    } else {
        dec_digits(n / 10).push(digit_char((n % 10) as int))
    }
}

/// Decimal text of an integer: a minus sign before the digits of its magnitude when negative.
pub open spec fn dec_signed(i: int) -> Seq<char> {
    if i < 0 {
        seq!['-'] + dec_digits((-i) as nat)
    } else {
        dec_digits(i as nat)
    }
}

/// The one-character text of a digit.
fn digit_str(d: u64) -> (r: &'static str)
    requires
        d < 10,
    ensures
        r@ == seq![digit_char(d as int)],
{
    proof {
        reveal_strlit("0");
        reveal_strlit("1");
        reveal_strlit("2");
        reveal_strlit("3");
        reveal_strlit("4");
        reveal_strlit("5");
        reveal_strlit("6");
        reveal_strlit("7");
        reveal_strlit("8");
        reveal_strlit("9");
    }
    if d == 0 {
        "0"
    } else if d == 1 {
        "1"
    } else if d == 2 {
        "2"
    } else if d == 3 {
        "3"
    } else if d == 4 {
        "4"
    } else if d == 5 {
        "5"
    } else if d == 6 {
        "6"
    } else if d == 7 {
        "7"
    } else if d == 8 {
        "8"
    } else {
        "9"
    }
}

/// Appends the decimal digits of `n` to `s`.
pub fn push_u64(s: &mut String, n: u64)
    ensures
        final(s)@ == old(s)@ + dec_digits(n as nat),
    decreases n,
{
    if n >= 10 {
        push_u64(s, n / 10);
    }
    let d = n % 10;
    s.append(digit_str(d));
    proof {
        if n >= 10 {
            assert(dec_digits(n as nat) == dec_digits((n / 10) as nat).push(digit_char((n % 10) as int)));
        }
    }
}

/// Appends the decimal digits of `n` to `s`.
pub fn push_u128(s: &mut String, n: u128)
    ensures
        final(s)@ == old(s)@ + dec_digits(n as nat),
    decreases n,
{
    if n >= 10 {
        push_u128(s, n / 10);
    }
    let d = (n % 10) as u64;
    s.append(digit_str(d));
    proof {
        if n >= 10 {
            assert(dec_digits(n as nat) == dec_digits((n / 10) as nat).push(digit_char((n % 10) as int)));
        }
    }
}

/// The last `width` decimal digits of `n`, with leading zeros.
pub open spec fn padded_digits(n: nat, width: nat) -> Seq<char>
    decreases width,
{
    if width == 0 {
        Seq::empty()
    } else {
        padded_digits(n / 10, (width - 1) as nat).push(digit_char((n % 10) as int))
    }
}

/// Appends the last `width` decimal digits of `n` to `s`, with leading zeros.
pub fn push_padded(s: &mut String, n: u64, width: u32)
    ensures
        final(s)@ == old(s)@ + padded_digits(n as nat, width as nat),
    decreases width,
{
    if width > 0 {
        push_padded(s, n / 10, width - 1);
        s.append(digit_str(n % 10));
        proof {
            assert(padded_digits(n as nat, width as nat)
                == padded_digits((n / 10) as nat, (width - 1) as nat).push(digit_char((n % 10) as int)));
        }
    } else {
        assert(old(s)@ + padded_digits(n as nat, 0) =~= old(s)@);
    }
}

/// Decimal text of a nine-decimal fixed-point amount: the whole part, a point and
/// all nine fractional digits.
pub open spec fn fixed9_text(v: nat) -> Seq<char> {
    dec_digits(v / 1_000_000_000) + seq!['.'] + padded_digits(v % 1_000_000_000, 9)
}

/// Appends the decimal text of a nine-decimal fixed-point amount (see [`fixed9_text`]).
pub fn push_fixed9(s: &mut String, v: u128)
    ensures
        final(s)@ == old(s)@ + fixed9_text(v as nat),
{
    proof {
        reveal_strlit(".");
    }
    push_u128(s, v / 1_000_000_000);
    s.append(".");
    push_padded(s, (v % 1_000_000_000) as u64, 9);
    assert(final(s)@ =~= old(s)@ + fixed9_text(v as nat));
}

/// Appends the decimal text of `n` to `s`, with a minus sign when negative.
pub fn push_i64(s: &mut String, n: i64)
    ensures
        final(s)@ == old(s)@ + dec_signed(n as int),
{
    if n < 0 {
        proof {
            reveal_strlit("-");
        }
        s.append("-");
        let m: u64 = if n == i64::MIN {
            9_223_372_036_854_775_808u64
        } else {
            (-n) as u64
        };
        push_u64(s, m);
    } else {
        push_u64(s, n as u64);
    }
}

/// The character of a hexadecimal digit, in lowercase.
pub open spec fn hex_digit_char(d: int) -> char {
    if d < 10 { digit_char(d) }
    else if d == 10 { 'a' }
    else if d == 11 { 'b' }
    else if d == 12 { 'c' }
    else if d == 13 { 'd' }
    else if d == 14 { 'e' }
    else { 'f' }
}

/// The last `k` hexadecimal digits of `n`, most significant first, zero-padded.
pub open spec fn spec_hex_digits(n: nat, k: nat) -> Seq<char>
    decreases k,
{
    if k == 0 {
        Seq::empty()
    } else {
        spec_hex_digits(n / 16, (k - 1) as nat).push(hex_digit_char((n % 16) as int))
    }
}

/// A 128-bit number as 32 lowercase hexadecimal digits.
pub open spec fn spec_hex_32(n: u128) -> Seq<char> {
    spec_hex_digits(n as nat, 32)
}

/// The one-character text of a hexadecimal digit.
fn hex_digit_str(d: u128) -> (r: &'static str)
    requires
        d < 16,
    ensures
        r@ == seq![hex_digit_char(d as int)],
{
    proof {
        reveal_strlit("a");
        reveal_strlit("b");
        reveal_strlit("c");
        reveal_strlit("d");
        reveal_strlit("e");
        reveal_strlit("f");
    }
    if d < 10 {
        digit_str(d as u64)
    } else if d == 10 {
        "a"
    } else if d == 11 {
        "b"
    } else if d == 12 {
        "c"
    } else if d == 13 {
        "d"
    } else if d == 14 {
        "e"
    } else {
        "f"
    }
}

/// Appends the last `k` hexadecimal digits of `n` to `s`.
fn push_hex(s: &mut String, n: u128, k: u32)
    ensures
        final(s)@ == old(s)@ + spec_hex_digits(n as nat, k as nat),
    decreases k,
{
    if k == 0 {
        assert(old(s)@ + spec_hex_digits(n as nat, 0) =~= old(s)@);
        return;
    }
    push_hex(s, n / 16, k - 1);
    s.append(hex_digit_str(n % 16));
    proof {
        assert(spec_hex_digits(n as nat, k as nat)
            == spec_hex_digits((n / 16) as nat, (k - 1) as nat).push(hex_digit_char((n % 16) as int)));
    }
}

/// A 128-bit number as 32 lowercase hexadecimal digits.
pub fn hex_u128_32(n: u128) -> (s: String)
    ensures
        s@ == spec_hex_32(n),
{
    let mut s = String::new();
    push_hex(&mut s, n, 32);
    assert(s@ =~= spec_hex_32(n));
    s
}

/// Whether two texts are equal, character by character.
pub fn str_eq(a: &str, b: &str) -> (r: bool)
    ensures
        r == (a@ == b@),
{
    let n = a.unicode_len();
    if n != b.unicode_len() {
        return false;
    }
    let mut i: usize = 0;
    while i < n
        invariant
            n == a@.len() == b@.len(),
            0 <= i <= n,
            forall|j: int| 0 <= j < i ==> a@[j] == b@[j],
        decreases n - i,
    {
        if a.get_char(i) != b.get_char(i) {
            return false;
        }
        i = i + 1;
    }
    assert(a@ =~= b@);
    true
}

} // verus!
