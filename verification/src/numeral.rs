//! Decimal numerals of integers, written and read the way `ToString` and
//! `FromStr` do it for Rust's integer types.

use vstd::prelude::*;
use vstd::string::*;

use crate::text::push_char;

verus! {

/// Why a numeral was refused (the kinds of `std::num::ParseIntError`).
#[derive(Debug, Clone, Copy, PartialEq, Eq, Structural)]
pub enum IntErrorKind {
    Empty,
    InvalidDigit,
    PosOverflow,
    NegOverflow,
}

/// Whether `c` is a decimal digit.
pub open spec fn is_digit(c: char) -> bool {
    '0' <= c && c <= '9'
}

/// The value of the digit `c`.
pub open spec fn digit_value(c: char) -> int {
    c as int - '0' as int
}

/// The character of the digit `d`.
pub open spec fn digit_char(d: int) -> char {
    (d + '0' as int) as char
}

/// Decimal digits of `n`, most significant first, no leading zero.
pub open spec fn nat_digits(n: nat) -> Seq<char>
    decreases n,
{
    if n < 10 {
        seq![digit_char(n as int)]
    } else {
        nat_digits(n / 10).push(digit_char((n % 10) as int))
    }
}

/// The text that `ToString` gives for the integer `n`.
pub open spec fn int_text(n: int) -> Seq<char> {
    if n < 0 {
        seq!['-'] + nat_digits((-n) as nat)
    } else {
        nat_digits(n as nat)
    }
}

/// Reads the digits `ds` left to right as a number of the given sign,
/// stopping at the first character that is no digit or whose digit takes the
/// value out of `[lo, hi]`.
pub open spec fn scan_digits(ds: Seq<char>, negative: bool, lo: int, hi: int) -> Result<
    int,
    IntErrorKind,
>
    decreases ds.len(),
{
    if ds.len() == 0 {
        Ok(0)
    } else {
        match scan_digits(ds.drop_last(), negative, lo, hi) {
            Err(e) => Err(e),
            Ok(v) => {
                let c = ds.last();
                if !is_digit(c) {
                    Err(IntErrorKind::InvalidDigit)
                } else {
                    let w = if negative {
                        v * 10 - digit_value(c)
                    } else {
                        v * 10 + digit_value(c)
                    };
                    if w > hi {
                        Err(IntErrorKind::PosOverflow)
                    } else if w < lo {
                        Err(IntErrorKind::NegOverflow)
                    } else {
                        Ok(w)
                    }
                }
            },
        }
    }
}

/// What `FromStr` gives for `s` on an integer type with range `[lo, hi]`
/// (`signed` for the types that accept a leading `-`): an optional sign
/// followed by one or more digits, value in range.
pub open spec fn parse_int(s: Seq<char>, lo: int, hi: int, signed: bool) -> Result<
    int,
    IntErrorKind,
> {
    if s.len() == 0 {
        Err(IntErrorKind::Empty)
    } else if (s[0] == '+' || s[0] == '-') && s.len() == 1 {
        Err(IntErrorKind::InvalidDigit)
    } else if s[0] == '+' {
        scan_digits(s.drop_first(), false, lo, hi)
    } else if s[0] == '-' && signed {
        scan_digits(s.drop_first(), true, lo, hi)
    } else {
        scan_digits(s, false, lo, hi)
    }
}

/// The message that `ParseIntError`'s `Display` gives for each kind.
pub open spec fn int_error_message(k: IntErrorKind) -> Seq<char> {
    match k {
        IntErrorKind::Empty => "cannot parse integer from empty string"@,
        IntErrorKind::InvalidDigit => "invalid digit found in string"@,
        IntErrorKind::PosOverflow => "number too large to fit in target type"@,
        IntErrorKind::NegOverflow => "number too small to fit in target type"@,
    }
}

/// The message for a kind of refusal.
pub fn int_error_text(k: IntErrorKind) -> (s: String)
    ensures
        s@ == int_error_message(k),
{
    match k {
        IntErrorKind::Empty => "cannot parse integer from empty string".to_owned(),
        IntErrorKind::InvalidDigit => "invalid digit found in string".to_owned(),
        IntErrorKind::PosOverflow => "number too large to fit in target type".to_owned(),
        IntErrorKind::NegOverflow => "number too small to fit in target type".to_owned(),
    }
}

/// The character of a decimal digit is a digit, worth that digit.
pub proof fn lemma_digit_char(d: int)
    requires
        0 <= d < 10,
    ensures
        is_digit(digit_char(d)),
        digit_value(digit_char(d)) == d,
        digit_char(d) != '+',
        digit_char(d) != '-',
{
}

/// The digits of `n` read back give `n` (with the given sign), as long as
/// the value stays in range.
proof fn lemma_scan_nat_digits(n: nat, negative: bool, lo: int, hi: int)
    requires
        lo <= 0 <= hi,
        !negative ==> n <= hi,
        negative ==> -n >= lo,
    ensures
        scan_digits(nat_digits(n), negative, lo, hi) == Ok::<int, IntErrorKind>(
            if negative { -n } else { n as int },
        ),
    decreases n,
{
    if n < 10 {
        lemma_digit_char(n as int);
        let ds = nat_digits(n);
        assert(ds.drop_last() =~= Seq::<char>::empty());
        assert(ds.last() == digit_char(n as int));
        assert(scan_digits(ds.drop_last(), negative, lo, hi) == Ok::<int, IntErrorKind>(0));
    } else {
        lemma_digit_char((n % 10) as int);
        lemma_scan_nat_digits(n / 10, negative, lo, hi);
        let ds = nat_digits(n);
        assert(ds.drop_last() =~= nat_digits(n / 10));
        assert(ds.last() == digit_char((n % 10) as int));
        vstd::arithmetic::div_mod::lemma_fundamental_div_mod(n as int, 10);
        assert((n / 10) * 10 + n % 10 == n);
    }
}

/// The decimal text of a number is not empty and starts with a digit.
pub proof fn lemma_nat_digits_first(n: nat)
    ensures
        nat_digits(n).len() > 0,
        is_digit(nat_digits(n)[0]),
    decreases n,
{
    if n < 10 {
        lemma_digit_char(n as int);
    } else {
        lemma_nat_digits_first(n / 10);
    }
}

/// Reading back what `ToString` wrote gives the number again, for every
/// integer type (range `[lo, hi]`, `signed` when negative values exist).
pub proof fn lemma_parse_int_text(n: int, lo: int, hi: int, signed: bool)
    requires
        lo <= n <= hi,
        lo <= 0 <= hi,
        signed || lo == 0,
    ensures
        parse_int(int_text(n), lo, hi, signed) == Ok::<int, IntErrorKind>(n),
{
    if n < 0 {
        let m = (-n) as nat;
        lemma_scan_nat_digits(m, true, lo, hi);
        lemma_nat_digits_first(m);
        let s = int_text(n);
        assert(s.drop_first() =~= nat_digits(m));
        assert(s[0] == '-');
        assert(s.len() > 1);
    } else {
        let m = n as nat;
        lemma_scan_nat_digits(m, false, lo, hi);
        lemma_nat_digits_first(m);
    }
}

/// `ToString` on an integer (within the range of `i64` and `u64`).
pub fn format_int(n: i128) -> (s: String)
    requires
        -0x8000_0000_0000_0000 <= n <= 0xffff_ffff_ffff_ffff,
    ensures
        s@ == int_text(n as int),
{
    let negative = n < 0;
    let magnitude: u128 = if negative { (-n) as u128 } else { n as u128 };
    // digits, least significant first
    let mut rev: Vec<char> = Vec::new();
    let mut m: u128 = magnitude;
    loop
        invariant_except_break
            m <= magnitude,
            nat_digits(magnitude as nat) == nat_digits(m as nat) + rev@.reverse(),
        ensures
            m == 0,
            nat_digits(magnitude as nat) == rev@.reverse(),
        decreases m,
    {
        let d = m % 10;
        let c = ((48u8 + d as u8) as char);
        assert(c == digit_char(d as int));
        let ghost before = rev@;
        rev.push(c);
        if m < 10 {
            assert(nat_digits(m as nat) == seq![c]);
            assert(rev@.reverse() =~= seq![c] + before.reverse());
            assert(nat_digits(magnitude as nat) =~= rev@.reverse());
            m = 0;
            break;
        }
        assert(nat_digits(m as nat) == nat_digits((m / 10) as nat).push(c));
        assert(rev@.reverse() =~= seq![c] + before.reverse());
        assert(nat_digits((m / 10) as nat).push(c) + before.reverse() =~= nat_digits(
            (m / 10) as nat,
        ) + (seq![c] + before.reverse()));
        m = m / 10;
    }
    let mut s = String::new();
    if negative {
        push_char(&mut s, '-');
    }
    let ghost prefix = s@;
    let mut i: usize = rev.len();
    while i > 0
        invariant
            i <= rev.len(),
            s@ == prefix + rev@.reverse().take(rev.len() - i),
        decreases i,
    {
        i = i - 1;
        proof {
            let k = rev.len() - i - 1;
            assert(rev@.reverse()[k] == rev@[i as int]);
            assert(rev@.reverse().take(k + 1) =~= rev@.reverse().take(k).push(rev@[i as int]));
        }
        push_char(&mut s, rev[i]);
        assert(s@ =~= prefix + rev@.reverse().take(rev.len() - i));
    }
    assert(rev@.reverse().take(rev.len() as int) =~= rev@.reverse());
    assert(s@ =~= int_text(n as int));
    s
}

/// `FromStr` on an integer type with range `[lo, hi]` (within the ranges of
/// `i64` and `u64`); `signed` for the types that accept a leading `-`.
pub fn parse_int_text(text: &str, lo: i128, hi: i128, signed: bool) -> (r: Result<i128, IntErrorKind>)
    requires
        -0x8000_0000_0000_0000 <= lo <= 0 <= hi <= 0xffff_ffff_ffff_ffff,
    ensures
        r matches Ok(v) ==> parse_int(text@, lo as int, hi as int, signed) == Ok::<
            int,
            IntErrorKind,
        >(v as int) && lo <= v <= hi,
        r matches Err(e) ==> parse_int(text@, lo as int, hi as int, signed) == Err::<
            int,
            IntErrorKind,
        >(e),
{
    let ghost s = text@;
    let n = text.unicode_len();
    if n == 0 {
        return Err(IntErrorKind::Empty);
    }
    let first = text.get_char(0);
    if (first == '+' || first == '-') && n == 1 {
        return Err(IntErrorKind::InvalidDigit);
    }
    let negative = first == '-' && signed;
    let start: usize = if first == '+' || negative { 1 } else { 0 };
    let ghost ds = s.subrange(start as int, n as int);
    proof {
        assert(s.drop_first() =~= s.subrange(1, n as int));
        assert(s =~= s.subrange(0, n as int));
        assert(parse_int(s, lo as int, hi as int, signed) == scan_digits(ds, negative, lo as int, hi as int));
    }
    let mut v: i128 = 0;
    let mut i: usize = start;
    while i < n
        invariant
            n == s.len(),
            start <= i <= n,
            ds == s.subrange(start as int, n as int),
            parse_int(s, lo as int, hi as int, signed) == scan_digits(ds, negative, lo as int, hi as int),
            lo <= v <= hi,
            -0x8000_0000_0000_0000 <= lo <= 0 <= hi <= 0xffff_ffff_ffff_ffff,
            scan_digits(s.subrange(start as int, i as int), negative, lo as int, hi as int)
                == Ok::<int, IntErrorKind>(v as int),
            text@ == s,
        decreases n - i,
    {
        let c = text.get_char(i);
        let ghost pre = s.subrange(start as int, i as int);
        assert(s.subrange(start as int, i + 1).drop_last() =~= pre);
        assert(s.subrange(start as int, i + 1).last() == c);
        if !('0' <= c && c <= '9') {
            proof {
                assert(scan_digits(s.subrange(start as int, i + 1), negative, lo as int, hi as int)
                    == Err::<int, IntErrorKind>(IntErrorKind::InvalidDigit));
                assert(ds.take((i - start) + 1) =~= s.subrange(start as int, i + 1));
                lemma_scan_prefix_err(ds, (i - start) as int, negative, lo as int, hi as int, IntErrorKind::InvalidDigit);
            }
            return Err(IntErrorKind::InvalidDigit);
        }
        let d = (c as u32 - 48u32) as i128;
        assert(d == digit_value(c));
        let w = if negative { v * 10 - d } else { v * 10 + d };
        if w > hi {
            proof {
                assert(scan_digits(s.subrange(start as int, i + 1), negative, lo as int, hi as int)
                    == Err::<int, IntErrorKind>(IntErrorKind::PosOverflow));
                assert(ds.take((i - start) + 1) =~= s.subrange(start as int, i + 1));
                lemma_scan_prefix_err(ds, (i - start) as int, negative, lo as int, hi as int, IntErrorKind::PosOverflow);
            }
            return Err(IntErrorKind::PosOverflow);
        }
        if w < lo {
            proof {
                assert(scan_digits(s.subrange(start as int, i + 1), negative, lo as int, hi as int)
                    == Err::<int, IntErrorKind>(IntErrorKind::NegOverflow));
                assert(ds.take((i - start) + 1) =~= s.subrange(start as int, i + 1));
                lemma_scan_prefix_err(ds, (i - start) as int, negative, lo as int, hi as int, IntErrorKind::NegOverflow);
            }
            return Err(IntErrorKind::NegOverflow);
        }
        v = w;
        i = i + 1;
    }
    assert(s.subrange(start as int, n as int) == ds);
    Ok(v)
}

/// Once a prefix of the digits is refused, the whole is refused the same way.
proof fn lemma_scan_prefix_err(ds: Seq<char>, k: int, negative: bool, lo: int, hi: int, e: IntErrorKind)
    requires
        0 <= k < ds.len(),
        scan_digits(ds.take(k + 1), negative, lo, hi) == Err::<int, IntErrorKind>(e),
    ensures
        scan_digits(ds, negative, lo, hi) == Err::<int, IntErrorKind>(e),
    decreases ds.len() - k,
{
    if k + 1 == ds.len() {
        assert(ds.take(k + 1) =~= ds);
    } else {
        let ds2 = ds.drop_last();
        assert(ds2.take(k + 1) =~= ds.take(k + 1));
        lemma_scan_prefix_err(ds2, k, negative, lo, hi, e);
    }
}

/// `k` zeros.
pub open spec fn zeros(k: nat) -> Seq<char> {
    Seq::new(k, |i: int| '0')
}

proof fn lemma_scan_zeros(k: nat, lo: int, hi: int)
    requires
        lo <= 0 <= hi,
    ensures
        scan_digits(zeros(k), false, lo, hi) == Ok::<int, IntErrorKind>(0),
    decreases k,
{
    if k > 0 {
        lemma_scan_zeros((k - 1) as nat, lo, hi);
        assert(zeros(k).drop_last() =~= zeros((k - 1) as nat));
        assert(zeros(k).last() == '0');
    }
}

/// Leading zeros do not change what digits are worth: `k` zeros followed by
/// the digits of `n` read back as `n`.
pub proof fn lemma_scan_zeros_then_digits(k: nat, n: nat, hi: int)
    requires
        n <= hi,
    ensures
        scan_digits(zeros(k) + nat_digits(n), false, 0, hi) == Ok::<int, IntErrorKind>(n as int),
    decreases n,
{
    let s = zeros(k) + nat_digits(n);
    if n < 10 {
        lemma_digit_char(n as int);
        lemma_scan_zeros(k, 0, hi);
        assert(s.drop_last() =~= zeros(k));
        assert(s.last() == digit_char(n as int));
    } else {
        lemma_digit_char((n % 10) as int);
        lemma_scan_zeros_then_digits(k, n / 10, hi);
        assert(s.drop_last() =~= zeros(k) + nat_digits(n / 10));
        assert(s.last() == digit_char((n % 10) as int));
        vstd::arithmetic::div_mod::lemma_fundamental_div_mod(n as int, 10);
        assert((n / 10) * 10 + n % 10 == n);
    }
}

/// `10^k`.
pub open spec fn ten_pow(k: nat) -> nat
    decreases k,
{
    if k == 0 {
        1
    } else {
        10 * ten_pow((k - 1) as nat)
    }
}

/// The digits of a number below `10^k` number at most `k`.
pub proof fn lemma_nat_digits_len(n: nat, k: nat)
    requires
        1 <= k,
        n < ten_pow(k),
    ensures
        nat_digits(n).len() <= k,
    decreases n,
{
    if n >= 10 {
        assert(k >= 2) by {
            if k == 1 {
                assert(ten_pow(1) == 10 * ten_pow(0));
            }
        }
        assert(ten_pow(k) == 10 * ten_pow((k - 1) as nat));
        lemma_nat_digits_len(n / 10, (k - 1) as nat);
    }
}

} // verus!
