use vstd::prelude::*;

use chrono::{DateTime, Utc};

verus! {

/// Appends `c` to `s` with `String::push`.
#[verifier::external_body]
pub(crate) fn push_char(s: &mut String, c: char)
    ensures
        final(s)@ == old(s)@.push(c),
{
    s.push(c);
}

/// Appends `t` to `s` with `String::push_str`.
#[verifier::external_body]
pub(crate) fn push_str(s: &mut String, t: &str)
    ensures
        final(s)@ == old(s)@ + t@,
{
    s.push_str(t);
}

/// The text that the `Debug` formatting of std gives for the string `s`:
/// the string quoted, with its special characters escaped.
pub uninterp spec fn spec_str_debug(s: Seq<char>) -> Seq<char>;

/// Formats `t` with std's `Debug` formatting of strings.
#[verifier::external_body]
pub(crate) fn str_debug(t: &str) -> (r: String)
    ensures
        r@ == spec_str_debug(t@),
{
    format!("{:?}", t)
}

/// The text that chrono gives for the UTC date `epoch_seconds` seconds after
/// the Unix epoch, formatted with the strftime pattern `pattern`; `None`
/// when chrono has no date for that many seconds.
pub uninterp spec fn spec_utc_date_text(epoch_seconds: i64, pattern: Seq<char>) -> Option<Seq<char>>;

/// The strftime pattern of the dates shown: year, month, day, hours,
/// minutes and seconds.
pub open spec fn spec_date_pattern() -> Seq<char> {
    "%Y-%m-%d %H:%M:%S"@
}

/// Calls chrono's `DateTime::<Utc>::from_timestamp(epoch_seconds, 0)` and
/// formats the date with `DateTime::format(pattern)`; `None` when chrono
/// gives no date for that many seconds (it documents that for seconds out
/// of its range). Only the well-formed pattern of [`spec_date_pattern`] is
/// taken: chrono's formatting fails, and `to_string` panics, on a malformed one.
#[verifier::external_body]
pub(crate) fn utc_date_text(epoch_seconds: i64, pattern: &str) -> (r: Option<String>)
    requires
        pattern@ == spec_date_pattern(),
    ensures
        match r {
            Some(t) => spec_utc_date_text(epoch_seconds, pattern@) == Some(t@),
            None => spec_utc_date_text(epoch_seconds, pattern@) is None,
        },
{
    match DateTime::<Utc>::from_timestamp(epoch_seconds, 0) {
        Some(dt) => Some(dt.format(pattern).to_string()),
        None => None,
    }
}

/// The digits, upper-case or lower-case for those above 9.
pub open spec fn spec_digits(upper: bool) -> Seq<char> {
    if upper {
        seq!['0', '1', '2', '3', '4', '5', '6', '7', '8', '9', 'A', 'B', 'C', 'D', 'E', 'F']
    } else {
        seq!['0', '1', '2', '3', '4', '5', '6', '7', '8', '9', 'a', 'b', 'c', 'd', 'e', 'f']
    }
}

/// The digit of value `d` (below 16).
pub fn digit(d: u8, upper: bool) -> (r: char)
    requires
        d < 16,
    ensures
        r == spec_digits(upper)[d as int],
{
    match d {
        0 => '0',
        1 => '1',
        2 => '2',
        3 => '3',
        4 => '4',
        5 => '5',
        6 => '6',
        7 => '7',
        8 => '8',
        9 => '9',
        10 => if upper {
            'A'
        } else {
            'a'
        },
        11 => if upper {
            'B'
        } else {
            'b'
        },
        12 => if upper {
            'C'
        } else {
            'c'
        },
        13 => if upper {
            'D'
        } else {
            'd'
        },
        14 => if upper {
            'E'
        } else {
            'e'
        },
        _ => if upper {
            'F'
        } else {
            'f'
        },
    }
}

/// The digits of `v` in base `base` (10 or 16), without leading zeros.
pub open spec fn spec_in_base(v: nat, base: nat, upper: bool) -> Seq<char>
    decreases v,
{
    if base < 2 || v < base {
        seq![spec_digits(upper)[v as int]]
    } else {
        proof {
            assert(v / base < v) by (nonlinear_arith)
                requires
                    base >= 2,
                    v >= base,
            ;
        }
        spec_in_base(v / base, base, upper).push(spec_digits(upper)[(v % base) as int])
    }
}

/// The decimal digits of `v`.
pub open spec fn spec_decimal(v: nat) -> Seq<char> {
    spec_in_base(v, 10, true)
}

/// The hexadecimal digits of `v`.
pub open spec fn spec_hex(v: nat, upper: bool) -> Seq<char> {
    spec_in_base(v, 16, upper)
}

/// `k` zero digits.
pub open spec fn spec_zeros(k: nat) -> Seq<char> {
    Seq::new(k, |i: int| '0')
}

/// `digits` preceded by zeros up to `width` characters.
pub open spec fn spec_zero_pad(digits: Seq<char>, width: nat) -> Seq<char> {
    if digits.len() < width {
        spec_zeros((width - digits.len()) as nat) + digits
    } else {
        digits
    }
}

/// The decimal text of the signed `v`.
pub open spec fn spec_signed_decimal(v: int) -> Seq<char> {
    if v < 0 {
        seq!['-'] + spec_decimal((-v) as nat)
    } else {
        spec_decimal(v as nat)
    }
}

/// The number of digits of `v` in base `base` (10 or 16).
pub fn digit_count(v: u64, base: u64) -> (r: usize)
    requires
        base == 10 || base == 16,
    ensures
        r == spec_in_base(v as nat, base as nat, true).len(),
        forall|upper: bool| #[trigger] spec_in_base(v as nat, base as nat, upper).len() == r,
    decreases v,
{
    if v < base {
        1
    } else {
        let n = digit_count(v / base, base);
        proof {
            assert forall|upper: bool| #[trigger]
                spec_in_base(v as nat, base as nat, upper).len() == n + 1 by {
                assert(spec_in_base((v / base) as nat, base as nat, upper).len() == n);
            }
        }
        assert(n < 20) by {
            lemma_digits_at_most_20(v as nat, base as nat);
        }
        n + 1
    }
}

/// A 64-bit number has at most 20 digits in base 10 or 16.
proof fn lemma_digits_at_most_20(v: nat, base: nat)
    requires
        base == 10 || base == 16,
        v <= u64::MAX,
    ensures
        spec_in_base(v, base, true).len() <= 20,
{
    reveal_with_fuel(spec_pow, 21);
    lemma_len_by_bound(v, base, 20);
}

/// `base^k` for the bounds of the digit counts.
pub open spec fn spec_pow(base: nat, k: nat) -> nat
    decreases k,
{
    if k == 0 {
        1
    } else {
        base * spec_pow(base, (k - 1) as nat)
    }
}

/// A number below `base^k` has at most `k` digits.
proof fn lemma_len_by_bound(v: nat, base: nat, k: nat)
    requires
        base == 10 || base == 16,
        k >= 1,
        v < spec_pow(base, k),
    ensures
        spec_in_base(v, base, true).len() <= k,
    decreases k,
{
    if v >= base {
        assert(spec_pow(base, k) == base * spec_pow(base, (k - 1) as nat));
        assert(v / base < spec_pow(base, (k - 1) as nat)) by (nonlinear_arith)
            requires
                v < base * spec_pow(base, (k - 1) as nat),
                base > 0,
        ;
        if k == 1 {
            assert(spec_pow(base, 0) == 1);
            assert(v < base);
        } else {
            lemma_len_by_bound(v / base, base, (k - 1) as nat);
        }
    }
}

/// Appends the digits of `v` in base `base` (10 or 16).
pub fn push_in_base(s: &mut String, v: u64, base: u64, upper: bool)
    requires
        base == 10 || base == 16,
    ensures
        final(s)@ == old(s)@ + spec_in_base(v as nat, base as nat, upper),
    decreases v,
{
    if v >= base {
        push_in_base(s, v / base, base, upper);
    }
    let ghost mid = s@;
    push_char(s, digit((v % base) as u8, upper));
    proof {
        if v >= base {
            assert(s@ =~= old(s)@ + spec_in_base(v as nat, base as nat, upper));
        } else {
            assert(v % base == v);
            assert(s@ =~= old(s)@ + spec_in_base(v as nat, base as nat, upper));
        }
    }
}

/// Appends the decimal digits of `v`.
pub fn push_decimal(s: &mut String, v: u64)
    ensures
        final(s)@ == old(s)@ + spec_decimal(v as nat),
{
    push_in_base(s, v, 10, true);
}

/// Appends the digits of `v` in base `base` (10 or 16), preceded by zeros
/// up to `width` characters.
pub fn push_padded(s: &mut String, v: u64, base: u64, width: usize, upper: bool)
    requires
        base == 10 || base == 16,
    ensures
        final(s)@ == old(s)@ + spec_zero_pad(spec_in_base(v as nat, base as nat, upper), width as nat),
{
    let n = digit_count(v, base);
    let mut i = n;
    while i < width
        invariant
            n <= i,
            n == spec_in_base(v as nat, base as nat, upper).len(),
            i <= width || i == n,
            s@ == old(s)@ + spec_zeros((i - n) as nat),
        decreases width - i,
    {
        push_char(s, '0');
        proof {
            assert(spec_zeros((i + 1 - n) as nat) =~= spec_zeros((i - n) as nat).push('0'));
        }
        i = i + 1;
    }
    push_in_base(s, v, base, upper);
    proof {
        let d = spec_in_base(v as nat, base as nat, upper);
        if n < width {
            assert(i == width);
            assert(s@ =~= old(s)@ + spec_zero_pad(d, width as nat));
        } else {
            assert(i == n);
            assert(spec_zeros(0) =~= Seq::<char>::empty());
            assert(s@ =~= old(s)@ + spec_zero_pad(d, width as nat));
        }
    }
}

/// Appends the decimal text of the signed `v`.
pub fn push_signed(s: &mut String, v: i64)
    ensures
        final(s)@ == old(s)@ + spec_signed_decimal(v as int),
{
    if v < 0 {
        push_char(s, '-');
        let m: u64 = if v == i64::MIN {
            0x8000_0000_0000_0000u64
        } else {
            (-v) as u64
        };
        push_decimal(s, m);
        proof {
            assert(s@ =~= old(s)@ + spec_signed_decimal(v as int));
        }
    } else {
        push_decimal(s, v as u64);
    }
}


/// Bytes in lower-case hexadecimal, two digits each, separated by spaces.
pub open spec fn spec_payload_text(bytes: Seq<u8>) -> Seq<char>
    decreases bytes.len(),
{
    if bytes.len() == 0 {
        Seq::empty()
    } else if bytes.len() == 1 {
        spec_zero_pad(spec_hex(bytes[0] as nat, false), 2)
    } else {
        spec_payload_text(bytes.drop_last()) + seq![' '] + spec_zero_pad(
            spec_hex(bytes.last() as nat, false),
            2,
        )
    }
}

/// Formats bytes in lower-case hexadecimal, two digits each, separated by
/// spaces.
pub fn format_payload(bytes: &[u8]) -> (r: String)
    ensures
        r@ == spec_payload_text(bytes@),
{
    let mut s = String::new();
    let mut i: usize = 0;
    while i < bytes.len()
        invariant
            i <= bytes@.len(),
            s@ == spec_payload_text(bytes@.subrange(0, i as int)),
        decreases bytes@.len() - i,
    {
        let ghost before = s@;
        if i > 0 {
            push_char(&mut s, ' ');
        }
        push_padded(&mut s, bytes[i] as u64, 16, 2, false);
        proof {
            let sub = bytes@.subrange(0, i + 1);
            assert(sub.drop_last() =~= bytes@.subrange(0, i as int));
            assert(sub.last() == bytes@[i as int]);
            if i == 0 {
                assert(s@ =~= spec_payload_text(sub));
            } else {
                assert(s@ =~= spec_payload_text(sub));
            }
        }
        i = i + 1;
    }
    proof {
        assert(bytes@.subrange(0, bytes@.len() as int) =~= bytes@);
    }
    s
}

} // verus!
