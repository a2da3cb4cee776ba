//! Reading numbers the way the command line writes them, and rendering
//! values the way the tool prints them: `0x` plus 16 lowercase hex digits.

use vstd::prelude::*;
use crate::error::PmemError;

verus! {

/// The value of one digit byte under the radix, or `None` for a non-digit.
/// Letter digits, in either case, count only under radix 16.
pub open spec fn spec_digit(b: u8, radix: u64) -> Option<u64> {
    if 48 <= b <= 57 {
        Some((b - 48) as u64)
    } else if radix == 16 && 97 <= b <= 102 {
        Some((b - 87) as u64)
    } else if radix == 16 && 65 <= b <= 70 {
        Some((b - 55) as u64)
    } else {
        None
    }
}

pub open spec fn spec_digit_or_zero(b: u8, radix: u64) -> int {
    match spec_digit(b, radix) {
        Some(d) => d as int,
        None => 0,
    }
}

/// Every byte of `s` is a digit under the radix.
pub open spec fn valid_digits(s: Seq<u8>, radix: u64) -> bool {
    forall|i: int| 0 <= i < s.len() ==> spec_digit(s[i], radix) is Some
}

/// The mathematical value of a digit string, most significant digit first.
pub open spec fn digits_val(s: Seq<u8>, radix: u64) -> int
    decreases s.len(),
{
    if s.len() == 0 {
        0
    } else {
        digits_val(s.drop_last(), radix) * radix + spec_digit_or_zero(s.last(), radix)
    }
}

/// The digit string proper: a single leading `+` is allowed and ignored.
pub open spec fn body_of(t: Seq<u8>) -> Seq<u8> {
    if t.len() > 0 && t[0] == 43 {
        t.skip(1)
    } else {
        t
    }
}

/// The number a digit body (after any radix prefix) denotes: a leading `+`
/// is allowed, then at least one digit, and the value must fit in a `u64`.
pub open spec fn spec_parse_body(t: Seq<u8>, radix: u64) -> Option<u64> {
    let body = body_of(t);
    if body.len() > 0 && valid_digits(body, radix) && digits_val(body, radix) <= u64::MAX {
        Some(digits_val(body, radix) as u64)
    } else {
        None
    }
}

/// The number `s` denotes: hexadecimal after a `0x` or `0X` prefix,
/// decimal otherwise.
pub open spec fn spec_maybe_hex(s: Seq<u8>) -> Option<u64> {
    if s.len() >= 2 && s[0] == 48 && (s[1] == 120 || s[1] == 88) {
        spec_parse_body(s.skip(2), 16)
    } else {
        spec_parse_body(s, 10)
    }
}

pub proof fn lemma_digits_val_nonneg(s: Seq<u8>, radix: u64)
    requires
        radix >= 1,
    ensures
        digits_val(s, radix) >= 0,
    decreases s.len(),
{
    if s.len() > 0 {
        lemma_digits_val_nonneg(s.drop_last(), radix);
        let v = digits_val(s.drop_last(), radix);
        let d = spec_digit_or_zero(s.last(), radix);
        assert(v * radix >= 0) by (nonlinear_arith)
            requires
                v >= 0,
                radix >= 1,
        ;
    }
}

/// Appending further digits never shrinks the value.
pub proof fn lemma_digits_val_prefix_le(s: Seq<u8>, radix: u64, k: int)
    requires
        radix >= 1,
        0 <= k <= s.len(),
    ensures
        digits_val(s.take(k), radix) <= digits_val(s, radix),
    decreases s.len() - k,
{
    if k < s.len() {
        lemma_digits_val_prefix_le(s, radix, k + 1);
        let p = s.take(k);
        let q = s.take(k + 1);
        assert(q.drop_last() =~= p);
        let v = digits_val(p, radix);
        let d = spec_digit_or_zero(q.last(), radix);
        lemma_digits_val_nonneg(p, radix);
        assert(v * radix + d >= v) by (nonlinear_arith)
            requires
                v >= 0,
                d >= 0,
                radix >= 1,
        ;
    } else {
        assert(s.take(k) =~= s);
    }
}

fn digit(b: u8, radix: u64) -> (r: Option<u64>)
    requires
        radix == 10 || radix == 16,
    ensures
        r == spec_digit(b, radix),
        r matches Some(d) ==> d < radix,
{
    if 48 <= b && b <= 57 {
        Some((b - 48) as u64)
    } else if radix == 16 && 97 <= b && b <= 102 {
        Some((b - 87) as u64)
    } else if radix == 16 && 65 <= b && b <= 70 {
        Some((b - 55) as u64)
    } else {
        None
    }
}

/// Parses the digit body of `s` from `start` on under the radix.
fn parse_body(s: &[u8], start: usize, radix: u64) -> (r: Result<u64, PmemError>)
    requires
        start <= s@.len(),
        radix == 10 || radix == 16,
    ensures
        match r {
            Ok(v) => spec_parse_body(s@.skip(start as int), radix) == Some(v),
            Err(e) => spec_parse_body(s@.skip(start as int), radix) is None && e
                == PmemError::MalformedNumber,
        },
{
    let ghost t = s@.skip(start as int);
    let n = s.len();
    let first = if start < n && s[start] == 43 {
        start + 1
    } else {
        start
    };
    let ghost body = s@.skip(first as int);
    proof {
        if t.len() > 0 && t[0] == 43 {
            assert(body =~= t.skip(1));
        } else {
            assert(body =~= t);
        }
        assert(body == body_of(t));
    }
    if first == n {
        return Err(PmemError::MalformedNumber);
    }
    let mut acc: u64 = 0;
    let mut i: usize = first;
    while i < n
        invariant
            first <= i <= n,
            first < n,
            n == s@.len(),
            start <= first,
            radix == 10 || radix == 16,
            body == s@.skip(first as int),
            body == body_of(s@.skip(start as int)),
            valid_digits(body.take(i - first), radix),
            acc == digits_val(body.take(i - first), radix),
        decreases n - i,
    {
        let ghost done = body.take(i - first);
        let d = match digit(s[i], radix) {
            Some(d) => d,
            None => {
                assert(spec_digit(body[i - first], radix) is None);
                return Err(PmemError::MalformedNumber);
            },
        };
        proof {
            assert(body.take(i + 1 - first).drop_last() =~= done);
            assert(body.take(i + 1 - first).last() == body[i - first]);
            lemma_digits_val_nonneg(done, radix);
        }
        if acc > (u64::MAX - d) / radix {
            proof {
                let v: int = acc as int;
                let m: int = u64::MAX - d;
                let rx: int = radix as int;
                assert(v * rx > m) by (nonlinear_arith)
                    requires
                        v > m / rx,
                        rx >= 1,
                        m >= 0,
                ;
                assert(digits_val(body.take(i + 1 - first), radix) > u64::MAX);
                lemma_digits_val_prefix_le(body, radix, i + 1 - first);
            }
            return Err(PmemError::MalformedNumber);
        }
        proof {
            let v: int = acc as int;
            let m: int = u64::MAX - d;
            let rx: int = radix as int;
            assert(v * rx <= m) by (nonlinear_arith)
                requires
                    v <= m / rx,
                    v >= 0,
                    rx >= 1,
                    m >= 0,
            ;
        }
        acc = acc * radix + d;
        i += 1;
    }
    proof {
        assert(body.take(n - first) =~= body);
    }
    Ok(acc)
}

/// Reads a `u64` written in decimal, or in hexadecimal after a `0x` or
/// `0X` prefix, rejecting anything else.
pub fn maybe_hex(s: &[u8]) -> (r: Result<u64, PmemError>)
    ensures
        match r {
            Ok(v) => spec_maybe_hex(s@) == Some(v),
            Err(e) => spec_maybe_hex(s@) is None && e == PmemError::MalformedNumber,
        },
{
    if s.len() >= 2 && s[0] == 48 && (s[1] == 120 || s[1] == 88) {
        parse_body(s, 2, 16)
    } else {
        proof {
            assert(s@.skip(0) =~= s@);
        }
        parse_body(s, 0, 10)
    }
}

/// The lowercase hex character of a nibble.
pub open spec fn spec_hex_char(nib: u64) -> char {
    if nib == 0 { '0' } else if nib == 1 { '1' } else if nib == 2 { '2' } else if nib == 3 { '3' }
    else if nib == 4 { '4' } else if nib == 5 { '5' } else if nib == 6 { '6' } else if nib == 7 { '7' }
    else if nib == 8 { '8' } else if nib == 9 { '9' } else if nib == 10 { 'a' } else if nib == 11 { 'b' }
    else if nib == 12 { 'c' } else if nib == 13 { 'd' } else if nib == 14 { 'e' } else { 'f' }
}

/// The canonical text form of a 64-bit value: `0x`, then 16 lowercase hex
/// digits, most significant nibble first.
pub open spec fn spec_hex16(v: u64) -> Seq<char> {
    Seq::new(18, |i: int| if i == 0 { '0' } else if i == 1 { 'x' } else {
        spec_hex_char((v >> (((17 - i) * 4) as u64)) & 0xf)
    })
}

fn hex_char_str(nib: u64) -> (r: &'static str)
    requires
        nib <= 15,
    ensures
        r@ =~= seq![spec_hex_char(nib)],
{
    proof {
        reveal_strlit("0");
        reveal_strlit("1");
        reveal_strlit("2");
        reveal_strlit("3");
        reveal_strlit("4");
        reveal_strlit("5");
        reveal_strlit("6");
        reveal_strlit("7");
        reveal_strlit("8");
        reveal_strlit("9");
        reveal_strlit("a");
        reveal_strlit("b");
        reveal_strlit("c");
        reveal_strlit("d");
        reveal_strlit("e");
        reveal_strlit("f");
    }
    if nib == 0 { "0" } else if nib == 1 { "1" } else if nib == 2 { "2" } else if nib == 3 { "3" }
    else if nib == 4 { "4" } else if nib == 5 { "5" } else if nib == 6 { "6" } else if nib == 7 { "7" }
    else if nib == 8 { "8" } else if nib == 9 { "9" } else if nib == 10 { "a" } else if nib == 11 { "b" }
    else if nib == 12 { "c" } else if nib == 13 { "d" } else if nib == 14 { "e" } else { "f" }
}

/// Renders `v` as `0x` plus 16 lowercase, zero-padded hex digits.
pub fn render_hex(v: u64) -> (r: String)
    ensures
        r@ == spec_hex16(v),
{
    let mut s = String::from_str("0x");
    proof {
        reveal_strlit("0x");
        assert(s@ =~= spec_hex16(v).take(2));
    }
    let mut k: usize = 0;
    while k < 16
        invariant
            0 <= k <= 16,
            s@ == spec_hex16(v).take(2 + k),
        decreases 16 - k,
    {
        let shift: u64 = (15 - k as u64) * 4;
        let nib = (v >> shift) & 0xf;
        proof {
            assert((v >> shift) & 0xf <= 15) by (bit_vector);
        }
        s.append(hex_char_str(nib));
        proof {
            assert(s@ =~= spec_hex16(v).take(2 + k + 1));
        }
        k += 1;
    }
    proof {
        assert(spec_hex16(v).take(18) =~= spec_hex16(v));
    }
    s
}

/// The decimal text of `v`, no sign, no padding.
pub open spec fn spec_dec(v: u64) -> Seq<char>
    decreases v,
{
    if v < 10 {
        seq![spec_hex_char(v)]
    } else {
        spec_dec(v / 10).push(spec_hex_char(v % 10))
    }
}

/// Renders `v` in decimal.
pub fn render_dec(v: u64) -> (r: String)
    ensures
        r@ == spec_dec(v),
    decreases v,
{
    if v < 10 {
        let mut s = String::new();
        s.append(hex_char_str(v));
        proof {
            assert(s@ =~= spec_dec(v));
        }
        s
    } else {
        let mut s = render_dec(v / 10);
        s.append(hex_char_str(v % 10));
        proof {
            assert(s@ =~= spec_dec(v));
        }
        s
    }
}

} // verus!
