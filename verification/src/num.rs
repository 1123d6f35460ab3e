//! Numeric width and signedness coercions.
//!
//! The wire format carries every signed integer as a sign-extended 64-bit
//! value and every unsigned integer as a zero-extended one.  Decoding narrows
//! back to the requested width by truncating to the low bits with no range
//! check, exactly like a two's-complement bit cast: out-of-range values wrap.
//! The functions here state that truncation arithmetically, as a Euclidean
//! remainder with an optional sign adjustment.

use vstd::arithmetic::div_mod::{
    lemma_fundamental_div_mod, lemma_fundamental_div_mod_converse_mod, lemma_small_mod,
};
use vstd::prelude::*;

verus! {

/// The low bits of `n` for modulus `m`, read as an unsigned value.
pub open spec fn wrap_unsigned(n: int, m: int) -> int {
    n % m
}

/// The low bits of `n` for modulus `m`, read as a two's-complement signed
/// value.
pub open spec fn wrap_signed(n: int, m: int) -> int {
    if n % m >= m / 2 {
        n % m - m
    } else {
        n % m
    }
}

/// Truncation is the identity on unsigned values that already fit.
pub proof fn lemma_wrap_unsigned_small(n: int, m: int)
    requires
        0 <= n < m,
    ensures
        wrap_unsigned(n, m) == n,
{
    lemma_small_mod(n as nat, m as nat);
}

/// Truncation is the identity on signed values that already fit.
pub proof fn lemma_wrap_signed_small(n: int, m: int)
    requires
        0 < m,
        m % 2 == 0,
        -(m / 2) <= n < m / 2,
    ensures
        wrap_signed(n, m) == n,
{
    if n >= 0 {
        lemma_small_mod(n as nat, m as nat);
    } else {
        lemma_fundamental_div_mod_converse_mod(n, m, -1, n + m);
    }
}

/// The Euclidean remainder of a signed 64-bit value by a positive modulus.
///
/// For a negative dividend this works on `w = -(v + 1)`, which always fits in
/// an unsigned word; the remainder of `v` is then `m - 1 - w % m`.
fn euclidean_mod(v: i64, m: u64) -> (r: u64)
    requires
        1 <= m,
    ensures
        r < m,
        r as int == (v as int) % (m as int),
{
    if v >= 0 {
        (v as u64) % m
    } else {
        let w: u64 = (-(v + 1)) as u64;
        let r: u64 = m - 1 - (w % m);
        proof {
            let mi = m as int;
            let wi = w as int;
            let q = wi / mi;
            lemma_fundamental_div_mod(wi, mi);
            assert((v as int) == (-q - 1) * mi + (r as int)) by (nonlinear_arith)
                requires
                    wi == mi * q + (wi % mi),
                    v as int == -wi - 1,
                    r as int == mi - 1 - (wi % mi),
            ;
            lemma_fundamental_div_mod_converse_mod(v as int, mi, -q - 1, r as int);
        }
        r
    }
}

/// Narrow a sign-extended wire integer to `u8`, wrapping.
pub fn i64_to_u8(v: i64) -> (r: u8)
    ensures
        r as int == wrap_unsigned(v as int, 0x100),
{
    euclidean_mod(v, 0x100) as u8
}

/// Narrow a sign-extended wire integer to `u16`, wrapping.
pub fn i64_to_u16(v: i64) -> (r: u16)
    ensures
        r as int == wrap_unsigned(v as int, 0x10000),
{
    euclidean_mod(v, 0x10000) as u16
}

/// Narrow a sign-extended wire integer to `u32`, wrapping.
pub fn i64_to_u32(v: i64) -> (r: u32)
    ensures
        r as int == wrap_unsigned(v as int, 0x1_0000_0000),
{
    euclidean_mod(v, 0x1_0000_0000) as u32
}

/// Reinterpret a sign-extended wire integer as `u64`, wrapping.
pub fn i64_to_u64(v: i64) -> (r: u64)
    ensures
        r as int == wrap_unsigned(v as int, 0x1_0000_0000_0000_0000),
{
    if v >= 0 {
        proof {
            lemma_small_mod(v as nat, 0x1_0000_0000_0000_0000);
        }
        v as u64
    } else {
        let w: u64 = (-(v + 1)) as u64;
        proof {
            lemma_fundamental_div_mod_converse_mod(
                v as int,
                0x1_0000_0000_0000_0000,
                -1,
                v + 0x1_0000_0000_0000_0000,
            );
        }
        u64::MAX - w
    }
}

/// Narrow a sign-extended wire integer to `i8`, wrapping.
pub fn i64_to_i8(v: i64) -> (r: i8)
    ensures
        r as int == wrap_signed(v as int, 0x100),
{
    let low = euclidean_mod(v, 0x100);
    if low >= 0x80 {
        ((low as i64) - 0x100) as i8
    } else {
        low as i8
    }
}

/// Narrow a sign-extended wire integer to `i16`, wrapping.
pub fn i64_to_i16(v: i64) -> (r: i16)
    ensures
        r as int == wrap_signed(v as int, 0x10000),
{
    let low = euclidean_mod(v, 0x10000);
    if low >= 0x8000 {
        ((low as i64) - 0x10000) as i16
    } else {
        low as i16
    }
}

/// Narrow a sign-extended wire integer to `i32`, wrapping.
pub fn i64_to_i32(v: i64) -> (r: i32)
    ensures
        r as int == wrap_signed(v as int, 0x1_0000_0000),
{
    let low = euclidean_mod(v, 0x1_0000_0000);
    if low >= 0x8000_0000 {
        ((low as i64) - 0x1_0000_0000) as i32
    } else {
        low as i32
    }
}

/// Narrow a zero-extended wire integer to `u8`, wrapping.
pub fn u64_to_u8(v: u64) -> (r: u8)
    ensures
        r as int == wrap_unsigned(v as int, 0x100),
{
    (v % 0x100) as u8
}

/// Narrow a zero-extended wire integer to `u16`, wrapping.
pub fn u64_to_u16(v: u64) -> (r: u16)
    ensures
        r as int == wrap_unsigned(v as int, 0x10000),
{
    (v % 0x10000) as u16
}

/// Narrow a zero-extended wire integer to `u32`, wrapping.
pub fn u64_to_u32(v: u64) -> (r: u32)
    ensures
        r as int == wrap_unsigned(v as int, 0x1_0000_0000),
{
    (v % 0x1_0000_0000) as u32
}

/// Narrow a zero-extended wire integer to `i8`, wrapping.
pub fn u64_to_i8(v: u64) -> (r: i8)
    ensures
        r as int == wrap_signed(v as int, 0x100),
{
    let low = v % 0x100;
    if low >= 0x80 {
        ((low as i64) - 0x100) as i8
    } else {
        low as i8
    }
}

/// Narrow a zero-extended wire integer to `i16`, wrapping.
pub fn u64_to_i16(v: u64) -> (r: i16)
    ensures
        r as int == wrap_signed(v as int, 0x10000),
{
    let low = v % 0x10000;
    if low >= 0x8000 {
        ((low as i64) - 0x10000) as i16
    } else {
        low as i16
    }
}

/// Narrow a zero-extended wire integer to `i32`, wrapping.
pub fn u64_to_i32(v: u64) -> (r: i32)
    ensures
        r as int == wrap_signed(v as int, 0x1_0000_0000),
{
    let low = v % 0x1_0000_0000;
    if low >= 0x8000_0000 {
        ((low as i64) - 0x1_0000_0000) as i32
    } else {
        low as i32
    }
}

/// Reinterpret a zero-extended wire integer as `i64`, wrapping.
pub fn u64_to_i64(v: u64) -> (r: i64)
    ensures
        r as int == wrap_signed(v as int, 0x1_0000_0000_0000_0000),
{
    proof {
        lemma_small_mod(v as nat, 0x1_0000_0000_0000_0000);
    }
    if v >= 0x8000_0000_0000_0000 {
        ((v - 0x8000_0000_0000_0000) as i64) + i64::MIN
    } else {
        v as i64
    }
}

/// Relies on `char::from_u32` of std: the result is `Some` exactly when the
/// argument is a Unicode scalar value, and the returned character has the
/// argument as its code point.
#[verifier::external_body]
pub fn char_from_u32(u: u32) -> (r: Option<char>)
    ensures
        r is Some <==> vstd::utf8::is_scalar(u),
        r matches Some(c) ==> c as u32 == u && c as int == u as int,
{
    char::from_u32(u)
}

} // verus!
