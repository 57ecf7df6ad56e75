//! Unsigned 256-bit amounts with saturating arithmetic.
//!
//! A [`U256`] holds four little-endian 64-bit words, the layout of the
//! ledger's own `U256`. Its view is the natural number it denotes; the
//! arithmetic is carried out by casper-types and stated here over that view.
use vstd::prelude::*;

verus! {

/// 2^64.
pub open spec fn word_base() -> nat {
    0x1_0000_0000_0000_0000nat
}

/// The largest value a `U256` holds: 2^256 - 1.
pub open spec fn u256_max() -> nat {
    0xffff_ffff_ffff_ffff_ffff_ffff_ffff_ffff_ffff_ffff_ffff_ffff_ffff_ffff_ffff_ffffnat
}

/// `x` clamped into `[0, u256_max()]`: what saturating arithmetic yields.
pub open spec fn sat(x: int) -> int {
    if x < 0 {
        0
    } else if x > u256_max() {
        u256_max() as int
    } else {
        x
    }
}

/// An unsigned 256-bit integer as four little-endian 64-bit words.
#[derive(Clone, Copy, Debug, PartialEq, Eq, Structural)]
pub struct U256 {
    pub w0: u64,
    pub w1: u64,
    pub w2: u64,
    pub w3: u64,
}

impl View for U256 {
    type V = int;

    open spec fn view(&self) -> int {
        self.w0 + word_base() * (self.w1 + word_base() * (self.w2 + word_base() * self.w3))
    }
}

/// Every `U256` lies in `[0, u256_max()]`.
pub proof fn lemma_u256_bounded(x: U256)
    ensures
        0 <= x@ <= u256_max(),
{
    let b = word_base();
    let l2 = x.w2 + b * x.w3;
    assert(l2 <= b * b - 1) by (nonlinear_arith)
        requires
            l2 == x.w2 + b * x.w3,
            x.w2 < b,
            x.w3 < b,
            b == word_base(),
    ;
    let l1 = x.w1 + b * l2;
    assert(l1 <= b * b * b - 1) by (nonlinear_arith)
        requires
            l1 == x.w1 + b * l2,
            x.w1 < b,
            l2 <= b * b - 1,
            b == word_base(),
    ;
    assert(x@ <= b * b * b * b - 1) by (nonlinear_arith)
        requires
            x@ == x.w0 + b * l1,
            x.w0 < b,
            l1 <= b * b * b - 1,
            b == word_base(),
    ;
    assert(b * b * b * b - 1 == u256_max());
}

/// A value below 2^64 sits in the lowest word alone.
proof fn lemma_small_value(x: U256)
    requires
        x@ < word_base(),
    ensures
        x.w1 == 0,
        x.w2 == 0,
        x.w3 == 0,
        x@ == x.w0,
{
    let b = word_base();
    let rest = x.w1 + b * (x.w2 + b * x.w3 as nat);
    assert(rest == 0) by (nonlinear_arith)
        requires
            x@ == x.w0 + b * rest,
            x@ < b,
            rest >= 0,
            b > 0,
    ;
    assert(x.w1 == 0 && x.w2 + b * x.w3 as nat == 0) by (nonlinear_arith)
        requires
            rest == x.w1 + b * (x.w2 + b * x.w3 as nat),
            rest == 0,
            b > 0,
    ;
    assert(x.w2 == 0 && x.w3 == 0) by (nonlinear_arith)
        requires
            x.w2 + b * x.w3 as nat == 0,
            b > 0,
    ;
}

impl U256 {
    /// Zero.
    pub fn zero() -> (r: U256)
        ensures
            r@ == 0,
    {
        U256 { w0: 0, w1: 0, w2: 0, w3: 0 }
    }

    /// One.
    pub fn one() -> (r: U256)
        ensures
            r@ == 1,
    {
        U256 { w0: 1, w1: 0, w2: 0, w3: 0 }
    }

    /// The largest value, 2^256 - 1.
    pub fn max_value() -> (r: U256)
        ensures
            r@ == u256_max(),
    {
        let r = U256 { w0: u64::MAX, w1: u64::MAX, w2: u64::MAX, w3: u64::MAX };
        assert(r@ == u256_max());
        r
    }

    /// The value `v`.
    pub fn from_u64(v: u64) -> (r: U256)
        ensures
            r@ == v,
    {
        U256 { w0: v, w1: 0, w2: 0, w3: 0 }
    }

    /// Whether the value is zero.
    pub fn is_zero(&self) -> (r: bool)
        ensures
            r == (self@ == 0),
    {
        proof {
            if self@ == 0 {
                lemma_small_value(*self);
            }
        }
        self.w0 == 0 && self.w1 == 0 && self.w2 == 0 && self.w3 == 0
    }

    /// The value as a `u64`, for a value that fits in one.
    pub fn as_u64(&self) -> (r: u64)
        requires
            self@ <= u64::MAX,
        ensures
            r == self@,
    {
        proof {
            lemma_small_value(*self);
        }
        self.w0
    }

    /// Whether `self < other`.
    pub fn lt(&self, other: &U256) -> (r: bool)
        ensures
            r == (self@ < other@),
    {
        less_than(*self, *other)
    }

    /// Whether `self <= other`.
    pub fn le(&self, other: &U256) -> (r: bool)
        ensures
            r == (self@ <= other@),
    {
        !less_than(*other, *self)
    }
}

/// Relies on casper-types' `U256::saturating_add` (uint's `construct_uint!`):
/// the sum, or `U256::MAX` where it overflows.
#[verifier::external_body]
pub(crate) fn add_sat(a: U256, b: U256) -> (r: U256)
    ensures
        r@ == sat(a@ + b@),
{
    let x = casper_types::U256([a.w0, a.w1, a.w2, a.w3]);
    let y = casper_types::U256([b.w0, b.w1, b.w2, b.w3]);
    let z = x.saturating_add(y);
    U256 { w0: z.0[0], w1: z.0[1], w2: z.0[2], w3: z.0[3] }
}

/// Relies on casper-types' `U256::saturating_sub` (uint's `construct_uint!`):
/// the difference, or zero where it would go below zero.
#[verifier::external_body]
pub(crate) fn sub_sat(a: U256, b: U256) -> (r: U256)
    ensures
        r@ == sat(a@ - b@),
{
    let x = casper_types::U256([a.w0, a.w1, a.w2, a.w3]);
    let y = casper_types::U256([b.w0, b.w1, b.w2, b.w3]);
    let z = x.saturating_sub(y);
    U256 { w0: z.0[0], w1: z.0[1], w2: z.0[2], w3: z.0[3] }
}

/// Relies on casper-types' `U256::saturating_mul` (uint's `construct_uint!`):
/// the product, or `U256::MAX` where it overflows.
#[verifier::external_body]
pub(crate) fn mul_sat(a: U256, b: U256) -> (r: U256)
    ensures
        r@ == sat(a@ * b@),
{
    let x = casper_types::U256([a.w0, a.w1, a.w2, a.w3]);
    let y = casper_types::U256([b.w0, b.w1, b.w2, b.w3]);
    let z = x.saturating_mul(y);
    U256 { w0: z.0[0], w1: z.0[1], w2: z.0[2], w3: z.0[3] }
}

/// Relies on casper-types' `U256` division (`Div`, through `div_mod`): the
/// quotient rounded down. It panics on a zero divisor, which is excluded.
#[verifier::external_body]
pub(crate) fn div_floor(a: U256, b: U256) -> (r: U256)
    requires
        b@ > 0,
    ensures
        r@ == a@ / b@,
{
    let x = casper_types::U256([a.w0, a.w1, a.w2, a.w3]);
    let y = casper_types::U256([b.w0, b.w1, b.w2, b.w3]);
    let z = x / y;
    U256 { w0: z.0[0], w1: z.0[1], w2: z.0[2], w3: z.0[3] }
}

/// Relies on casper-types' `U256` ordering (`Ord::cmp`, words compared from the
/// most significant): whether `a` is below `b`.
#[verifier::external_body]
fn less_than(a: U256, b: U256) -> (r: bool)
    ensures
        r == (a@ < b@),
{
    let x = casper_types::U256([a.w0, a.w1, a.w2, a.w3]);
    let y = casper_types::U256([b.w0, b.w1, b.w2, b.w3]);
    x < y
}

} // verus!
