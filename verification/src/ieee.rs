//! Floating-point numbers, held by their bit patterns.
//!
//! Verified code computes with integers only, so a number in one of the two
//! IEEE 754 binary formats is carried as the integer that encodes it. Two
//! numbers are the same here when their encodings are the same: a zero and
//! its negative differ, and a not-a-number equals itself.
//!
//! The one computation is the conversion of an integer: to the nearest
//! number of the format, and of two that are equally near to the one whose
//! significand is even.

use vstd::prelude::*;
use vstd::arithmetic::power2::{
    lemma2_to64,
    lemma2_to64_rest,
    lemma_pow2_adds,
    lemma_pow2_pos,
    lemma_pow2_strictly_increases,
    lemma_pow2_unfold,
    pow2,
};

verus! {

/// A double-precision number (IEEE 754 binary64), by its encoding.
#[derive(Clone, Copy, Debug, PartialEq, Eq, Structural)]
pub struct Binary64 {
    pub bits: u64,
}

/// A single-precision number (IEEE 754 binary32), by its encoding.
#[derive(Clone, Copy, Debug, PartialEq, Eq, Structural)]
pub struct Binary32 {
    pub bits: u32,
}

/// The bits of fraction in a double-precision number, and the bias of its
/// exponent.
pub const BINARY64_FRACTION_BITS: u32 = 52;

pub const BINARY64_BIAS: u64 = 1023;

/// The same for a single-precision number.
pub const BINARY32_FRACTION_BITS: u32 = 23;

pub const BINARY32_BIAS: u64 = 127;

/// The position of the highest set bit of `m`: the `e` with
/// `2^e <= m < 2^(e + 1)`, for `m` of 1 or more.
pub open spec fn floor_log2(m: nat) -> nat
    decreases m,
{
    if m <= 1 {
        0
    } else {
        1 + floor_log2(m / 2)
    }
}

/// `m / 2^shift`, rounded to the nearest integer, and to the even one of
/// two that are equally near.
pub open spec fn round_half_even(m: nat, shift: nat) -> nat {
    let unit = pow2(shift);
    let q = m / unit;
    let r = m % unit;
    if 2 * r > unit || (2 * r == unit && q % 2 == 1) {
        q + 1
    } else {
        q
    }
}

/// The significand that stands for `m` in a format with `fraction_bits` bits
/// of fraction: `m` scaled by a power of two into `2^fraction_bits` and
/// upwards, exactly where `m` is short enough and rounded where it is not.
/// Rounding may carry it to `2^(fraction_bits + 1)`.
pub open spec fn significand_of(m: nat, fraction_bits: nat) -> nat {
    let e = floor_log2(m);
    if e <= fraction_bits {
        m * pow2((fraction_bits - e) as nat)
    } else {
        round_half_even(m, (e - fraction_bits) as nat)
    }
}

/// The encoding of the positive integer `m`, without the sign bit: the
/// biased exponent above the fraction. The significand's leading bit is not
/// stored; a significand that rounding has carried one bit further adds
/// one to the exponent and leaves a fraction of zero.
pub open spec fn encoded_magnitude(m: nat, fraction_bits: nat, bias: nat) -> nat {
    ((floor_log2(m) + bias) * pow2(fraction_bits) + significand_of(m, fraction_bits) - pow2(
        fraction_bits,
    )) as nat
}

/// The encoding of the integer `i` in a format: zero for zero, else the
/// encoding of its magnitude, under a sign bit at `sign_position` where `i`
/// is negative.
pub open spec fn encoded_int(i: int, fraction_bits: nat, bias: nat, sign_position: nat) -> nat {
    if i == 0 {
        0
    } else if i > 0 {
        encoded_magnitude(i as nat, fraction_bits, bias)
    } else {
        pow2(sign_position) + encoded_magnitude((-i) as nat, fraction_bits, bias)
    }
}

/// The double-precision number nearest to `i`.
pub open spec fn binary64_of_int(i: int) -> Binary64 {
    Binary64 {
        bits: encoded_int(i, BINARY64_FRACTION_BITS as nat, BINARY64_BIAS as nat, 63) as u64,
    }
}

/// The single-precision number nearest to `i`.
pub open spec fn binary32_of_int(i: int) -> Binary32 {
    Binary32 {
        bits: encoded_int(i, BINARY32_FRACTION_BITS as nat, BINARY32_BIAS as nat, 31) as u32,
    }
}

/// `floor_log2(m)` is the `e` with `2^e <= m < 2^(e + 1)`.
pub proof fn lemma_floor_log2_brackets(m: nat)
    requires
        m >= 1,
    ensures
        pow2(floor_log2(m)) <= m < pow2(floor_log2(m) + 1),
    decreases m,
{
    lemma2_to64();
    if m > 1 {
        lemma_floor_log2_brackets(m / 2);
        lemma_pow2_unfold(floor_log2(m));
        lemma_pow2_unfold(floor_log2(m) + 1);
    }
}

/// No other `e` has `2^e <= m < 2^(e + 1)`.
pub proof fn lemma_floor_log2_unique(m: nat, e: nat)
    requires
        pow2(e) <= m < pow2(e + 1),
    ensures
        floor_log2(m) == e,
{
    lemma_pow2_pos(e);
    lemma_floor_log2_brackets(m);
    let l = floor_log2(m);
    if l < e {
        if l + 1 < e {
            lemma_pow2_strictly_increases(l + 1, e);
        }
    } else if e < l {
        if e + 1 < l {
            lemma_pow2_strictly_increases(e + 1, l);
        }
    }
}

/// `2^n`, for an `n` that leaves room for it.
fn power_of_two(n: u32) -> (p: u64)
    requires
        n <= 63,
    ensures
        p == pow2(n as nat),
{
    let mut p: u64 = 1;
    let mut k: u32 = 0;
    proof {
        lemma2_to64();
    }
    while k < n
        invariant
            k <= n <= 63,
            p == pow2(k as nat),
        decreases n - k,
    {
        proof {
            lemma_pow2_unfold((k + 1) as nat);
            lemma2_to64_rest();
            if k + 1 < 63 {
                lemma_pow2_strictly_increases((k + 1) as nat, 63);
            }
        }
        p = p * 2;
        k = k + 1;
    }
    p
}

/// The position of the highest set bit of `m`.
fn highest_bit(m: u64) -> (e: u32)
    requires
        m >= 1,
    ensures
        e == floor_log2(m as nat),
        e <= 63,
{
    let mut rest: u64 = m;
    let mut e: u32 = 0;
    proof {
        lemma_floor_log2_brackets(m as nat);
        lemma2_to64_rest();
        if floor_log2(m as nat) > 63 {
            lemma_pow2_strictly_increases(64, floor_log2(m as nat));
            if floor_log2(m as nat) > 64 {
            }
        }
    }
    while rest > 1
        invariant
            rest >= 1,
            floor_log2(m as nat) == e + floor_log2(rest as nat),
            floor_log2(m as nat) <= 63,
        decreases rest,
    {
        rest = rest / 2;
        e = e + 1;
    }
    e
}

/// The significand of `m` lies between `2^fraction_bits` and twice that.
pub proof fn lemma_significand_bounds(m: nat, fraction_bits: nat)
    requires
        m >= 1,
    ensures
        pow2(fraction_bits) <= significand_of(m, fraction_bits) <= 2 * pow2(fraction_bits),
{
    let e = floor_log2(m);
    let f = fraction_bits;
    let one = pow2(f);
    let low = pow2(e);
    lemma_floor_log2_brackets(m);
    lemma_pow2_unfold(e + 1);
    if e <= f {
        let k = (f - e) as nat;
        let scale = pow2(k);
        lemma_pow2_adds(e, k);
        lemma_pow2_pos(k);
        assert(one <= m * scale <= 2 * one) by (nonlinear_arith)
            requires
                low <= m < 2 * low,
                scale > 0,
                one == low * scale,
        ;
    } else {
        let k = (e - f) as nat;
        let unit = pow2(k);
        lemma_pow2_adds(f, k);
        lemma_pow2_pos(k);
        let q = m / unit;
        let r = m % unit;
        assert(m == unit * q + r && 0 <= r < unit) by (nonlinear_arith)
            requires
                unit > 0,
                q == m / unit,
                r == m % unit,
        ;
        assert(one <= q < 2 * one) by (nonlinear_arith)
            requires
                one * unit <= m < 2 * (one * unit),
                m == unit * q + r,
                0 <= r < unit,
        ;
    }
}

/// The encoding of `m` without its sign, for a format with `fraction_bits`
/// bits of fraction and an exponent biased by `bias`.
fn encode_magnitude(m: u64, fraction_bits: u32, bias: u64) -> (bits: u64)
    requires
        m >= 1,
        fraction_bits <= 52,
        bias <= 1023,
    ensures
        bits == encoded_magnitude(m as nat, fraction_bits as nat, bias as nat),
        bits <= (64 + bias) * pow2(fraction_bits as nat),
{
    let e = highest_bit(m);
    let one = power_of_two(fraction_bits);
    let ghost f = fraction_bits as nat;
    proof {
        lemma_significand_bounds(m as nat, f);
        lemma_floor_log2_brackets(m as nat);
        lemma2_to64_rest();
        if f < 52 {
            lemma_pow2_strictly_increases(f, 52);
        }
    }
    let significand: u64 = if e <= fraction_bits {
        let scale = power_of_two(fraction_bits - e);
        m * scale
    } else {
        let unit = power_of_two(e - fraction_bits);
        proof {
            lemma_pow2_pos((e - fraction_bits) as nat);
        }
        let q = m / unit;
        let r = m % unit;
        if r > unit - r || (r == unit - r && q % 2 == 1) {
            q + 1
        } else {
            q
        }
    };
    assert(significand == significand_of(m as nat, f));
    let exponent: u64 = e as u64 + bias;
    assert(exponent * one <= 1086 * 0x10_0000_0000_0000) by (nonlinear_arith)
        requires
            exponent <= 1086,
            one <= 0x10_0000_0000_0000,
    ;
    assert((exponent + 1) * one <= (64 + bias) * one) by (nonlinear_arith)
        requires
            exponent + 1 <= 64 + bias,
            one >= 0,
    ;
    assert((exponent + 1) * one == exponent * one + one) by (nonlinear_arith);
    exponent * one + (significand - one)
}

/// Whether a number with these fields is the integer `i`. With an exponent
/// field of zero only zero itself is an integer. Else the number is the
/// significand, which is the fraction under a leading one, times the power
/// of two that the exponent field names, negative where `negative` is set.
/// The caller leaves out the exponent field that marks an infinity or a
/// not-a-number.
pub open spec fn fields_hold_int(
    negative: bool,
    exponent: nat,
    fraction: nat,
    i: int,
    fraction_bits: nat,
    bias: nat,
) -> bool {
    let magnitude = if i < 0 {
        -i
    } else {
        i
    };
    let significand = pow2(fraction_bits) + fraction;
    let point = bias + fraction_bits;
    if exponent == 0 {
        fraction == 0 && i == 0
    } else {
        &&& i != 0
        &&& negative == (i < 0)
        &&& if exponent >= point {
            significand * pow2((exponent - point) as nat) == magnitude
        } else {
            significand == magnitude * pow2((point - exponent) as nat)
        }
    }
}

/// An integer has one encoding only: where a number with an exponent field
/// of one or more and a fraction that fits is the integer `m`, the encoding
/// of `m` is that exponent field above that fraction.
pub proof fn lemma_encoding_of_held_magnitude(
    m: nat,
    exponent: nat,
    fraction: nat,
    fraction_bits: nat,
    bias: nat,
)
    requires
        m >= 1,
        exponent >= 1,
        fraction < pow2(fraction_bits),
        fields_hold_int(false, exponent, fraction, m as int, fraction_bits, bias),
    ensures
        encoded_magnitude(m, fraction_bits, bias) == exponent * pow2(fraction_bits) + fraction,
        floor_log2(m) + bias == exponent,
{
    let f = fraction_bits;
    let one = pow2(f);
    let sig = one + fraction;
    let point = bias + f;
    lemma_pow2_pos(f);
    lemma_pow2_unfold(f + 1);
    if exponent >= point {
        let k = (exponent - point) as nat;
        let unit = pow2(k);
        lemma_pow2_pos(k);
        lemma_pow2_adds(f, k);
        lemma_pow2_adds(f + 1, k);
        assert(one * unit <= sig * unit < (2 * one) * unit) by (nonlinear_arith)
            requires
                one <= sig < 2 * one,
                unit > 0,
        ;
        lemma_floor_log2_unique(m, f + k);
        if k > 0 {
            vstd::arithmetic::div_mod::lemma_fundamental_div_mod_converse(
                m as int,
                unit as int,
                sig as int,
                0,
            );
            assert(round_half_even(m, k) == sig);
        } else {
            lemma2_to64();
            assert(unit == 1);
            assert(sig * unit == sig) by (nonlinear_arith)
                requires
                    unit == 1,
            ;
            assert(m * unit == m) by (nonlinear_arith)
                requires
                    unit == 1,
            ;
            assert((f - floor_log2(m)) as nat == 0);
        }
        assert(significand_of(m, f) == sig);
        assert((f + k + bias) * one == exponent * one);
    } else {
        let j = (point - exponent) as nat;
        let unit = pow2(j);
        lemma_pow2_pos(j);
        if j > f {
            lemma_pow2_strictly_increases(f, j);
            if j > f + 1 {
                lemma_pow2_strictly_increases(f + 1, j);
            }
            assert(m * unit >= unit) by (nonlinear_arith)
                requires
                    m >= 1,
                    unit > 0,
            ;
            assert(false);
        }
        let e = (f - j) as nat;
        lemma_pow2_adds(e, j);
        lemma_pow2_adds(e + 1, j);
        assert(pow2(e) <= m < pow2(e + 1)) by (nonlinear_arith)
            requires
                pow2(e) * unit <= m * unit < pow2(e + 1) * unit,
                unit > 0,
        ;
        lemma_floor_log2_unique(m, e);
        assert(significand_of(m, f) == sig);
        assert((e + bias) * one == exponent * one);
    }
}

impl Binary64 {
    /// The sign bit, the exponent field and the fraction field.
    pub open spec fn is_negative(self) -> bool {
        self.bits >= 0x8000_0000_0000_0000
    }

    pub open spec fn exponent_field(self) -> nat {
        ((self.bits as nat) / 0x10_0000_0000_0000) % 0x800
    }

    pub open spec fn fraction_field(self) -> nat {
        (self.bits as nat) % 0x10_0000_0000_0000
    }

    /// Whether the number is the integer `i`: it is finite, and its value
    /// is `i`. Both zeros are the integer zero.
    pub open spec fn is_int(self, i: int) -> bool {
        self.exponent_field() != 0x7ff && fields_hold_int(
            self.is_negative(),
            self.exponent_field(),
            self.fraction_field(),
            i,
            BINARY64_FRACTION_BITS as nat,
            BINARY64_BIAS as nat,
        )
    }

    /// The conversion of an integer gives the one number that is that
    /// integer, where there is one: a number that is the integer `i` is what
    /// `i` converts to, unless it is the negative zero.
    pub proof fn lemma_of_int_is_the_int(self, i: int)
        requires
            self.is_int(i),
            self.bits != 0x8000_0000_0000_0000,
        ensures
            binary64_of_int(i) == self,
    {
        lemma2_to64_rest();
        let exponent = self.exponent_field();
        let fraction = self.fraction_field();
        let bits = self.bits as nat;
        if exponent == 0 {
            assert(bits == 0);
        } else {
            let m: nat = if i < 0 {
                (-i) as nat
            } else {
                i as nat
            };
            assert(fields_hold_int(false, exponent, fraction, m as int, 52, 1023));
            lemma_encoding_of_held_magnitude(m, exponent, fraction, 52, 1023);
            assert(exponent * 0x10_0000_0000_0000 + fraction < 0x8000_0000_0000_0000);
            if i < 0 {
                assert(bits == 0x8000_0000_0000_0000 + exponent * 0x10_0000_0000_0000 + fraction);
            } else {
                assert(bits == exponent * 0x10_0000_0000_0000 + fraction);
            }
        }
    }

    /// Up to `2^53` on either side of zero the conversion is exact: the
    /// number that `i` converts to is the integer `i`.
    pub proof fn lemma_of_small_int_is_exact(i: int)
        requires
            -0x20_0000_0000_0000 <= i <= 0x20_0000_0000_0000,
        ensures
            binary64_of_int(i).is_int(i),
    {
        lemma2_to64_rest();
        lemma2_to64();
        if i != 0 {
            let m: nat = if i < 0 {
                (-i) as nat
            } else {
                i as nat
            };
            let e = floor_log2(m);
            let one = pow2(52);
            lemma_floor_log2_brackets(m);
            lemma_significand_bounds(m, 52);
            if e > 53 {
                lemma_pow2_strictly_increases(53, e);
            }
            let sig = significand_of(m, 52);
            if e <= 52 {
                let k = (52 - e) as nat;
                lemma_pow2_adds(e, k);
                lemma_pow2_unfold(e + 1);
                lemma_pow2_pos(k);
                assert(m * pow2(k) < 2 * one) by (nonlinear_arith)
                    requires
                        m < 2 * pow2(e),
                        pow2(k) > 0,
                        one == pow2(e) * pow2(k),
                ;
            } else {
                assert(m == 0x20_0000_0000_0000);
                assert(pow2(1) == 2);
                assert(sig == one);
            }
            let enc = encoded_magnitude(m, 52, 1023);
            assert(enc == (e + 1023) * one + (sig - one));
            assert((e + 1023) * one == (e + 1023) * 0x10_0000_0000_0000);
            let b = binary64_of_int(i);
            assert(b.exponent_field() == e + 1023);
            assert(b.fraction_field() == sig - one);
            if e == 52 {
                let unit = pow2(0);
                assert(unit == 1);
                assert(m * unit == m && sig * unit == sig) by (nonlinear_arith)
                    requires
                        unit == 1,
                ;
                assert(sig == m);
            } else if e == 53 {
                assert(sig * pow2(1) == m);
            }
        }
    }

    /// The number nearest to `i`. Up to `2^53` on either side of zero that is
    /// `i` itself.
    pub fn from_int(i: i64) -> (number: Binary64)
        ensures
            number == binary64_of_int(i as int),
    {
        proof {
            lemma2_to64_rest();
        }
        if i == 0 {
            Binary64 { bits: 0 }
        } else if i > 0 {
            Binary64 { bits: encode_magnitude(i as u64, BINARY64_FRACTION_BITS, BINARY64_BIAS) }
        } else {
            let m: u64 = (-(i + 1)) as u64 + 1;
            Binary64 {
                bits: 0x8000_0000_0000_0000 + encode_magnitude(
                    m,
                    BINARY64_FRACTION_BITS,
                    BINARY64_BIAS,
                ),
            }
        }
    }
}

impl Binary32 {
    /// The sign bit, the exponent field and the fraction field.
    pub open spec fn is_negative(self) -> bool {
        self.bits >= 0x8000_0000
    }

    pub open spec fn exponent_field(self) -> nat {
        ((self.bits as nat) / 0x80_0000) % 0x100
    }

    pub open spec fn fraction_field(self) -> nat {
        (self.bits as nat) % 0x80_0000
    }

    /// Whether the number is the integer `i`: it is finite, and its value
    /// is `i`. Both zeros are the integer zero.
    pub open spec fn is_int(self, i: int) -> bool {
        self.exponent_field() != 0xff && fields_hold_int(
            self.is_negative(),
            self.exponent_field(),
            self.fraction_field(),
            i,
            BINARY32_FRACTION_BITS as nat,
            BINARY32_BIAS as nat,
        )
    }

    /// The conversion of an integer gives the one number that is that
    /// integer, where there is one: a number that is the integer `i` is what
    /// `i` converts to, unless it is the negative zero.
    pub proof fn lemma_of_int_is_the_int(self, i: int)
        requires
            self.is_int(i),
            self.bits != 0x8000_0000,
        ensures
            binary32_of_int(i) == self,
    {
        lemma2_to64();
        let exponent = self.exponent_field();
        let fraction = self.fraction_field();
        let bits = self.bits as nat;
        if exponent == 0 {
            assert(bits == 0);
        } else {
            let m: nat = if i < 0 {
                (-i) as nat
            } else {
                i as nat
            };
            assert(fields_hold_int(false, exponent, fraction, m as int, 23, 127));
            lemma_encoding_of_held_magnitude(m, exponent, fraction, 23, 127);
            assert(exponent * 0x80_0000 + fraction < 0x8000_0000);
            if i < 0 {
                assert(bits == 0x8000_0000 + exponent * 0x80_0000 + fraction);
            } else {
                assert(bits == exponent * 0x80_0000 + fraction);
            }
        }
    }

    /// The number nearest to `i`. Up to `2^24` on either side of zero that is
    /// `i` itself.
    pub fn from_int(i: i64) -> (number: Binary32)
        ensures
            number == binary32_of_int(i as int),
    {
        proof {
            lemma2_to64();
        }
        if i == 0 {
            Binary32 { bits: 0 }
        } else if i > 0 {
            let bits = encode_magnitude(i as u64, BINARY32_FRACTION_BITS, BINARY32_BIAS);
            Binary32 { bits: bits as u32 }
        } else {
            let m: u64 = (-(i + 1)) as u64 + 1;
            let bits = encode_magnitude(m, BINARY32_FRACTION_BITS, BINARY32_BIAS);
            Binary32 { bits: (0x8000_0000 + bits) as u32 }
        }
    }
}

} // verus!
