//! IEEE 754 binary64 numbers, handled as their 64-bit patterns.
//!
//! A magnitude crosses this library's boundary as the `u64` that encodes it:
//! one sign bit, eleven exponent bits, fifty-two fraction bits. The functions
//! here read such a pattern with integer operations only, and each is proved
//! against [`decode`], which says which number a pattern stands for.

use vstd::arithmetic::power2::{
    lemma2_to64, lemma_pow2_adds, lemma_pow2_pos, lemma_pow2_strictly_increases, pow2,
};
use vstd::prelude::*;

verus! {

/// The pattern of positive infinity: every exponent bit set, no fraction bit.
pub const INFINITY: u64 = 0x7ff0_0000_0000_0000;

/// The pattern of the number one.
pub const ONE: u64 = 0x3ff0_0000_0000_0000;

/// The pattern of negative zero: the sign bit alone.
pub const SIGN: u64 = 0x8000_0000_0000_0000;

/// Two to the fifty-second: the weight of the lowest exponent bit, and the
/// leading bit that a normal number's significand has without storing it.
pub const HIDDEN_BIT: u64 = 0x0010_0000_0000_0000;

/// The number that a bit pattern stands for.
///
/// A finite number is kept exactly, as a sign and a count of quanta, one
/// quantum being two to the power -1074, the smallest positive binary64.
pub enum Number {
    NotANumber,
    Infinity { negative: bool },
    Finite { negative: bool, quanta: nat },
}

impl Number {
    /// Numeric equality: a NaN equals nothing, the two zeros equal each other.
    pub open spec fn equals(self, other: Number) -> bool {
        match (self, other) {
            (Number::Infinity { negative: a }, Number::Infinity { negative: b }) => a == b,
            (
                Number::Finite { negative: a, quanta: m },
                Number::Finite { negative: b, quanta: n },
            ) => m == n && (m == 0 || a == b),
            _ => false,
        }
    }

    /// Whether the number is one or more. One is `pow2(1074)` quanta.
    pub open spec fn at_least_one(self) -> bool {
        match self {
            Number::NotANumber => false,
            Number::Infinity { negative } => !negative,
            Number::Finite { negative, quanta } => !negative && quanta >= pow2(1074),
        }
    }
}

/// Whether the sign bit of a pattern is set.
pub open spec fn sign_bit(bits: u64) -> bool {
    bits >= SIGN
}

/// The eleven exponent bits of a pattern, as a number below 2048.
pub open spec fn exponent(bits: u64) -> nat {
    ((bits / HIDDEN_BIT) % 2048) as nat
}

/// The fifty-two fraction bits of a pattern.
pub open spec fn fraction(bits: u64) -> nat {
    (bits % HIDDEN_BIT) as nat
}

/// The quanta of a finite number, from its exponent and fraction bits.
///
/// With no exponent bit set the number is subnormal and the fraction counts
/// the quanta. Otherwise the hidden bit leads the fraction, and each step of
/// the exponent doubles the number.
pub open spec fn quanta(e: nat, f: nat) -> nat {
    if e == 0 {
        f
    } else {
        (pow2(52) + f) * pow2((e - 1) as nat)
    }
}

/// The number that `bits` encodes.
pub open spec fn decode(bits: u64) -> Number {
    let e = exponent(bits);
    let f = fraction(bits);
    if e == 2047 {
        if f == 0 {
            Number::Infinity { negative: sign_bit(bits) }
        } else {
            Number::NotANumber
        }
    } else {
        Number::Finite { negative: sign_bit(bits), quanta: quanta(e, f) }
    }
}

/// The hidden bit is two to the fifty-second.
pub proof fn lemma_hidden_bit()
    ensures
        pow2(52) == HIDDEN_BIT,
{
    lemma2_to64();
    lemma_pow2_adds(32, 20);
}

/// The named patterns encode the numbers they are named for.
pub proof fn lemma_named_patterns()
    ensures
        decode(ONE) == (Number::Finite { negative: false, quanta: pow2(1074) }),
        decode(INFINITY) == (Number::Infinity { negative: false }),
        decode(SIGN) == (Number::Finite { negative: true, quanta: 0 }),
        decode(0) == (Number::Finite { negative: false, quanta: 0 }),
{
    lemma_hidden_bit();
    lemma_pow2_adds(52, 1022);
}

/// `pow2` never decreases.
proof fn lemma_pow2_increases(a: nat, b: nat)
    requires
        a <= b,
    ensures
        pow2(a) <= pow2(b),
{
    if a < b {
        lemma_pow2_strictly_increases(a, b);
    }
}

/// A normal number with exponent bits `e` lies in the binade
/// `[pow2(51 + e), pow2(52 + e))`, counted in quanta.
pub proof fn lemma_binade(e: nat, f: nat)
    requires
        1 <= e,
        f < pow2(52),
    ensures
        pow2(51 + e) <= quanta(e, f) < pow2(52 + e),
{
    let p = pow2((e - 1) as nat);
    lemma_pow2_pos((e - 1) as nat);
    lemma_pow2_adds(52, (e - 1) as nat);
    lemma_pow2_adds(53, (e - 1) as nat);
    lemma_pow2_adds(52, 1);
    lemma2_to64();
    assert(pow2(53) == 2 * pow2(52));
    assert(pow2(52) * p <= (pow2(52) + f) * p) by (nonlinear_arith)
        requires
            p > 0,
    ;
    assert((pow2(52) + f) * p < pow2(53) * p) by (nonlinear_arith)
        requires
            p > 0,
            pow2(52) + f < pow2(53),
    ;
}

/// Different exponent and fraction bits give different quanta.
pub proof fn lemma_quanta_injective(e1: nat, f1: nat, e2: nat, f2: nat)
    requires
        f1 < pow2(52),
        f2 < pow2(52),
        quanta(e1, f1) == quanta(e2, f2),
    ensures
        e1 == e2,
        f1 == f2,
{
    if e1 >= 1 {
        lemma_binade(e1, f1);
    }
    if e2 >= 1 {
        lemma_binade(e2, f2);
    }
    if e1 < e2 {
        lemma_pow2_increases(52 + e1, 51 + e2);
    } else if e2 < e1 {
        lemma_pow2_increases(52 + e2, 51 + e1);
    } else if e1 >= 1 {
        let p = pow2((e1 - 1) as nat);
        lemma_pow2_pos((e1 - 1) as nat);
        assert(f1 == f2) by (nonlinear_arith)
            requires
                p > 0,
                (pow2(52) + f1) * p == (pow2(52) + f2) * p,
        ;
    }
}

/// Whether `bits` encodes a NaN: every exponent bit set and some fraction bit.
pub fn is_nan(bits: u64) -> (r: bool)
    ensures
        r == (decode(bits) is NotANumber),
{
    bits % SIGN > INFINITY
}

/// Whether the number encoded by `bits` is one or more.
///
/// So it is for the patterns from that of one up to that of positive
/// infinity; a NaN is not, nor is anything negative.
pub fn is_at_least_one(bits: u64) -> (r: bool)
    ensures
        r == decode(bits).at_least_one(),
{
    proof {
        lemma_hidden_bit();
        let e = exponent(bits);
        if 1 <= e < 2047 {
            lemma_binade(e, fraction(bits));
            if e >= 1023 {
                lemma_pow2_increases(1074, 51 + e);
            } else {
                lemma_pow2_increases(52 + e, 1074);
            }
        } else if e == 0 {
            lemma_pow2_strictly_increases(52, 1074);
        }
    }
    ONE <= bits && bits <= INFINITY
}

/// Whether the numbers encoded by `a` and `b` are equal.
///
/// Two patterns encode equal numbers when neither is a NaN and they are the
/// same pattern, or one is zero and the other negative zero.
pub fn numerically_equal(a: u64, b: u64) -> (r: bool)
    ensures
        r == decode(a).equals(decode(b)),
{
    proof {
        lemma_hidden_bit();
        if decode(a) is Finite && decode(b) is Finite {
            if decode(a).equals(decode(b)) {
                lemma_quanta_injective(exponent(a), fraction(a), exponent(b), fraction(b));
            }
            if exponent(a) >= 1 {
                lemma_binade(exponent(a), fraction(a));
                lemma_pow2_pos(51 + exponent(a));
            }
            if exponent(b) >= 1 {
                lemma_binade(exponent(b), fraction(b));
                lemma_pow2_pos(51 + exponent(b));
            }
        }
    }
    !is_nan(a) && !is_nan(b) && (a == b || (a % SIGN == 0 && b % SIGN == 0))
}

} // verus!
