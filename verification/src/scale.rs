//! Exact scale factors.
//!
//! A factor is a positive fraction of two integers, so that scaling a length
//! and rounding the product is done without any loss.

use vstd::prelude::*;
use vstd::arithmetic::power2::{
    lemma2_to64, lemma2_to64_rest, lemma_pow2_strictly_increases, lemma_pow2_unfold, pow2,
};
use crate::error::{Failure, ImageToolError};

verus! {

/// A positive factor `numerator / denominator`.
#[derive(Clone, Copy, Debug)]
pub struct ScaleFactor {
    num: u64,
    den: u64,
}

/// The fraction field of an IEEE 754 single-precision bit pattern.
pub open spec fn float_fraction(bits: u32) -> int {
    bits as int % 0x80_0000
}

/// The biased exponent field of an IEEE 754 single-precision bit pattern.
pub open spec fn float_exponent(bits: u32) -> int {
    (bits as int / 0x80_0000) % 0x100
}

/// Whether the sign bit of the pattern is set.
pub open spec fn float_negative(bits: u32) -> bool {
    bits >= 0x8000_0000
}

/// The integer `m` such that a finite pattern denotes `m * 2^float_power`.
pub open spec fn float_mantissa(bits: u32) -> int {
    if float_exponent(bits) == 0 {
        float_fraction(bits)
    } else {
        float_fraction(bits) + 0x80_0000
    }
}

/// The power of two by which the mantissa of a finite pattern is multiplied.
pub open spec fn float_power(bits: u32) -> int {
    if float_exponent(bits) == 0 {
        -149
    } else {
        float_exponent(bits) - 150
    }
}

/// Whether the pattern denotes a number greater than zero, infinity included.
pub open spec fn float_positive(bits: u32) -> bool {
    &&& !float_negative(bits)
    &&& float_exponent(bits) == 0xFF ==> float_fraction(bits) == 0
    &&& float_exponent(bits) == 0 ==> float_fraction(bits) != 0
}

/// Whether the pattern denotes a positive number that a [`ScaleFactor`] can hold.
pub open spec fn float_in_range(bits: u32) -> bool {
    &&& float_positive(bits)
    &&& float_exponent(bits) != 0xFF
    &&& -63 <= float_power(bits) <= 40
}

impl ScaleFactor {
    #[verifier::type_invariant]
    spec fn positive(self) -> bool {
        self.num > 0 && self.den > 0
    }

    /// The upper part of the fraction.
    pub closed spec fn numerator(self) -> int {
        self.num as int
    }

    /// The lower part of the fraction.
    pub closed spec fn denominator(self) -> int {
        self.den as int
    }

    /// Both parts of the fraction are greater than zero. Every factor that
    /// the constructors return is well formed.
    pub open spec fn wf(self) -> bool {
        0 < self.numerator() <= u64::MAX && 0 < self.denominator() <= u64::MAX
    }

    /// The factor `num / den`, if both are greater than zero.
    pub fn new(num: u64, den: u64) -> (r: Option<ScaleFactor>)
        ensures
            r is Some <==> num > 0 && den > 0,
            r is Some ==> r->Some_0.numerator() == num && r->Some_0.denominator() == den
                && r->Some_0.wf(),
    {
        if num > 0 && den > 0 {
            Some(ScaleFactor { num, den })
        } else {
            None
        }
    }

    /// The factor one: lengths are kept.
    pub fn identity() -> (r: ScaleFactor)
        ensures
            r.numerator() == 1,
            r.denominator() == 1,
            r.wf(),
    {
        ScaleFactor { num: 1, den: 1 }
    }

    /// The upper part of the fraction.
    pub fn num(&self) -> (n: u64)
        ensures
            n == self.numerator(),
            n > 0,
    {
        proof {
            use_type_invariant(self);
        }
        self.num
    }

    /// The lower part of the fraction.
    pub fn den(&self) -> (d: u64)
        ensures
            d == self.denominator(),
            d > 0,
    {
        proof {
            use_type_invariant(self);
        }
        self.den
    }

    /// The factor that an IEEE 754 single-precision bit pattern denotes.
    ///
    /// A pattern that is not greater than zero (zero, a negative number,
    /// not-a-number) asks for no scaling and gives `None`. A positive pattern
    /// is converted without rounding; infinity and the numbers too large or
    /// too small to be held exactly are refused.
    pub fn from_float_bits(bits: u32) -> (r: Result<Option<ScaleFactor>, ImageToolError>)
        ensures
            !float_positive(bits) ==> r is Ok && r->Ok_0 is None,
            float_positive(bits) && !float_in_range(bits) ==> r is Err && r->Err_0.reports(
                Failure::invalid("Scale factor out of range"@),
            ),
            float_in_range(bits) ==> r is Ok && r->Ok_0 is Some && r->Ok_0->Some_0.wf() && ({
                let f = r->Ok_0->Some_0;
                if float_power(bits) >= 0 {
                    f.numerator() == float_mantissa(bits) * pow2(float_power(bits) as nat)
                        && f.denominator() == 1
                } else {
                    f.numerator() == float_mantissa(bits) && f.denominator() == pow2(
                        (-float_power(bits)) as nat,
                    )
                }
            }),
    {
        let fraction: u32 = bits % 0x80_0000;
        let exponent: u32 = (bits / 0x80_0000) % 0x100;
        if bits >= 0x8000_0000 || (exponent == 0xFF && fraction != 0) || (exponent == 0 && fraction
            == 0) {
            return Ok(None);
        }
        if exponent == 0xFF {
            return Err(ImageToolError::invalid_parameter("Scale factor out of range"));
        }
        let mantissa: u64 = if exponent == 0 {
            fraction as u64
        } else {
            fraction as u64 + 0x80_0000
        };
        if exponent >= 150 {
            let up: u32 = exponent - 150;
            if up > 40 {
                return Err(ImageToolError::invalid_parameter("Scale factor out of range"));
            }
            let unit: u64 = power_of_two(up);
            proof {
                if up < 40 {
                    lemma_pow2_strictly_increases(up as nat, 40);
                }
                lemma2_to64_rest();
                assert(0 < mantissa * unit <= 0xFF_FFFF * 0x100_0000_0000) by (nonlinear_arith)
                    requires
                        0 < mantissa <= 0xFF_FFFF,
                        0 < unit <= 0x100_0000_0000,
                ;
            }
            Ok(Some(ScaleFactor { num: mantissa * unit, den: 1 }))
        } else {
            let down: u32 = if exponent == 0 {
                149
            } else {
                150 - exponent
            };
            if down > 63 {
                return Err(ImageToolError::invalid_parameter("Scale factor out of range"));
            }
            let unit: u64 = power_of_two(down);
            Ok(Some(ScaleFactor { num: mantissa, den: unit }))
        }
    }
}

/// Two to the power `k`.
fn power_of_two(k: u32) -> (r: u64)
    requires
        k <= 63,
    ensures
        r == pow2(k as nat),
        r > 0,
{
    let mut r: u64 = 1;
    let mut i: u32 = 0;
    proof {
        lemma2_to64();
    }
    while i < k
        invariant
            i <= k <= 63,
            r == pow2(i as nat),
            r > 0,
        decreases k - i,
    {
        proof {
            lemma_pow2_unfold((i + 1) as nat);
            lemma_pow2_strictly_increases((i + 1) as nat, 64);
            lemma2_to64_rest();
        }
        r = r * 2;
        i = i + 1;
    }
    r
}

} // verus!
