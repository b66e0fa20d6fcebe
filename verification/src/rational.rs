//! Exact rational arithmetic for durations, averages and rates.
//!
//! Mean durations, failure rates and thresholds are ratios of machine
//! integers.  Comparing two ratios by cross-multiplication can overflow, so
//! `ratio_cmp` compares them the way continued fractions do: compare the
//! integer parts, and when they tie, compare the reciprocals of the
//! remainders.  Every comparison is exact; no rounding is involved.

use vstd::prelude::*;
use vstd::arithmetic::div_mod::lemma_fundamental_div_mod;

verus! {

pub proof fn lemma_quot_lt(an: int, ad: int, bn: int, bd: int, q1: int, r1: int, q2: int, r2: int)
    requires
        an == ad * q1 + r1,
        bn == bd * q2 + r2,
        0 <= r1 < ad,
        0 <= r2 < bd,
        0 <= q1,
        q1 < q2,
    ensures
        an * bd < bn * ad,
{
    assert(an * bd == q1 * (ad * bd) + r1 * bd) by (nonlinear_arith)
        requires
            an == ad * q1 + r1,
    ;
    assert(bn * ad == q2 * (ad * bd) + r2 * ad) by (nonlinear_arith)
        requires
            bn == bd * q2 + r2,
    ;
    assert(r1 * bd < ad * bd) by (nonlinear_arith)
        requires
            0 <= r1 < ad,
            1 <= bd,
    ;
    assert(q1 * (ad * bd) + ad * bd <= q2 * (ad * bd)) by (nonlinear_arith)
        requires
            q1 + 1 <= q2,
            0 < ad,
            0 < bd,
    ;
    assert(0 <= r2 * ad) by (nonlinear_arith)
        requires
            0 <= r2,
            0 < ad,
    ;
}

pub proof fn lemma_quot_eq(an: int, ad: int, bn: int, bd: int, q: int, r1: int, r2: int)
    requires
        an == ad * q + r1,
        bn == bd * q + r2,
        0 <= r1 < ad,
        0 <= r2 < bd,
        0 <= q,
    ensures
        an * bd - bn * ad == r1 * bd - r2 * ad,
{
    assert(an * bd == q * (ad * bd) + r1 * bd) by (nonlinear_arith)
        requires
            an == ad * q + r1,
    ;
    assert(bn * ad == q * (ad * bd) + r2 * ad) by (nonlinear_arith)
        requires
            bn == bd * q + r2,
    ;
}

/// Compare `an / ad` against `bn / bd` exactly, without forming the
/// cross-products `an * bd` and `bn * ad` (which may not fit any machine
/// integer).  Returns -1, 0 or 1.
pub fn ratio_cmp(an: u128, ad: u128, bn: u128, bd: u128) -> (o: i8)
    requires
        1 <= ad,
        1 <= bd,
    ensures
        -1 <= o <= 1,
        (o == -1) <==> (an as int) * (bd as int) < (bn as int) * (ad as int),
        (o == 0) <==> (an as int) * (bd as int) == (bn as int) * (ad as int),
        (o == 1) <==> (an as int) * (bd as int) > (bn as int) * (ad as int),
    decreases ad + bd,
{
    let q1 = an / ad;
    let r1 = an % ad;
    let q2 = bn / bd;
    let r2 = bn % bd;
    proof {
        lemma_fundamental_div_mod(an as int, ad as int);
        lemma_fundamental_div_mod(bn as int, bd as int);
        assert(an as int == (ad as int) * (q1 as int) + (r1 as int));
        assert(bn as int == (bd as int) * (q2 as int) + (r2 as int));
        assert(0 <= r1 < ad);
        assert(0 <= r2 < bd);
    }
    if q1 < q2 {
        proof {
            lemma_quot_lt(
                an as int,
                ad as int,
                bn as int,
                bd as int,
                q1 as int,
                r1 as int,
                q2 as int,
                r2 as int,
            );
            assert((an as int) * (bd as int) < (bn as int) * (ad as int));
        }
        -1
    } else if q2 < q1 {
        proof {
            lemma_quot_lt(
                bn as int,
                bd as int,
                an as int,
                ad as int,
                q2 as int,
                r2 as int,
                q1 as int,
                r1 as int,
            );
            assert((bn as int) * (ad as int) < (an as int) * (bd as int));
        }
        1
    } else {
        proof {
            lemma_quot_eq(
                an as int,
                ad as int,
                bn as int,
                bd as int,
                q1 as int,
                r1 as int,
                r2 as int,
            );
        }
        if r1 == 0 && r2 == 0 {
            proof {
                assert((r1 as int) * (bd as int) == 0 && (r2 as int) * (ad as int) == 0)
                    by (nonlinear_arith)
                    requires
                        r1 == 0,
                        r2 == 0,
                ;
            }
            0
        } else if r1 == 0 {
            proof {
                assert((r1 as int) * (bd as int) == 0) by (nonlinear_arith)
                    requires
                        r1 == 0,
                ;
                assert(0 < (r2 as int) * (ad as int)) by (nonlinear_arith)
                    requires
                        1 <= r2,
                        1 <= ad,
                ;
            }
            -1
        } else if r2 == 0 {
            proof {
                assert((r2 as int) * (ad as int) == 0) by (nonlinear_arith)
                    requires
                        r2 == 0,
                ;
                assert(0 < (r1 as int) * (bd as int)) by (nonlinear_arith)
                    requires
                        1 <= r1,
                        1 <= bd,
                ;
            }
            1
        } else {
            // an/ad and bn/bd share the integer part, so the order is the
            // order of r1/ad against r2/bd, which is the reverse of the
            // order of their reciprocals ad/r1 against bd/r2.
            proof {
                assert((bd as int) * (r1 as int) == (r1 as int) * (bd as int))
                    by (nonlinear_arith);
                assert((ad as int) * (r2 as int) == (r2 as int) * (ad as int))
                    by (nonlinear_arith);
            }
            ratio_cmp(bd, r2, ad, r1)
        }
    }
}

/// A signed exact ratio `(-1)^neg * num / den`.  The stand-in for every
/// fractional quantity of this library: mean durations, failure rates,
/// thresholds and custom metrics.
#[derive(Clone, Copy, Debug)]
pub struct Rational {
    pub neg: bool,
    pub num: u128,
    pub den: u128,
}

impl Rational {
    pub open spec fn wf(self) -> bool {
        1 <= self.den
    }

    /// The numerator with its sign, as a mathematical integer.
    pub open spec fn signed_num(self) -> int {
        if self.neg {
            -(self.num as int)
        } else {
            self.num as int
        }
    }

    /// `self` and `other` stand for the same rational number.
    pub open spec fn spec_eq(self, other: Rational) -> bool {
        self.signed_num() * other.den == other.signed_num() * self.den
    }

    /// `self` stands for a strictly smaller rational number than `other`.
    pub open spec fn spec_lt(self, other: Rational) -> bool {
        self.signed_num() * other.den < other.signed_num() * self.den
    }

    /// The rational `n / 1`.
    pub fn from_u64(n: u64) -> (r: Rational)
        ensures
            r.wf(),
            !r.neg,
            r.num == n,
            r.den == 1,
    {
        Rational { neg: false, num: n as u128, den: 1 }
    }

    /// The rational `(-1)^neg * milli / 1000`: a value given in
    /// thousandths, as configuration files carry fractional thresholds.
    pub fn from_milli(neg: bool, milli: u64) -> (r: Rational)
        ensures
            r.wf(),
            r.neg == neg,
            r.num == milli,
            r.den == 1000,
    {
        Rational { neg, num: milli as u128, den: 1000 }
    }

    /// The exact ratio `num / den` of two machine integers.
    pub fn ratio(num: u128, den: u128) -> (r: Rational)
        requires
            1 <= den,
        ensures
            r.wf(),
            !r.neg,
            r.num == num,
            r.den == den,
    {
        Rational { neg: false, num, den }
    }

    pub open spec fn is_zero(self) -> bool {
        self.num == 0
    }

    /// Exact three-way comparison; -1, 0 or 1.
    pub fn cmp(&self, other: &Rational) -> (o: i8)
        requires
            self.wf(),
            other.wf(),
        ensures
            -1 <= o <= 1,
            (o == -1) <==> self.spec_lt(*other),
            (o == 0) <==> self.spec_eq(*other),
            (o == 1) <==> other.spec_lt(*self),
    {
        let a_neg = self.neg && self.num > 0;
        let b_neg = other.neg && other.num > 0;
        proof {
            if self.num == 0 {
                assert(self.signed_num() == 0);
            }
            if other.num == 0 {
                assert(other.signed_num() == 0);
            }
            assert(0 <= (self.num as int) * (other.den as int)) by (nonlinear_arith)
                requires
                    0 <= self.num,
                    0 <= other.den,
            ;
            assert(0 <= (other.num as int) * (self.den as int)) by (nonlinear_arith)
                requires
                    0 <= other.num,
                    0 <= self.den,
            ;
            assert((self.num as int) * (other.den as int) == 0 <==> self.num == 0)
                by (nonlinear_arith)
                requires
                    1 <= other.den,
            ;
            assert((other.num as int) * (self.den as int) == 0 <==> other.num == 0)
                by (nonlinear_arith)
                requires
                    1 <= self.den,
            ;
        }
        proof {
            assert((-(self.num as int)) * (other.den as int) == -((self.num as int) * (
            other.den as int))) by (nonlinear_arith);
            assert((-(other.num as int)) * (self.den as int) == -((other.num as int) * (
            self.den as int))) by (nonlinear_arith);
        }
        if a_neg && !b_neg {
            -1
        } else if !a_neg && b_neg {
            1
        } else if a_neg && b_neg {
            ratio_cmp(other.num, other.den, self.num, self.den)
        } else {
            ratio_cmp(self.num, self.den, other.num, other.den)
        }
    }

    /// True exactly when `self < other` as rational numbers.
    pub fn lt(&self, other: &Rational) -> (b: bool)
        requires
            self.wf(),
            other.wf(),
        ensures
            b <==> self.spec_lt(*other),
    {
        self.cmp(other) == -1
    }

    /// True exactly when `self` and `other` are the same rational number.
    pub fn eq(&self, other: &Rational) -> (b: bool)
        requires
            self.wf(),
            other.wf(),
        ensures
            b <==> self.spec_eq(*other),
    {
        self.cmp(other) == 0
    }
}

} // verus!
