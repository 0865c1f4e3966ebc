use vstd::arithmetic::power2::{
    lemma2_to64,
    lemma2_to64_rest,
    lemma_pow2_adds,
    lemma_pow2_pos,
    lemma_pow2_strictly_increases,
    lemma_pow2_unfold,
    pow2,
};
use vstd::prelude::*;

verus! {

/// A binary64 floating-point number, held as its IEEE-754 bit pattern.
#[derive(Clone, Copy, Debug)]
pub struct Float64 {
    pub bits: u64,
}

/// Bits of +0.0.
pub const ZERO_BITS: u64 = 0;

/// Bits of +1.0.
pub const ONE_BITS: u64 = 0x3ff0_0000_0000_0000;

/// Position of the highest set bit of a positive number.
pub open spec fn top_bit(a: nat) -> nat
    decreases a,
{
    if a <= 1 {
        0
    } else {
        1 + top_bit(a / 2)
    }
}

/// The 53-bit significand (hidden bit included) and the exponent of the binary64
/// number nearest to `a`, where `p` is the top bit of `a`; a tie goes to the even
/// significand.
pub open spec fn rounded(a: nat, p: nat) -> (nat, nat) {
    if p <= 52 {
        (a * pow2((52 - p) as nat), p)
    } else {
        let k = (p - 52) as nat;
        let q = a / pow2(k);
        let r = a % pow2(k);
        let half = pow2(k) / 2;
        let q2 = if r > half || (r == half && q % 2 == 1) {
            q + 1
        } else {
            q
        };
        if q2 == pow2(53) {
            (pow2(52), p + 1)
        } else {
            (q2, p)
        }
    }
}

/// The bit pattern of the binary64 number nearest to `n` (ties to even), as an
/// integer converts to floating point.
pub open spec fn from_int_bits(n: int) -> int {
    if n == 0 {
        0
    } else {
        let a = if n < 0 { -n } else { n };
        let sign: int = if n < 0 { 1 } else { 0 };
        let p = top_bit(a as nat);
        let m = rounded(a as nat, p).0;
        let e = rounded(a as nat, p).1;
        sign * pow2(63) + (e + 1023) * pow2(52) + (m - pow2(52))
    }
}

proof fn lemma_top_bit(a: nat)
    requires
        a >= 1,
    ensures
        pow2(top_bit(a)) <= a < pow2(top_bit(a) + 1),
    decreases a,
{
    lemma_pow2_unfold(top_bit(a) + 1);
    if a > 1 {
        lemma_top_bit(a / 2);
        lemma_pow2_unfold(top_bit(a / 2) + 1);
        lemma_pow2_unfold(top_bit(a / 2) + 2);
    } else {
        lemma_pow2_unfold(1);
        lemma2_to64();
        lemma2_to64_rest();
    }
}

/// 2 to the power `k`, for `k < 64`.
fn pow2_exec(k: u64) -> (r: u64)
    requires
        k < 64,
    ensures
        r == pow2(k as nat),
{
    proof {
        lemma2_to64();
    }
    let mut r: u64 = 1;
    let mut i: u64 = 0;
    while i < k
        invariant
            i <= k < 64,
            r == pow2(i as nat),
        decreases k - i,
    {
        proof {
            lemma2_to64();
            lemma_pow2_unfold((i + 1) as nat);
            lemma_pow2_strictly_increases((i + 1) as nat, 64);
        }
        r = r * 2;
        i = i + 1;
    }
    r
}

/// The sign bit of a bit pattern.
pub open spec fn sign_of(bits: u64) -> int {
    bits as int / 0x8000_0000_0000_0000
}

/// The biased exponent field of a bit pattern.
pub open spec fn exponent_of(bits: u64) -> int {
    (bits as int / 0x10_0000_0000_0000) % 2048
}

/// The fraction field of a bit pattern.
pub open spec fn fraction_of(bits: u64) -> int {
    bits as int % 0x10_0000_0000_0000
}

/// The integer part of the magnitude of a finite binary64 number: the significand
/// `fraction + 2^52` times `2^(exponent - 1075)`, rounded toward zero. A subnormal
/// number (exponent 0) is below 1.
pub open spec fn truncated_magnitude(bits: u64) -> int {
    let e = exponent_of(bits);
    let m = fraction_of(bits) + pow2(52);
    if e == 0 {
        0
    } else if e >= 1075 {
        m * pow2((e - 1075) as nat)
    } else {
        m / pow2((1075 - e) as nat) as int
    }
}

/// The integer a float converts to: its value rounded toward zero and saturated
/// to the `i64` range, NaN giving 0 and an infinity the bound of its sign.
pub open spec fn truncate_spec(bits: u64) -> int {
    let neg = sign_of(bits) == 1;
    if exponent_of(bits) == 2047 {
        if fraction_of(bits) != 0 {
            0
        } else if neg {
            i64::MIN as int
        } else {
            i64::MAX as int
        }
    } else {
        let v = if neg {
            -truncated_magnitude(bits)
        } else {
            truncated_magnitude(bits)
        };
        if v < i64::MIN {
            i64::MIN as int
        } else if v > i64::MAX {
            i64::MAX as int
        } else {
            v
        }
    }
}

impl Float64 {
    /// Every bit but the sign bit.
    pub open spec fn magnitude(self) -> int {
        self.bits as int % 0x8000_0000_0000_0000
    }

    pub open spec fn is_nan_spec(self) -> bool {
        self.magnitude() > 0x7ff0_0000_0000_0000
    }

    pub open spec fn is_zero_spec(self) -> bool {
        self.magnitude() == 0
    }

    /// True when the number is +0.0 or -0.0.
    pub fn is_zero(&self) -> (r: bool)
        ensures
            r == self.is_zero_spec(),
    {
        let b = self.bits;
        assert(b & 0x7fff_ffff_ffff_ffff == b % 0x8000_0000_0000_0000) by (bit_vector);
        b & 0x7fff_ffff_ffff_ffff == 0
    }

    /// True when the number is a NaN.
    pub fn is_nan(&self) -> (r: bool)
        ensures
            r == self.is_nan_spec(),
    {
        let b = self.bits;
        assert(b & 0x7fff_ffff_ffff_ffff == b % 0x8000_0000_0000_0000) by (bit_vector);
        b & 0x7fff_ffff_ffff_ffff > 0x7ff0_0000_0000_0000
    }

    /// The value rounded toward zero, saturated to the `i64` range; NaN gives 0.
    pub fn truncate(&self) -> (r: i64)
        ensures
            r == truncate_spec(self.bits),
    {
        let b = self.bits;
        let neg = b / 0x8000_0000_0000_0000 == 1;
        let e = (b / 0x10_0000_0000_0000) % 2048;
        let frac = b % 0x10_0000_0000_0000;
        if e == 2047 {
            if frac != 0 {
                return 0;
            }
            return if neg { i64::MIN } else { i64::MAX };
        }
        if e == 0 {
            return 0;
        }
        let m = frac + 0x10_0000_0000_0000;
        proof {
            lemma2_to64();
            lemma2_to64_rest();
        }
        if e >= 1086 {
            proof {
                if e - 1075 > 11 {
                    lemma_pow2_strictly_increases(11, (e - 1075) as nat);
                }
                assert(m * pow2((e - 1075) as nat) >= 0x10_0000_0000_0000 * 0x800)
                    by (nonlinear_arith)
                    requires
                        m >= 0x10_0000_0000_0000,
                        pow2((e - 1075) as nat) >= 0x800,
                ;
            }
            return if neg { i64::MIN } else { i64::MAX };
        }
        let mag: u64;
        if e >= 1075 {
            let p = pow2_exec(e - 1075);
            proof {
                if e - 1075 < 10 {
                    lemma_pow2_strictly_increases((e - 1075) as nat, 10);
                }
                assert(m * p < 0x20_0000_0000_0000 * 0x400) by (nonlinear_arith)
                    requires
                        m < 0x20_0000_0000_0000,
                        p <= 0x400,
                ;
            }
            mag = m * p;
        } else if 1075 - e >= 64 {
            proof {
                lemma_pow2_strictly_increases(53, (1075 - e) as nat);
                assert(m as int / pow2((1075 - e) as nat) as int == 0) by (nonlinear_arith)
                    requires
                        0 <= m < pow2((1075 - e) as nat),
                ;
            }
            mag = 0;
        } else {
            let p = pow2_exec(1075 - e);
            proof {
                lemma_pow2_pos((1075 - e) as nat);
                assert(m / p <= m) by (nonlinear_arith)
                    requires
                        p >= 1,
                ;
            }
            mag = m / p;
        }
        if neg {
            -(mag as i64)
        } else {
            mag as i64
        }
    }

    /// The binary64 number nearest to `n`.
    pub fn from_int(n: i64) -> (r: Float64)
        ensures
            r.bits == from_int_bits(n as int),
    {
        if n == 0 {
            return Float64 { bits: ZERO_BITS };
        }
        let neg = n < 0;
        let a: u64 = if n == i64::MIN {
            0x8000_0000_0000_0000
        } else if neg {
            (-n) as u64
        } else {
            n as u64
        };
        let ghost an = a as nat;
        proof {
            lemma2_to64();
            lemma2_to64_rest();
            lemma_top_bit(an);
            if top_bit(an) >= 64 {
                lemma_pow2_strictly_increases(63, top_bit(an));
            }
        }
        let mut t: u64 = a;
        let mut p: u64 = 0;
        while t > 1
            invariant
                t >= 1,
                top_bit(an) <= 63,
                top_bit(an) == p + top_bit(t as nat),
            decreases t,
        {
            t = t / 2;
            p = p + 1;
        }
        let m: u64;
        let e: u64;
        if p <= 52 {
            let s = pow2_exec(52 - p);
            proof {
                lemma_pow2_pos((52 - p) as nat);
                lemma_pow2_adds((p + 1) as nat, (52 - p) as nat);
                lemma_pow2_adds(p as nat, (52 - p) as nat);
                assert(an * pow2((52 - p) as nat) < pow2((p + 1) as nat) * pow2((52 - p) as nat))
                    by (nonlinear_arith)
                    requires
                        an < pow2((p + 1) as nat),
                        pow2((52 - p) as nat) > 0,
                ;
                assert(pow2(p as nat) * pow2((52 - p) as nat) <= an * pow2((52 - p) as nat))
                    by (nonlinear_arith)
                    requires
                        pow2(p as nat) <= an,
                ;
            }
            m = a * s;
            e = p;
        } else {
            let k = p - 52;
            let pk = pow2_exec(k);
            proof {
                lemma_pow2_pos(k as nat);
                lemma_pow2_adds(53, k as nat);
                lemma_pow2_adds(52, k as nat);
            }
            let q = a / pk;
            let r = a % pk;
            let half = pk / 2;
            proof {
                assert(q < pow2(53)) by (nonlinear_arith)
                    requires
                        an < pow2(53) * pow2(k as nat),
                        pk == pow2(k as nat),
                        pk > 0,
                        q == an / (pk as nat),
                ;
                assert(q >= pow2(52)) by (nonlinear_arith)
                    requires
                        an >= pow2(52) * pow2(k as nat),
                        pk == pow2(k as nat),
                        pk > 0,
                        q == an / (pk as nat),
                ;
            }
            let q2 = if r > half || (r == half && q % 2 == 1) {
                q + 1
            } else {
                q
            };
            if q2 == 0x20_0000_0000_0000 {
                m = 0x10_0000_0000_0000;
                e = p + 1;
            } else {
                m = q2;
                e = p;
            }
        }
        let sign: u64 = if neg { 0x8000_0000_0000_0000 } else { 0 };
        let bits = sign + (e + 1023) * 0x10_0000_0000_0000 + (m - 0x10_0000_0000_0000);
        Float64 { bits }
    }
}

} // verus!
