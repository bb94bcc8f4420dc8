//! Conversion of a cache size given in mebibytes, as a single-precision
//! float, to a whole number of bytes.
use vstd::prelude::*;
use vstd::arithmetic::power2::{
    pow2,
    lemma2_to64,
    lemma_pow2_pos,
    lemma_pow2_unfold,
    lemma_pow2_strictly_increases,
};

verus! {

pub open spec fn sign_bit(bits: u32) -> bool {
    bits >= 0x8000_0000
}

pub open spec fn biased_exponent(bits: u32) -> nat {
    ((bits / 0x80_0000) % 0x100) as nat
}

pub open spec fn fraction(bits: u32) -> nat {
    (bits % 0x80_0000) as nat
}

/// The number of bytes in `x` mebibytes, where `x` is the IEEE 754
/// single-precision number with bit pattern `bits`, truncated toward zero
/// and saturated to the range of `usize` (NaN gives 0).
///
/// A finite `x` with biased exponent `e` in 1..=254 is
/// `(2^23 + fraction) * 2^(e - 150)`, so `x * 2^20` is
/// `(2^23 + fraction) * 2^(e - 130)`; zeros and subnormals are below
/// 2^-126 and give 0, as does every negative value.
pub open spec fn cache_bytes_of(bits: u32) -> nat {
    let e = biased_exponent(bits);
    let m = fraction(bits) + 0x80_0000;
    if e == 0xff {
        if fraction(bits) != 0 || sign_bit(bits) {
            0
        } else {
            usize::MAX as nat
        }
    } else if sign_bit(bits) || e == 0 {
        0
    } else if e >= 130 {
        let v = m * pow2((e - 130) as nat);
        if v > usize::MAX {
            usize::MAX as nat
        } else {
            v
        }
    } else {
        m / pow2((130 - e) as nat)
    }
}

/// `2^k` for `k < 64`.
fn pow2_u128(k: u32) -> (r: u128)
    requires
        k < 64,
    ensures
        r as nat == pow2(k as nat),
        r < 0x1_0000_0000_0000_0000,
{
    proof {
        lemma2_to64();
    }
    let mut r: u128 = 1;
    let mut i: u32 = 0;
    while i < k
        invariant
            i <= k < 64,
            r as nat == pow2(i as nat),
            pow2(64) == 0x1_0000_0000_0000_0000,
        decreases k - i,
    {
        proof {
            lemma_pow2_unfold((i + 1) as nat);
            lemma_pow2_strictly_increases(i as nat, 64);
        }
        r = r * 2;
        i = i + 1;
    }
    proof {
        lemma_pow2_strictly_increases(k as nat, 64);
    }
    r
}

/// Converts a size in mebibytes, given as the bit pattern of a
/// single-precision float, to bytes: the value times 2^20, truncated toward
/// zero and saturated to the range of `usize`.
pub fn cache_size_bytes(mb_bits: u32) -> (r: usize)
    ensures
        r as nat == cache_bytes_of(mb_bits),
{
    let negative = mb_bits >= 0x8000_0000;
    let e: u32 = (mb_bits / 0x80_0000) % 0x100;
    let f: u32 = mb_bits % 0x80_0000;
    if e == 0xff {
        if f != 0 || negative {
            0
        } else {
            usize::MAX
        }
    } else if negative || e == 0 {
        0
    } else {
        let m: u128 = (f + 0x80_0000) as u128;
        if e >= 130 {
            let k: u32 = e - 130;
            if k >= 64 {
                proof {
                    lemma2_to64();
                    if k > 64 {
                        lemma_pow2_strictly_increases(64, k as nat);
                    }
                    let p = pow2(k as nat);
                    assert(m * p >= p) by (nonlinear_arith)
                        requires
                            m >= 1,
                            p >= 0,
                    ;
                }
                usize::MAX
            } else {
                let p = pow2_u128(k);
                proof {
                    lemma2_to64();
                    assert(m * p <= 0x100_0000 * 0x1_0000_0000_0000_0000) by (nonlinear_arith)
                        requires
                            m <= 0x100_0000,
                            p <= 0x1_0000_0000_0000_0000,
                    ;
                }
                let v: u128 = m * p;
                if v > usize::MAX as u128 {
                    usize::MAX
                } else {
                    v as usize
                }
            }
        } else {
            let d: u32 = 130 - e;
            if d >= 24 {
                proof {
                    lemma2_to64();
                    if d > 24 {
                        lemma_pow2_strictly_increases(24, d as nat);
                    }
                    lemma_pow2_pos(d as nat);
                    vstd::arithmetic::div_mod::lemma_basic_div(m as int, pow2(d as nat) as int);
                }
                0
            } else {
                let p = pow2_u128(d);
                proof {
                    lemma_pow2_pos(d as nat);
                }
                (m / p) as usize
            }
        }
    }
}

} // verus!
