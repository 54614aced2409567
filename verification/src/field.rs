//! Arithmetic in the Goldilocks base field of the transcript engine.

use vstd::prelude::*;

verus! {

/// The Goldilocks prime, 2^64 - 2^32 + 1.
pub const GL_P: u64 = 0xFFFF_FFFF_0000_0001;

/// A `u64` is a canonical field element when it is a reduced residue.
pub open spec fn gl_valid(x: u64) -> bool {
    x < GL_P
}

pub open spec fn spec_gl_add(a: u64, b: u64) -> u64 {
    (((a as int) + (b as int)) % (GL_P as int)) as u64
}

pub open spec fn spec_gl_mul(a: u64, b: u64) -> u64 {
    (((a as int) * (b as int)) % (GL_P as int)) as u64
}

/// Modular addition; total on `u64`, always returns a reduced residue.
pub fn gl_add(a: u64, b: u64) -> (r: u64)
    ensures
        r == spec_gl_add(a, b),
        gl_valid(r),
{
    let s: u128 = a as u128 + b as u128;
    let m: u128 = s % (GL_P as u128);
    m as u64
}

/// Modular multiplication; total on `u64`, always returns a reduced residue.
pub fn gl_mul(a: u64, b: u64) -> (r: u64)
    ensures
        r == spec_gl_mul(a, b),
        gl_valid(r),
{
    proof {
        assert((a as int) * (b as int) < 0x1_0000_0000_0000_0000_0000_0000_0000_0000) by (nonlinear_arith)
            requires
                a <= 0xFFFF_FFFF_FFFF_FFFFu64,
                b <= 0xFFFF_FFFF_FFFF_FFFFu64,
        ;
    }
    let p: u128 = a as u128 * b as u128;
    let m: u128 = p % (GL_P as u128);
    m as u64
}

pub open spec fn spec_gl_pow7(x: u64) -> u64 {
    let x2 = spec_gl_mul(x, x);
    let x4 = spec_gl_mul(x2, x2);
    let x6 = spec_gl_mul(x4, x2);
    spec_gl_mul(x6, x)
}

/// The seventh power, the S-box of the permutation; `x -> x^7` is a
/// bijection of the field since 7 does not divide `GL_P - 1`.
pub fn gl_pow7(x: u64) -> (r: u64)
    ensures
        r == spec_gl_pow7(x),
        gl_valid(r),
{
    let x2: u64 = gl_mul(x, x);
    let x4: u64 = gl_mul(x2, x2);
    let x6: u64 = gl_mul(x4, x2);
    gl_mul(x6, x)
}

} // verus!
