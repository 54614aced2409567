//! The fixed width-12 permutation over the Goldilocks field that drives the
//! sponge transcript: rounds of an additive round constant, the `x^7` S-box,
//! and a global mixing layer.  The transcript only needs the permutation to be
//! a deterministic total function returning reduced field elements; its exact
//! shape is pinned by `spec_permute` and proved of the executable body.

use vstd::prelude::*;

use crate::field::{gl_add, gl_mul, gl_pow7, gl_valid, spec_gl_add, spec_gl_mul, spec_gl_pow7, GL_P};

verus! {

/// Width of the permutation state: 8 rate elements and 4 capacity elements.
pub const PERM_WIDTH: usize = 12;

/// Number of rounds.
pub const PERM_ROUNDS: usize = 7;

/// Multiplier from which the round constants are derived.
pub const RC_GAMMA: u64 = 0x9E37_79B9_7F4A_7C15;

/// Round constant for round `r`, lane `i`.
pub open spec fn spec_rc(r: int, i: int) -> u64 {
    spec_gl_mul(RC_GAMMA, (r * 12 + i + 1) as u64)
}

/// The S-box layer of round `r`: add the round constant, then raise to the 7th power.
pub open spec fn spec_sub_layer(s: Seq<u64>, r: int) -> Seq<u64> {
    Seq::new(12, |i: int| spec_gl_pow7(spec_gl_add(s[i], spec_rc(r, i))))
}

/// Sum of the first `k` lanes, in the field.
pub open spec fn spec_lane_sum(s: Seq<u64>, k: int) -> u64
    decreases k,
{
    if k <= 0 {
        0u64
    } else {
        spec_gl_add(spec_lane_sum(s, k - 1), s[k - 1])
    }
}

/// The mixing layer: every lane absorbs the total lane sum and its right neighbour.
pub open spec fn spec_mix_layer(s: Seq<u64>) -> Seq<u64> {
    Seq::new(12, |i: int| spec_gl_add(s[i], spec_gl_add(spec_lane_sum(s, 12), s[if i == 11 { 0int } else { i + 1 }])))
}

pub open spec fn spec_round(s: Seq<u64>, r: int) -> Seq<u64> {
    spec_mix_layer(spec_sub_layer(s, r))
}

pub open spec fn spec_rounds(s: Seq<u64>, k: int) -> Seq<u64>
    decreases k,
{
    if k <= 0 {
        s
    } else {
        spec_round(spec_rounds(s, k - 1), k - 1)
    }
}

/// The full permutation: 7 rounds.
pub open spec fn spec_permute(s: Seq<u64>) -> Seq<u64> {
    spec_rounds(s, 7)
}

proof fn lemma_gl_add_spec_valid(a: u64, b: u64)
    ensures
        gl_valid(spec_gl_add(a, b)),
{
    assert(0 <= ((a as int) + (b as int)) % (GL_P as int) < GL_P as int) by (nonlinear_arith);
}

/// Every lane of the permutation's output is a reduced field element,
/// whatever the input lanes were.
pub proof fn lemma_permute_valid(s: Seq<u64>)
    requires
        s.len() == 12,
    ensures
        spec_permute(s).len() == 12,
        forall|i: int| 0 <= i < 12 ==> gl_valid(#[trigger] spec_permute(s)[i]),
{
    let before = spec_sub_layer(spec_rounds(s, 6), 6);
    assert(spec_permute(s) == spec_mix_layer(before));
    assert forall|i: int| 0 <= i < 12 implies gl_valid(#[trigger] spec_mix_layer(before)[i]) by {
        lemma_gl_add_spec_valid(
            before[i],
            spec_gl_add(spec_lane_sum(before, 12), before[if i == 11 { 0int } else { i + 1 }]),
        );
    }
}

fn sub_layer(s: &Vec<u64>, r: usize) -> (t: Vec<u64>)
    requires
        s@.len() == 12,
        r < 7,
    ensures
        t@ == spec_sub_layer(s@, r as int),
{
    let mut t: Vec<u64> = Vec::new();
    let mut i: usize = 0;
    while i < 12
        invariant
            i <= 12,
            r < 7,
            s@.len() == 12,
            t@.len() == i,
            forall|k: int| 0 <= k < i ==> t@[k] == spec_sub_layer(s@, r as int)[k],
        decreases 12 - i,
    {
        let idx: u64 = (r * 12 + i + 1) as u64;
        let rc: u64 = gl_mul(RC_GAMMA, idx);
        t.push(gl_pow7(gl_add(s[i], rc)));
        i += 1;
    }
    assert(t@ =~= spec_sub_layer(s@, r as int));
    t
}

fn mix_layer(s: &Vec<u64>) -> (t: Vec<u64>)
    requires
        s@.len() == 12,
    ensures
        t@ == spec_mix_layer(s@),
{
    let mut sum: u64 = 0;
    let mut i: usize = 0;
    while i < 12
        invariant
            i <= 12,
            s@.len() == 12,
            sum == spec_lane_sum(s@, i as int),
        decreases 12 - i,
    {
        sum = gl_add(sum, s[i]);
        i += 1;
    }
    let mut t: Vec<u64> = Vec::new();
    let mut i: usize = 0;
    while i < 12
        invariant
            i <= 12,
            s@.len() == 12,
            sum == spec_lane_sum(s@, 12),
            t@.len() == i,
            forall|k: int| 0 <= k < i ==> t@[k] == spec_mix_layer(s@)[k],
        decreases 12 - i,
    {
        let nxt: u64 = s[if i == 11 { 0 } else { i + 1 }];
        t.push(gl_add(s[i], gl_add(sum, nxt)));
        i += 1;
    }
    assert(t@ =~= spec_mix_layer(s@));
    t
}

/// Run the permutation on a full 12-lane state.
pub fn permute(input: &Vec<u64>) -> (r: Vec<u64>)
    requires
        input@.len() == 12,
    ensures
        r@ == spec_permute(input@),
        r@.len() == 12,
        forall|i: int| 0 <= i < 12 ==> gl_valid(#[trigger] r@[i]),
{
    let mut s: Vec<u64> = Vec::new();
    let mut i: usize = 0;
    while i < 12
        invariant
            i <= 12,
            input@.len() == 12,
            s@ == input@.take(i as int),
        decreases 12 - i,
    {
        s.push(input[i]);
        i += 1;
    }
    assert(s@ =~= input@);
    let mut r: usize = 0;
    while r < 7
        invariant
            r <= 7,
            input@.len() == 12,
            s@ == spec_rounds(input@, r as int),
            s@.len() == 12,
        decreases 7 - r,
    {
        let t: Vec<u64> = sub_layer(&s, r);
        s = mix_layer(&t);
        r += 1;
    }
    proof {
        lemma_permute_valid(input@);
    }
    s
}

} // verus!
