//! The sponge-based Fiat-Shamir transcript engine: absorbs field elements,
//! squeezes pseudorandom field elements, extension-field challenges and
//! bounded index permutations, all deterministically.
//!
//! The abstract state is a [`TranscriptView`]: a 4-lane capacity `state`, a
//! pending-input buffer of capacity 8, and a buffer of not-yet-consumed
//! squeezed output.  Every operation is pinned to a spec-level step function
//! over that view, so two transcripts fed the same data agree exactly.

use vstd::prelude::*;
use vstd::arithmetic::power2::pow2;
use vstd::arithmetic::div_mod::{lemma_fundamental_div_mod_converse, lemma_div_is_ordered};

use crate::field::gl_valid;
use crate::permutation::{permute, spec_permute};

verus! {

/// Error reported by the permutation primitive.  The permutation built into
/// this library is a total function, so transcript operations in fact always
/// return `Ok`; the type keeps the propagation contract of the interface.
#[derive(Clone, Copy, Debug, PartialEq, Eq, Structural)]
pub enum HashError {
    Permutation,
}

/// A degree-3 extension-field challenge, composed of three consecutive
/// base-field squeezes.
#[derive(Clone, Copy, Debug, PartialEq, Eq, Structural)]
pub struct F3G {
    pub c0: u64,
    pub c1: u64,
    pub c2: u64,
}

/// The abstract state of a transcript.
#[verifier::ext_equal]
pub ghost struct TranscriptView {
    pub state: Seq<u64>,
    pub pending: Seq<u64>,
    pub out: Seq<u64>,
}

/// Well-formedness: 4 capacity lanes, pending strictly below capacity 8
/// (reaching 8 fires an absorb cycle at once), every lane reduced.
pub open spec fn tr_wf(t: TranscriptView) -> bool {
    &&& t.state.len() == 4
    &&& t.pending.len() < 8
    &&& forall|i: int| 0 <= i < t.state.len() ==> gl_valid(#[trigger] t.state[i])
    &&& forall|i: int| 0 <= i < t.pending.len() ==> gl_valid(#[trigger] t.pending[i])
    &&& forall|i: int| 0 <= i < t.out.len() ==> gl_valid(#[trigger] t.out[i])
}

/// The state of a freshly constructed transcript.
pub open spec fn tr_fresh() -> TranscriptView {
    TranscriptView { state: Seq::new(4, |i: int| 0u64), pending: Seq::empty(), out: Seq::empty() }
}

/// Pad the pending buffer with zeros up to the rate of 8.
pub open spec fn tr_pad8(p: Seq<u64>) -> Seq<u64> {
    if p.len() >= 8 {
        p
    } else {
        p + Seq::new((8 - p.len()) as nat, |i: int| 0u64)
    }
}

/// One absorb-permute cycle: permute the padded pending block together with
/// the capacity, take the first 4 lanes as the new capacity, expose the full
/// result as squeezable output, clear the pending buffer.
pub open spec fn tr_update(t: TranscriptView) -> TranscriptView {
    let full = spec_permute(tr_pad8(t.pending) + t.state);
    TranscriptView { state: full.subrange(0, 4), pending: Seq::empty(), out: full }
}

/// Absorb one element: stale output is discarded, the element joins the
/// pending buffer, and a full buffer fires an absorb-permute cycle.
pub open spec fn tr_add1(t: TranscriptView, e: u64) -> TranscriptView {
    let t1 = TranscriptView { state: t.state, pending: t.pending.push(e), out: Seq::empty() };
    if t1.pending.len() == 8 {
        tr_update(t1)
    } else {
        t1
    }
}

/// Absorb a sequence of elements in order.
pub open spec fn tr_absorb_seq(t: TranscriptView, s: Seq<u64>) -> TranscriptView
    decreases s.len(),
{
    if s.len() == 0 {
        t
    } else {
        tr_absorb_seq(tr_add1(t, s[0]), s.drop_first())
    }
}

/// Absorb a sequence of batches in order.
pub open spec fn tr_absorb_batches(t: TranscriptView, es: Seq<Seq<u64>>) -> TranscriptView
    decreases es.len(),
{
    if es.len() == 0 {
        t
    } else {
        tr_absorb_batches(tr_absorb_seq(t, es[0]), es.drop_first())
    }
}

/// The transcript state after squeezing one element.
pub open spec fn tr_squeeze_state(t: TranscriptView) -> TranscriptView {
    let t1 = if t.out.len() == 0 { tr_update(t) } else { t };
    TranscriptView { state: t1.state, pending: t1.pending, out: t1.out.drop_first() }
}

/// The element obtained by squeezing once.
pub open spec fn tr_squeeze_val(t: TranscriptView) -> u64 {
    let t1 = if t.out.len() == 0 { tr_update(t) } else { t };
    t1.out[0]
}

/// The transcript state after `k` squeezes.
pub open spec fn tr_squeeze_n_state(t: TranscriptView, k: nat) -> TranscriptView
    decreases k,
{
    if k == 0 {
        t
    } else {
        tr_squeeze_n_state(tr_squeeze_state(t), (k - 1) as nat)
    }
}

/// The sequence of the first `k` squeezed elements.
pub open spec fn tr_squeezed(t: TranscriptView, k: nat) -> Seq<u64>
    decreases k,
{
    if k == 0 {
        Seq::empty()
    } else {
        seq![tr_squeeze_val(t)] + tr_squeezed(tr_squeeze_state(t), (k - 1) as nat)
    }
}

/// The view of a batch slice: each batch as its element sequence.
pub open spec fn batches_view(es: Seq<Vec<u64>>) -> Seq<Seq<u64>> {
    es.map_values(|v: Vec<u64>| v@)
}

/// Bit `k` of the concatenated 63-bit windows of the squeezed elements.
pub open spec fn bit_at(fields: Seq<u64>, k: int) -> u64 {
    (fields[k / 63] >> ((k % 63) as u64)) & 1
}

/// The value of `j` bits read least-significant-bit-first starting at global
/// bit position `start`.
pub open spec fn index_val(fields: Seq<u64>, start: int, j: int) -> nat
    decreases j,
{
    if j <= 0 {
        0
    } else {
        index_val(fields, start, j - 1) + pow2((j - 1) as nat) * (bit_at(fields, start + j - 1) as nat)
    }
}

/// Number of field elements squeezed to supply `n * nbits` bits, at 63 usable
/// bits per element.
pub open spec fn num_fields_for(n: int, nbits: int) -> nat {
    (((n * nbits - 1) / 63) + 1) as nat
}

pub proof fn lemma_absorb_seq_snoc(t: TranscriptView, s: Seq<u64>, e: u64)
    ensures
        tr_absorb_seq(t, s.push(e)) == tr_add1(tr_absorb_seq(t, s), e),
    decreases s.len(),
{
    if s.len() == 0 {
        assert(s.push(e)[0] == e);
        assert(s.push(e).drop_first() =~= Seq::<u64>::empty());
        assert(tr_absorb_seq(t, s.push(e)) == tr_absorb_seq(tr_add1(t, e), s.push(e).drop_first()));
        assert(tr_absorb_seq(tr_add1(t, e), s.push(e).drop_first()) == tr_add1(t, e));
        assert(tr_absorb_seq(t, s) == t);
    } else {
        assert(s.push(e)[0] == s[0]);
        assert(s.push(e).drop_first() =~= s.drop_first().push(e));
        lemma_absorb_seq_snoc(tr_add1(t, s[0]), s.drop_first(), e);
        assert(tr_absorb_seq(t, s.push(e)) == tr_absorb_seq(tr_add1(t, s[0]), s.drop_first().push(e)));
        assert(tr_absorb_seq(t, s) == tr_absorb_seq(tr_add1(t, s[0]), s.drop_first()));
    }
}

pub proof fn lemma_absorb_batches_snoc(t: TranscriptView, es: Seq<Seq<u64>>, b: Seq<u64>)
    ensures
        tr_absorb_batches(t, es.push(b)) == tr_absorb_seq(tr_absorb_batches(t, es), b),
    decreases es.len(),
{
    if es.len() == 0 {
        assert(es.push(b)[0] == b);
        assert(es.push(b).drop_first() =~= Seq::<Seq<u64>>::empty());
        assert(tr_absorb_batches(t, es.push(b)) == tr_absorb_batches(tr_absorb_seq(t, b),
            es.push(b).drop_first()));
        assert(tr_absorb_batches(tr_absorb_seq(t, b), es.push(b).drop_first())
            == tr_absorb_seq(t, b));
        assert(tr_absorb_batches(t, es) == t);
    } else {
        assert(es.push(b)[0] == es[0]);
        assert(es.push(b).drop_first() =~= es.drop_first().push(b));
        lemma_absorb_batches_snoc(tr_absorb_seq(t, es[0]), es.drop_first(), b);
        assert(tr_absorb_batches(t, es.push(b)) == tr_absorb_batches(tr_absorb_seq(t, es[0]),
            es.drop_first().push(b)));
        assert(tr_absorb_batches(t, es) == tr_absorb_batches(tr_absorb_seq(t, es[0]),
            es.drop_first()));
    }
}

pub proof fn lemma_squeeze_snoc(t: TranscriptView, k: nat)
    ensures
        tr_squeeze_n_state(t, (k + 1) as nat) == tr_squeeze_state(tr_squeeze_n_state(t, k)),
        tr_squeezed(t, (k + 1) as nat) == tr_squeezed(t, k).push(tr_squeeze_val(tr_squeeze_n_state(t, k))),
    decreases k,
{
    if k == 0 {
        assert(tr_squeeze_n_state(t, 1) == tr_squeeze_n_state(tr_squeeze_state(t), 0));
        assert(tr_squeezed(t, 1) == seq![tr_squeeze_val(t)] + tr_squeezed(tr_squeeze_state(t), 0));
        assert(tr_squeezed(t, 1) =~= tr_squeezed(t, 0).push(tr_squeeze_val(t)));
    } else {
        let ts = tr_squeeze_state(t);
        lemma_squeeze_snoc(ts, (k - 1) as nat);
        assert(tr_squeeze_n_state(t, (k + 1) as nat) == tr_squeeze_n_state(ts, k));
        assert(tr_squeeze_n_state(t, k) == tr_squeeze_n_state(ts, (k - 1) as nat));
        assert(tr_squeezed(t, (k + 1) as nat) == seq![tr_squeeze_val(t)] + tr_squeezed(ts, k));
        assert(tr_squeezed(t, k) == seq![tr_squeeze_val(t)] + tr_squeezed(ts, (k - 1) as nat));
        assert(tr_squeezed(t, (k + 1) as nat) =~= tr_squeezed(t, k).push(
            tr_squeeze_val(tr_squeeze_n_state(t, k))));
    }
}

/// Determinism of the engine: two freshly constructed transcripts fed the
/// identical ordered batches reach the same state, and so produce identical
/// squeezed elements -- and therefore identical extension challenges and
/// index permutations, which are functions of the squeezed elements alone.
pub proof fn lemma_transcript_determinism(
    t1: TranscriptView,
    t2: TranscriptView,
    batches: Seq<Seq<u64>>,
    k: nat,
)
    requires
        t1 == tr_fresh(),
        t2 == tr_fresh(),
    ensures
        tr_absorb_batches(t1, batches) == tr_absorb_batches(t2, batches),
        tr_squeezed(tr_absorb_batches(t1, batches), k) == tr_squeezed(
            tr_absorb_batches(t2, batches), k),
        forall|start: int, nbits: int|
            index_val(tr_squeezed(tr_absorb_batches(t1, batches), k), start, nbits) == index_val(
                tr_squeezed(tr_absorb_batches(t2, batches), k), start, nbits),
{
}

/// The transcript engine over the Goldilocks field.
pub struct TranscriptGL {
    state: Vec<u64>,
    pending: Vec<u64>,
    out: Vec<u64>,
}

impl View for TranscriptGL {
    type V = TranscriptView;

    closed spec fn view(&self) -> TranscriptView {
        TranscriptView { state: self.state@, pending: self.pending@, out: self.out@ }
    }
}

impl TranscriptGL {
    /// A fresh transcript: all-zero capacity, empty buffers.
    pub fn new() -> (r: Self)
        ensures
            r@ == tr_fresh(),
            tr_wf(r@),
    {
        let mut state: Vec<u64> = Vec::new();
        state.push(0);
        state.push(0);
        state.push(0);
        state.push(0);
        let r = TranscriptGL { state, pending: Vec::new(), out: Vec::new() };
        proof {
            assert(r@.state =~= tr_fresh().state);
            assert(r@ =~= tr_fresh());
        }
        r
    }

    /// Run one absorb-permute cycle.
    pub fn update_state(&mut self) -> (r: Result<(), HashError>)
        requires
            old(self)@.state.len() == 4,
            old(self)@.pending.len() <= 8,
        ensures
            r == Ok::<(), HashError>(()),
            final(self)@ == tr_update(old(self)@),
            tr_wf(final(self)@),
    {
        let ghost p = self.pending@;
        let mut inp: Vec<u64> = Vec::new();
        let mut i: usize = 0;
        proof {
            assert(inp@ =~= self.pending@.take(0));
        }
        while i < self.pending.len()
            invariant
                i <= self.pending.len(),
                self@ == old(self)@,
                inp@ == self.pending@.take(i as int),
            decreases self.pending.len() - i,
        {
            inp.push(self.pending[i]);
            i += 1;
        }
        assert(inp@ =~= p);
        while inp.len() < 8
            invariant
                self@ == old(self)@,
                inp@.len() <= 8,
                p.len() <= inp@.len(),
                inp@ == p + Seq::new((inp@.len() - p.len()) as nat, |k: int| 0u64),
            decreases 8 - inp.len(),
        {
            inp.push(0);
            proof {
                assert(inp@ =~= p + Seq::new((inp@.len() - p.len()) as nat, |k: int| 0u64));
            }
        }
        assert(inp@ =~= tr_pad8(p));
        proof {
            assert(inp@ =~= tr_pad8(p) + self.state@.take(0));
        }
        let mut i: usize = 0;
        while i < 4
            invariant
                i <= 4,
                self@ == old(self)@,
                self@.state.len() == 4,
                inp@ == tr_pad8(p) + self.state@.take(i as int),
            decreases 4 - i,
        {
            inp.push(self.state[i]);
            i += 1;
            proof {
                assert(inp@ =~= tr_pad8(p) + self.state@.take(i as int));
            }
        }
        assert(inp@ =~= tr_pad8(p) + old(self)@.state);
        let full: Vec<u64> = permute(&inp);
        let mut st: Vec<u64> = Vec::new();
        st.push(full[0]);
        st.push(full[1]);
        st.push(full[2]);
        st.push(full[3]);
        assert(st@ =~= full@.subrange(0, 4));
        self.state = st;
        self.pending = Vec::new();
        self.out = full;
        proof {
            assert(self@ =~= tr_update(old(self)@));
        }
        Ok(())
    }

    /// Absorb one element: clears stale output, may fire an absorb cycle.
    pub fn add_1(&mut self, e: &u64) -> (r: Result<(), HashError>)
        requires
            tr_wf(old(self)@),
            gl_valid(*e),
        ensures
            r == Ok::<(), HashError>(()),
            final(self)@ == tr_add1(old(self)@, *e),
            tr_wf(final(self)@),
    {
        self.out = Vec::new();
        self.pending.push(*e);
        if self.pending.len() == 8 {
            let ghost mid = self@;
            assert(mid =~= TranscriptView {
                state: old(self)@.state,
                pending: old(self)@.pending.push(*e),
                out: Seq::empty(),
            });
            let r = self.update_state();
            assert(self@ == tr_add1(old(self)@, *e));
            r
        } else {
            assert(self@ =~= tr_add1(old(self)@, *e));
            Ok(())
        }
    }

    /// Absorb the elements of each batch, in the given order.
    pub fn put(&mut self, es: &[Vec<u64>]) -> (r: Result<(), HashError>)
        requires
            tr_wf(old(self)@),
            forall|i: int, j: int|
                0 <= i < es@.len() && 0 <= j < es@[i]@.len() ==> gl_valid(#[trigger] es@[i]@[j]),
        ensures
            r == Ok::<(), HashError>(()),
            final(self)@ == tr_absorb_batches(old(self)@, batches_view(es@)),
            tr_wf(final(self)@),
    {
        let ghost t0 = self@;
        let ghost bv = batches_view(es@);
        let mut i: usize = 0;
        while i < es.len()
            invariant
                i <= es@.len(),
                bv == batches_view(es@),
                bv.len() == es@.len(),
                forall|a: int, b: int|
                    0 <= a < es@.len() && 0 <= b < es@[a]@.len() ==> gl_valid(#[trigger] es@[a]@[b]),
                self@ == tr_absorb_batches(t0, bv.take(i as int)),
                tr_wf(self@),
            decreases es@.len() - i,
        {
            let batch: &Vec<u64> = &es[i];
            let ghost ti = self@;
            let mut j: usize = 0;
            while j < batch.len()
                invariant
                    j <= batch@.len(),
                    batch@ == es@[i as int]@,
                    i < es@.len(),
                    forall|a: int, b: int|
                        0 <= a < es@.len() && 0 <= b < es@[a]@.len() ==> gl_valid(
                            #[trigger] es@[a]@[b]),
                    self@ == tr_absorb_seq(ti, batch@.take(j as int)),
                    tr_wf(self@),
                decreases batch@.len() - j,
            {
                let e: u64 = batch[j];
                let _ = self.add_1(&e);
                proof {
                    lemma_absorb_seq_snoc(ti, batch@.take(j as int), e);
                    assert(batch@.take(j as int).push(e) =~= batch@.take(j + 1 as int));
                }
                j += 1;
            }
            proof {
                assert(batch@.take(batch@.len() as int) =~= batch@);
                lemma_absorb_batches_snoc(t0, bv.take(i as int), bv[i as int]);
                assert(bv.take(i as int).push(bv[i as int]) =~= bv.take(i + 1 as int));
                assert(bv[i as int] == batch@);
            }
            i += 1;
        }
        proof {
            assert(bv.take(bv.len() as int) =~= bv);
        }
        Ok(())
    }

    /// Squeeze one base-field element.
    pub fn get_fields1(&mut self) -> (r: Result<u64, HashError>)
        requires
            tr_wf(old(self)@),
        ensures
            r == Ok::<u64, HashError>(tr_squeeze_val(old(self)@)),
            final(self)@ == tr_squeeze_state(old(self)@),
            tr_wf(final(self)@),
            gl_valid(tr_squeeze_val(old(self)@)),
    {
        if self.out.len() == 0 {
            match self.update_state() {
                Ok(()) => {},
                Err(e) => {
                    return Err(e);
                },
            }
        }
        let v: u64 = self.out.remove(0);
        proof {
            let t1 = if old(self)@.out.len() == 0 { tr_update(old(self)@) } else { old(self)@ };
            assert(self@.out =~= t1.out.drop_first());
            assert(self@ =~= tr_squeeze_state(old(self)@));
        }
        Ok(v)
    }

    /// Draw an extension-field challenge from exactly three consecutive
    /// base-field squeezes, in order.
    pub fn get_field(&mut self) -> (r: F3G)
        requires
            tr_wf(old(self)@),
        ensures
            final(self)@ == tr_squeeze_n_state(old(self)@, 3),
            seq![r.c0, r.c1, r.c2] == tr_squeezed(old(self)@, 3),
            tr_wf(final(self)@),
    {
        let a = match self.get_fields1() {
            Ok(v) => v,
            Err(_) => 0,
        };
        let b = match self.get_fields1() {
            Ok(v) => v,
            Err(_) => 0,
        };
        let c = match self.get_fields1() {
            Ok(v) => v,
            Err(_) => 0,
        };
        proof {
            let t0 = old(self)@;
            lemma_squeeze_snoc(t0, 0);
            lemma_squeeze_snoc(t0, 1);
            lemma_squeeze_snoc(t0, 2);
            assert(tr_squeeze_n_state(t0, 0) == t0);
            assert(tr_squeezed(t0, 0) =~= Seq::<u64>::empty());
            assert(seq![a, b, c] =~= tr_squeezed(t0, 3));
        }
        F3G { c0: a, c1: b, c2: c }
    }

    /// Derive `n` indices of `nbits` bits each from squeezed elements: squeeze
    /// exactly enough elements for `n * nbits` bits at 63 usable bits per
    /// element, then walk the concatenated 63-bit windows bit by bit, filling
    /// each index least-significant-bit-first.  Every index is below
    /// `2^nbits`.
    pub fn get_permutations(&mut self, n: usize, nbits: usize) -> (r: Result<Vec<u64>, HashError>)
        requires
            tr_wf(old(self)@),
            1 <= n,
            1 <= nbits <= 62,
            n * nbits <= 0xFFFF_FFFF,
        ensures
            tr_wf(final(self)@),
            final(self)@ == tr_squeeze_n_state(old(self)@, num_fields_for(n as int, nbits as int)),
            match r {
                Ok(v) => {
                    &&& v@.len() == n
                    &&& forall|i: int|
                        0 <= i < n ==> (#[trigger] v@[i]) as nat == index_val(
                            tr_squeezed(old(self)@, num_fields_for(n as int, nbits as int)),
                            i * nbits,
                            nbits as int,
                        )
                    &&& forall|i: int| 0 <= i < n ==> ((#[trigger] v@[i]) as nat) < pow2(nbits as nat)
                },
                Err(_) => false,
            },
    {
        proof {
            assert(1 <= n * nbits) by (nonlinear_arith)
                requires 1 <= n && 1 <= nbits;
        }
        let total: usize = n * nbits;
        let nf: usize = (total - 1) / 63 + 1;
        let ghost nfg = num_fields_for(n as int, nbits as int);
        assert(nf == nfg);

        let mut fields: Vec<u64> = Vec::new();
        let mut i: usize = 0;
        while i < nf
            invariant
                i <= nf,
                tr_wf(self@),
                self@ == tr_squeeze_n_state(old(self)@, i as nat),
                fields@ == tr_squeezed(old(self)@, i as nat),
                fields@.len() == i,
            decreases nf - i,
        {
            let e = match self.get_fields1() {
                Ok(v) => v,
                Err(_) => 0,
            };
            proof {
                lemma_squeeze_snoc(old(self)@, i as nat);
            }
            fields.push(e);
            i += 1;
        }

        let ghost fs = fields@;
        assert(fs.len() == nf);

        let mut res: Vec<u64> = Vec::new();
        let mut cur_field: usize = 0;
        let mut cur_bit: usize = 0;
        let mut i: usize = 0;
        while i < n
            invariant
                i <= n,
                n * nbits == total,
                1 <= nbits <= 62,
                total <= 0xFFFF_FFFF,
                nf == (total - 1) / 63 + 1,
                fs.len() == nf,
                fields@ == fs,
                cur_bit < 63,
                cur_field * 63 + cur_bit == i * nbits,
                res@.len() == i,
                forall|q: int|
                    0 <= q < i ==> (#[trigger] res@[q]) as nat == index_val(fs, q * nbits, nbits as int),
                forall|q: int| 0 <= q < i ==> ((#[trigger] res@[q]) as nat) < pow2(nbits as nat),
            decreases n - i,
        {
            let mut a: u64 = 0;
            let mut pw: u64 = 1;
            let mut j: usize = 0;
            proof {
                vstd::arithmetic::power2::lemma2_to64();
                vstd::arithmetic::power2::lemma2_to64_rest();
                assert(i * nbits + nbits <= n * nbits) by (nonlinear_arith)
                    requires i < n && 1 <= nbits;
                assert((i as int) * (nbits as int) == (i * nbits) as int) by (nonlinear_arith)
                    requires i < n && n * nbits <= 0xFFFF_FFFFusize;
            }
            while j < nbits
                invariant
                    j <= nbits,
                    1 <= nbits <= 62,
                    i < n,
                    n * nbits == total,
                    total <= 0xFFFF_FFFF,
                    nf == (total - 1) / 63 + 1,
                    fs.len() == nf,
                    fields@ == fs,
                    cur_bit < 63,
                    cur_field * 63 + cur_bit == i * nbits + j,
                    pw as nat == pow2(j as nat),
                    a < pw,
                    a as nat == index_val(fs, (i * nbits) as int, j as int),
                decreases nbits - j,
            {
                proof {
                    vstd::arithmetic::power2::lemma2_to64();
                    vstd::arithmetic::power2::lemma2_to64_rest();
                    vstd::arithmetic::power2::lemma_pow2_strictly_increases(j as nat, 62);
                    let cc = (i * nbits + j) as int;
                    assert(cc <= total - 1) by (nonlinear_arith)
                        requires i < n && j < nbits && n * nbits == total && (i * nbits + j) as int == cc;
                    lemma_fundamental_div_mod_converse(cc, 63, cur_field as int, cur_bit as int);
                    lemma_div_is_ordered(cc, total - 1, 63);
                }
                assert(cur_field < nf);
                let shifted: u64 = fields[cur_field] >> (cur_bit as u64);
                let bit: u64 = shifted & 1;
                proof {
                    assert(bit == bit_at(fs, (i * nbits + j) as int));
                    assert((shifted & 1u64) <= 1) by (bit_vector);
                }
                proof {
                    let start = (i * nbits) as int;
                    let cc2 = start + j;
                    vstd::arithmetic::power2::lemma_pow2_unfold((j + 1) as nat);
                    vstd::arithmetic::mul::lemma_mul_basics(pow2(j as nat) as int);
                    assert(bit_at(fs, cc2) == bit);
                    assert((bit & 1u64) == bit && bit <= 1) by (bit_vector)
                        requires bit == (shifted & 1u64);
                    assert(index_val(fs, start, j + 1) == index_val(fs, start, j as int) + pow2(
                        j as nat) * (bit_at(fs, cc2) as nat));
                    if bit == 1 {
                        assert(pow2(j as nat) * (bit_at(fs, cc2) as nat) == pow2(j as nat));
                    } else {
                        assert(bit == 0);
                        assert(pow2(j as nat) * (bit_at(fs, cc2) as nat) == 0);
                    }
                }
                if bit == 1 {
                    a = a + pw;
                }
                pw = pw * 2;
                cur_bit += 1;
                if cur_bit == 63 {
                    cur_bit = 0;
                    cur_field += 1;
                }
                j += 1;
            }
            res.push(a);
            proof {
                assert((i + 1) * nbits == i * nbits + nbits) by (nonlinear_arith);
            }
            i += 1;
        }
        assert(fields@ == tr_squeezed(old(self)@, nfg));
        Ok(res)
    }
}

} // verus!
