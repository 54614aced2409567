//! The proof lifecycle: commitment-key generation, setup, witness
//! validation, proving and verification, dispatching between the supported
//! Fiat-Shamir transcript variants.
//!
//! The range decisions, power computations and variant dispatch are verified;
//! the polynomial and pairing arithmetic is delegated to the proving library
//! through the trusted gateway in [`crate::backend`].

use vstd::prelude::*;
use vstd::arithmetic::power2::pow2;
use vstd::string::StrSliceExecFns;

use franklin_crypto::bellman::plonk::better_cs::adaptor::TranspilationVariant;
use franklin_crypto::bellman::pairing::bn256::Bn256;
use franklin_crypto::bellman::{Circuit, SynthesisError};

use crate::backend;
use crate::backend::{CrsLagrange, CrsMonomial, ProofW4, SetupPolynomialsW4, VerificationKeyW4};
use crate::report::{assemble_analyse_result, AnalyseResult, ConstraintStat, R1csStats};

verus! {

/// Offset at which auxiliary wires are mapped.
pub const AUX_OFFSET: usize = 1;

/// The smallest supported SRS power of two (circuits of 1024 constraints).
pub const SETUP_MIN_POW2: u32 = 10;

/// The largest supported SRS power of two (circuits of about 67M constraints).
pub const SETUP_MAX_POW2: u32 = 26;

/// The errors of the proof lifecycle.
#[derive(Debug)]
pub enum PlonkError {
    /// A requested or computed SRS power lies outside the supported range;
    /// carries the range and the offending value.
    OutOfRange { min: u32, max: u32, found: u32 },
    /// An unrecognized transcript selector, or a selector the chosen proving
    /// path does not support.
    UnsupportedVariant,
    /// The rescue transcript of the proving library is not present in the
    /// linked version, so the rescue proving and verification paths cannot
    /// run.
    RescueUnavailable,
    /// The witness does not satisfy the circuit.
    Unsatisfied(SynthesisError),
    /// A failure propagated unchanged from the underlying algorithm layer.
    Algorithm(SynthesisError),
}

/// The closed set of transcript constructions.
#[derive(Clone, Copy, Debug, PartialEq, Eq, Structural)]
pub enum TranscriptVariant {
    Keccak,
    Rescue,
}

/// Which variant, if any, a selector token names.
pub open spec fn variant_of(s: Seq<char>) -> Option<TranscriptVariant> {
    if s == "keccak"@ {
        Some(TranscriptVariant::Keccak)
    } else if s == "rescue"@ {
        Some(TranscriptVariant::Rescue)
    } else {
        None
    }
}

/// Character-wise string equality.
fn str_eq(a: &str, b: &str) -> (r: bool)
    ensures
        r <==> a@ == b@,
{
    let la: usize = a.unicode_len();
    let lb: usize = b.unicode_len();
    if la != lb {
        return false;
    }
    let mut i: usize = 0;
    while i < la
        invariant
            i <= la,
            la == a@.len(),
            lb == b@.len(),
            la == lb,
            forall|k: int| 0 <= k < i ==> a@[k] == b@[k],
        decreases la - i,
    {
        if a.get_char(i) != b.get_char(i) {
            return false;
        }
        i += 1;
    }
    proof {
        assert(a@ =~= b@);
    }
    true
}

/// Resolve a selector token to its variant; unknown tokens are rejected here,
/// before any cryptographic work.
pub fn parse_transcript_variant(s: &str) -> (r: Option<TranscriptVariant>)
    ensures
        r == variant_of(s@),
{
    if str_eq(s, "keccak") {
        Some(TranscriptVariant::Keccak)
    } else if str_eq(s, "rescue") {
        Some(TranscriptVariant::Rescue)
    } else {
        None
    }
}

proof fn lemma_pow2_le(e1: nat, e2: nat)
    requires
        e1 <= e2,
    ensures
        pow2(e1) <= pow2(e2),
{
    if e1 < e2 {
        vstd::arithmetic::power2::lemma_pow2_strictly_increases(e1, e2);
    }
}

/// `r` is the least power of two at or above `max(n, 1)`.
pub open spec fn is_ceil_pow2(n: nat, r: nat) -> bool {
    &&& exists|k: nat| r == pow2(k)
    &&& n <= r
    &&& r == 1 || r < 2 * n
}

/// `2^p`, as a size.
fn pow2_usize(p: u32) -> (r: usize)
    requires
        p <= 26,
    ensures
        r as nat == pow2(p as nat),
{
    let mut v: usize = 1;
    let mut i: u32 = 0;
    proof {
        vstd::arithmetic::power2::lemma2_to64();
    }
    while i < p
        invariant
            i <= p <= 26,
            v as nat == pow2(i as nat),
        decreases p - i,
    {
        proof {
            vstd::arithmetic::power2::lemma2_to64();
            lemma_pow2_le(i as nat, 25);
            vstd::arithmetic::power2::lemma_pow2_unfold((i + 1) as nat);
        }
        v = v * 2;
        i = i + 1;
    }
    v
}

/// The smallest power of two not below `max(n, 1024)`, as an exponent: the
/// least `p >= 10` with `2^p >= n`.
pub fn setup_power_of_two(n: usize) -> (p: u32)
    ensures
        10 <= p <= 64,
        n as nat <= pow2(p as nat),
        p > 10 ==> pow2((p - 1) as nat) < n as nat,
{
    let nn: u64 = n as u64;
    let mut p: u32 = 10;
    let mut v: u64 = 1024;
    proof {
        vstd::arithmetic::power2::lemma2_to64();
    }
    while v < nn && p < 63
        invariant
            10 <= p <= 63,
            nn == n as u64,
            v as nat == pow2(p as nat),
            p > 10 ==> pow2((p - 1) as nat) < n as nat,
        decreases 63 - p,
    {
        proof {
            vstd::arithmetic::power2::lemma2_to64_rest();
            lemma_pow2_le(p as nat, 62);
            vstd::arithmetic::power2::lemma_pow2_unfold((p + 1) as nat);
        }
        v = v * 2;
        p = p + 1;
    }
    if v < nn {
        proof {
            vstd::arithmetic::power2::lemma2_to64_rest();
        }
        p = 64;
    }
    p
}

/// Validate a computed SRS power against the supported range: the decision
/// rule of `setup`.  Succeeds with the clamped power exactly when the padded
/// domain fits `2^SETUP_MAX_POW2`; fails with a range error carrying both
/// bounds and the offending power otherwise.
pub fn check_setup_power(n: usize) -> (r: Result<u32, PlonkError>)
    ensures
        match r {
            Ok(p) => {
                &&& SETUP_MIN_POW2 <= p <= SETUP_MAX_POW2
                &&& n as nat <= pow2(p as nat)
                &&& p > 10 ==> pow2((p - 1) as nat) < n as nat
                &&& n as nat <= pow2(26)
            },
            Err(e) => {
                &&& pow2(26) < n as nat
                &&& e matches PlonkError::OutOfRange { min, max, found } && min == SETUP_MIN_POW2
                    && max == SETUP_MAX_POW2 && found > SETUP_MAX_POW2
            },
        },
{
    let p: u32 = setup_power_of_two(n);
    if p > SETUP_MAX_POW2 {
        proof {
            lemma_pow2_le(26, (p - 1) as nat);
        }
        Err(PlonkError::OutOfRange { min: SETUP_MIN_POW2, max: SETUP_MAX_POW2, found: p })
    } else {
        proof {
            lemma_pow2_le(p as nat, 26);
        }
        Ok(p)
    }
}

/// Generate a monomial-form commitment key of size `2^power`: the
/// deterministic crs-42 key, a function of the power alone.  Succeeds
/// exactly when `power` lies in the supported range; fails with a range
/// error carrying both bounds and the offending power otherwise.
pub fn gen_key_monomial_form(power: u32) -> (r: Result<CrsMonomial, PlonkError>)
    ensures
        (SETUP_MIN_POW2 <= power <= SETUP_MAX_POW2) <==> r is Ok,
        r matches Ok(k) ==> k == backend::spec_crs42_key(pow2(power as nat))
            && backend::crs_mono_points(k) == pow2(power as nat),
        r matches Err(e) ==> e matches PlonkError::OutOfRange { min, max, found }
            && min == SETUP_MIN_POW2 && max == SETUP_MAX_POW2 && found == power,
{
    if power < SETUP_MIN_POW2 || power > SETUP_MAX_POW2 {
        return Err(PlonkError::OutOfRange {
            min: SETUP_MIN_POW2,
            max: SETUP_MAX_POW2,
            found: power,
        });
    }
    let size: usize = pow2_usize(power);
    proof {
        assert(size as nat == pow2(power as nat));
    }
    Ok(backend::crs_42_monomial(size))
}

/// Analyse a circuit: transpile it and assemble the report from the
/// circuit's structural counts, the transpiler's gate and hint counts, and
/// the per-constraint statistics gathered while counting constraints.
pub fn analyse<C: Circuit<Bn256> + Clone>(
    circuit: C,
    r1cs: R1csStats,
    constraint_stats: Vec<ConstraintStat>,
) -> (r: Result<AnalyseResult, PlonkError>)
    ensures
        match r {
            Ok(a) => {
                &&& a.num_inputs == r1cs.num_inputs
                &&& a.num_aux == r1cs.num_aux
                &&& a.num_variables == r1cs.num_variables
                &&& a.num_constraints == r1cs.num_constraints
                &&& a.num_nontrivial_constraints == constraint_stats@.len()
                &&& a.constraint_stats@ == constraint_stats@
            },
            Err(e) => e matches PlonkError::Algorithm(_),
        },
{
    match backend::transpile_gates_count(&circuit) {
        Ok((gates_count, hints)) => {
            let num_hints: usize = hints.len();
            Ok(assemble_analyse_result(r1cs, gates_count, num_hints, constraint_stats))
        },
        Err(e) => Err(PlonkError::Algorithm(e)),
    }
}

/// Everything proving needs about one circuit shape: the setup polynomials,
/// the transpilation hints, and the commitment keys.
pub struct SetupForProver {
    setup_polynomials: SetupPolynomialsW4,
    hints: Vec<(usize, TranspilationVariant)>,
    key_monomial_form: CrsMonomial,
    key_lagrange_form: Option<CrsLagrange>,
    domain_size: usize,
}

impl SetupForProver {
    /// The declared domain size `n` of the setup polynomials.
    pub closed spec fn spec_domain_size(&self) -> nat {
        self.domain_size as nat
    }

    /// Whether a Lagrange-form key was supplied, selecting the fast proving
    /// path.
    pub closed spec fn spec_has_lagrange(&self) -> bool {
        self.key_lagrange_form is Some
    }

    /// The stored setup polynomials.
    pub closed spec fn spec_setup_polynomials(&self) -> SetupPolynomialsW4 {
        self.setup_polynomials
    }

    /// The stored monomial-form key.
    pub closed spec fn spec_key_monomial(&self) -> CrsMonomial {
        self.key_monomial_form
    }

    /// The stored Lagrange-form key, if one was supplied.
    pub closed spec fn spec_key_lagrange(&self) -> Option<CrsLagrange> {
        self.key_lagrange_form
    }

    /// Invariant: the padded domain fits the largest supported SRS, the
    /// stored size is the one the polynomials declare, and the padded
    /// domain `n + 1` is a power of two.
    pub closed spec fn wf(&self) -> bool {
        &&& self.domain_size as nat <= pow2(26)
        &&& backend::polys_domain(self.setup_polynomials) == self.domain_size as nat
        &&& exists|k: nat| (self.domain_size + 1) as nat == pow2(k)
    }

    /// Prepare the proving metadata for a circuit: transpile, build the
    /// setup polynomials, and check that the required SRS power lies in the
    /// supported range.
    pub fn prepare_setup_for_prover<C: Circuit<Bn256> + Clone>(
        circuit: C,
        key_monomial_form: CrsMonomial,
        key_lagrange_form: Option<CrsLagrange>,
    ) -> (r: Result<SetupForProver, PlonkError>)
        ensures
            match r {
                Ok(s) => {
                    &&& s.wf()
                    &&& s.spec_has_lagrange() == (key_lagrange_form is Some)
                    &&& s.spec_key_monomial() == key_monomial_form
                    &&& s.spec_key_lagrange() == key_lagrange_form
                },
                Err(e) => {
                    &&& (e matches PlonkError::OutOfRange { min, max, found } ==> min
                        == SETUP_MIN_POW2 && max == SETUP_MAX_POW2 && found > SETUP_MAX_POW2)
                    &&& ((e matches PlonkError::OutOfRange { .. }) || (
                    e matches PlonkError::Algorithm(_)))
                },
            },
    {
        let hints: Vec<(usize, TranspilationVariant)> = match backend::transpile_gates_count(
            &circuit,
        ) {
            Ok((_gates_count, hints)) => hints,
            Err(e) => {
                return Err(PlonkError::Algorithm(e));
            },
        };
        let (setup_polynomials, domain_size): (SetupPolynomialsW4, usize) =
            match backend::setup_polynomials(&circuit, &hints) {
            Ok(t) => t,
            Err(e) => {
                return Err(PlonkError::Algorithm(e));
            },
        };
        match check_setup_power(domain_size) {
            Ok(_power) => {},
            Err(e) => {
                return Err(e);
            },
        }
        Ok(SetupForProver {
            setup_polynomials,
            hints,
            key_monomial_form,
            key_lagrange_form,
            domain_size,
        })
    }

    /// Derive the verification key from the setup polynomials and the
    /// monomial-form key; deterministic, with no transcript involvement: an
    /// `Ok` key is a function of those two values alone.  The monomial key
    /// must cover the padded domain, or the outside derivation aborts.
    pub fn make_verification_key(&self) -> (r: Result<VerificationKeyW4, PlonkError>)
        requires
            self.wf(),
            self.spec_domain_size() + 1 <= backend::crs_mono_points(self.spec_key_monomial()),
        ensures
            r matches Ok(vk) ==> vk == backend::spec_verification_key(
                self.spec_setup_polynomials(),
                self.spec_key_monomial(),
            ),
            r matches Err(e) ==> e matches PlonkError::Algorithm(_),
    {
        match backend::derive_verification_key(&self.setup_polynomials, &self.key_monomial_form) {
            Ok(vk) => Ok(vk),
            Err(e) => Err(PlonkError::Algorithm(e)),
        }
    }

    /// Cheap one-shot satisfiability check of a witness against the stored
    /// hints; failure means the witness is malformed.
    pub fn validate_witness<C: Circuit<Bn256> + Clone>(&self, circuit: C) -> (r: Result<
        (),
        PlonkError,
    >)
        ensures
            r matches Err(e) ==> e matches PlonkError::Unsatisfied(_),
    {
        match backend::is_satisfied(&circuit, &self.hints) {
            Ok(()) => Ok(()),
            Err(e) => Err(PlonkError::Unsatisfied(e)),
        }
    }

    /// Produce a proof.  The selector is resolved first: an unknown token
    /// fails before any cryptographic work, as does the rescue variant on
    /// the fast (Lagrange-key) path, which supports only keccak.  The
    /// witness is then re-validated, and the proving algorithm runs with the
    /// selected transcript construction.
    pub fn prove<C: Circuit<Bn256> + Clone>(&self, circuit: C, transcript: &str) -> (r: Result<
        ProofW4,
        PlonkError,
    >)
        requires
            self.wf(),
            variant_of(transcript@) == Some(TranscriptVariant::Keccak)
                ==> self.spec_domain_size() + 1 <= backend::crs_mono_points(
                self.spec_key_monomial(),
            ),
            variant_of(transcript@) == Some(TranscriptVariant::Keccak) ==> (
            self.spec_key_lagrange() matches Some(l) ==> backend::crs_lagrange_points(l)
                == self.spec_domain_size() + 1),
        ensures
            (r matches Err(e) && e matches PlonkError::UnsupportedVariant) <==> (variant_of(
                transcript@,
            ) is None || (variant_of(transcript@) == Some(TranscriptVariant::Rescue)
                && self.spec_has_lagrange())),
            (r matches Err(e) && e matches PlonkError::RescueUnavailable) ==> (variant_of(
                transcript@,
            ) == Some(TranscriptVariant::Rescue) && !self.spec_has_lagrange()),
            r matches Err(e) ==> ((e matches PlonkError::UnsupportedVariant) || (
            e matches PlonkError::RescueUnavailable) || (e matches PlonkError::Unsatisfied(_)) || (
            e matches PlonkError::Algorithm(_))),
    {
        let variant: TranscriptVariant = match parse_transcript_variant(transcript) {
            Some(v) => v,
            None => {
                return Err(PlonkError::UnsupportedVariant);
            },
        };
        if self.key_lagrange_form.is_some() && matches!(variant, TranscriptVariant::Rescue) {
            return Err(PlonkError::UnsupportedVariant);
        }
        match backend::is_satisfied(&circuit, &self.hints) {
            Ok(()) => {},
            Err(e) => {
                return Err(PlonkError::Unsatisfied(e));
            },
        }
        match &self.key_lagrange_form {
            Some(lagrange) => match variant {
                TranscriptVariant::Keccak => {
                    match backend::prove_full_keccak(
                        &circuit,
                        &self.hints,
                        &self.setup_polynomials,
                        &self.key_monomial_form,
                        lagrange,
                    ) {
                        Ok(p) => Ok(p),
                        Err(e) => Err(PlonkError::Algorithm(e)),
                    }
                },
                TranscriptVariant::Rescue => Err(PlonkError::UnsupportedVariant),
            },
            None => match variant {
                TranscriptVariant::Keccak => {
                    match backend::prove_by_steps_keccak(
                        &circuit,
                        &self.hints,
                        &self.setup_polynomials,
                        &self.key_monomial_form,
                    ) {
                        Ok(p) => Ok(p),
                        Err(e) => Err(PlonkError::Algorithm(e)),
                    }
                },
                TranscriptVariant::Rescue => Err(PlonkError::RescueUnavailable),
            },
        }
    }

    /// Derive the Lagrange-form key of this setup's own padded domain size
    /// -- the least power of two at or above the domain -- from the
    /// monomial-form key; deterministic in the key and that size.  The
    /// monomial key must cover that size, or the outside derivation aborts.
    pub fn get_srs_lagrange_form_from_monomial_form(&self) -> (r: CrsLagrange)
        requires
            self.wf(),
            forall|s: nat|
                is_ceil_pow2(self.spec_domain_size(), s) ==> s <= backend::crs_mono_points(
                    self.spec_key_monomial(),
                ),
        ensures
            exists|s: nat|
                is_ceil_pow2(self.spec_domain_size(), s) && r == backend::spec_lagrange_key(
                    self.spec_key_monomial(),
                    s,
                ) && backend::crs_lagrange_points(r) == s,
    {
        let size: usize = next_power_of_two_size(self.domain_size);
        proof {
            assert(is_ceil_pow2(self.spec_domain_size(), size as nat));
            let k = choose|k: nat| k <= 26 && size as nat == pow2(k);
            lemma_pow2_le(k, 26);
        }
        let lagrange: CrsLagrange = backend::crs_from_powers(&self.key_monomial_form, size);
        proof {
            assert(is_ceil_pow2(self.spec_domain_size(), size as nat) && lagrange
                == backend::spec_lagrange_key(self.spec_key_monomial(), size as nat)
                && backend::crs_lagrange_points(lagrange) == size as nat);
        }
        lagrange
    }
}

/// The smallest power of two not below `max(n, 1)`, as a size.
fn next_power_of_two_size(n: usize) -> (r: usize)
    requires
        n as nat <= pow2(26),
    ensures
        n as nat <= r as nat,
        exists|k: nat| k <= 26 && r as nat == pow2(k),
        r as nat == 1 || (r as nat) < 2 * (n as nat),
{
    let mut v: usize = 1;
    let ghost mut k: nat = 0nat;
    proof {
        vstd::arithmetic::power2::lemma2_to64();
    }
    while v < n
        invariant
            n as nat <= pow2(26),
            v as nat == pow2(k),
            k <= 26,
            v as nat == 1 || (v as nat) < 2 * (n as nat),
        decreases 26 - k,
    {
        proof {
            if k >= 26 {
                lemma_pow2_le(26, k);
                assert(false);
            }
            vstd::arithmetic::power2::lemma2_to64();
            vstd::arithmetic::power2::lemma2_to64_rest();
            lemma_pow2_le(k, 25);
            vstd::arithmetic::power2::lemma_pow2_unfold((k + 1) as nat);
        }
        v = v * 2;
        proof {
            k = k + 1nat;
        }
    }
    proof {
        assert(k <= 26 && v as nat == pow2(k));
    }
    v
}

/// Check a proof against a verification key, dispatching on the transcript
/// selector: an unknown token is rejected at once, the keccak variant runs
/// the verification algorithm, and the rescue variant reports the missing
/// transcript of the linked proving library.
pub fn verify(vk: &VerificationKeyW4, proof: &ProofW4, transcript: &str) -> (r: Result<
    bool,
    PlonkError,
>)
    ensures
        (r matches Err(e) && e matches PlonkError::UnsupportedVariant) <==> variant_of(
            transcript@,
        ) is None,
        (r matches Err(e) && e matches PlonkError::RescueUnavailable) <==> variant_of(transcript@)
            == Some(TranscriptVariant::Rescue),
        variant_of(transcript@) == Some(TranscriptVariant::Keccak) ==> ((r matches Ok(b) && b
            == backend::spec_keccak_verdict(*proof, *vk)) || (r matches Err(e)
            && e matches PlonkError::Algorithm(_))),
        r matches Err(e) ==> ((e matches PlonkError::UnsupportedVariant) || (
        e matches PlonkError::RescueUnavailable) || (e matches PlonkError::Algorithm(_))),
{
    match parse_transcript_variant(transcript) {
        None => Err(PlonkError::UnsupportedVariant),
        Some(TranscriptVariant::Keccak) => match backend::verify_keccak(proof, vk) {
            Ok(b) => Ok(b),
            Err(e) => Err(PlonkError::Algorithm(e)),
        },
        Some(TranscriptVariant::Rescue) => Err(PlonkError::RescueUnavailable),
    }
}

} // verus!
