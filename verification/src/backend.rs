//! The gateway to the proving library: type declarations and trusted
//! wrappers around `franklin_crypto`'s re-exported `bellman` fork.  Every
//! item here is believed, not verified; each wrapper's doc comment names the
//! outside function it relies on.  The values these wrappers produce are
//! opaque to the rest of the crate, which orchestrates them under verified
//! contracts.

use vstd::prelude::*;
use vstd::arithmetic::power2::pow2;

use franklin_crypto::bellman::kate_commitment::{Crs, CrsForLagrangeForm, CrsForMonomialForm};
use franklin_crypto::bellman::pairing::bn256::Bn256;
use franklin_crypto::bellman::plonk::better_cs::adaptor::TranspilationVariant;
use franklin_crypto::bellman::plonk::better_cs::cs::PlonkCsWidth4WithNextStepParams;
use franklin_crypto::bellman::plonk::better_cs::keys::{SetupPolynomials, VerificationKey};
use franklin_crypto::bellman::plonk::commitments::transcript::keccak_transcript::RollingKeccakTranscript;
use franklin_crypto::bellman::worker::Worker;
use franklin_crypto::bellman::{Circuit, SynthesisError};

verus! {

/// The constraint-system polynomials for the width-4 system over BN256,
/// held opaquely.
#[verifier::external_body]
pub struct SetupPolynomialsW4 {
    inner: SetupPolynomials<Bn256, PlonkCsWidth4WithNextStepParams>,
}

/// A proof for the width-4 constraint system over BN256, held opaquely.
#[verifier::external_body]
pub struct ProofW4 {
    inner: franklin_crypto::bellman::plonk::better_cs::keys::Proof<
        Bn256,
        PlonkCsWidth4WithNextStepParams,
    >,
}

/// A verification key for the width-4 constraint system over BN256, held
/// opaquely.
#[verifier::external_body]
pub struct VerificationKeyW4 {
    inner: VerificationKey<Bn256, PlonkCsWidth4WithNextStepParams>,
}

/// A monomial-form commitment key over BN256, held opaquely.
#[verifier::external_body]
pub struct CrsMonomial {
    inner: Crs<Bn256, CrsForMonomialForm>,
}

/// A Lagrange-form commitment key over BN256, held opaquely.
#[verifier::external_body]
pub struct CrsLagrange {
    inner: Crs<Bn256, CrsForLagrangeForm>,
}

#[verifier::external_type_specification]
#[verifier::external_body]
pub struct ExTranspilationVariant(TranspilationVariant);

#[verifier::external_type_specification]
#[verifier::external_body]
pub struct ExSynthesisError(SynthesisError);

/// The number of G1 bases a monomial-form key holds.
pub uninterp spec fn crs_mono_points(c: CrsMonomial) -> nat;

/// The number of G1 bases a Lagrange-form key holds.
pub uninterp spec fn crs_lagrange_points(c: CrsLagrange) -> nat;

/// The deterministic crs-42 monomial key of the given size.
pub uninterp spec fn spec_crs42_key(size: nat) -> CrsMonomial;

/// The deterministic Lagrange-form key derived from a monomial key at the
/// given size.
pub uninterp spec fn spec_lagrange_key(mono: CrsMonomial, size: nat) -> CrsLagrange;

/// The domain size `n` that a set of setup polynomials declares.
pub uninterp spec fn polys_domain(p: SetupPolynomialsW4) -> nat;

/// The verification key that derivation yields from setup polynomials and a
/// monomial key.
pub uninterp spec fn spec_verification_key(
    p: SetupPolynomialsW4,
    mono: CrsMonomial,
) -> VerificationKeyW4;

/// The keccak-transcript verifier's verdict on a proof and key.
pub uninterp spec fn spec_keccak_verdict(proof: ProofW4, vk: VerificationKeyW4) -> bool;

/// Relies on `Crs::<Bn256, CrsForMonomialForm>::crs_42`: builds the
/// monomial-form commitment key of the given size from the fixed generator
/// 42, so the key is a function of the size alone, with `size` G1 bases.
/// `crs_42` asserts that the size is a power of two, which the `requires`
/// leaves out.
#[verifier::external_body]
pub(crate) fn crs_42_monomial(size: usize) -> (r: CrsMonomial)
    requires
        exists|k: nat| size as nat == pow2(k),
    ensures
        r == spec_crs42_key(size as nat),
        crs_mono_points(r) == size as nat,
{
    CrsMonomial { inner: Crs::<Bn256, CrsForMonomialForm>::crs_42(size, &Worker::new()) }
}

/// Relies on `Crs::<Bn256, CrsForLagrangeForm>::from_powers`: derives the
/// Lagrange-form key of the given size from a monomial-form key by a fixed
/// transform, so the result is a function of the key and the size, with
/// `size` G1 bases.  `from_powers` asserts that the size is a power of two
/// and no larger than the monomial key, and its FFT domain caps the size;
/// the `requires` leave those inputs out.
#[verifier::external_body]
pub(crate) fn crs_from_powers(mono: &CrsMonomial, size: usize) -> (r: CrsLagrange)
    requires
        exists|k: nat| size as nat == pow2(k),
        size as nat <= crs_mono_points(*mono),
        size as nat <= pow2(26),
    ensures
        r == spec_lagrange_key(*mono, size as nat),
        crs_lagrange_points(r) == size as nat,
{
    CrsLagrange { inner: Crs::<Bn256, CrsForLagrangeForm>::from_powers(&mono.inner, size, &Worker::new()) }
}

/// Relies on `bellman::plonk::transpile_with_gates_count`: rewrites the
/// circuit for the width-4 constraint system and says how many gates it
/// used, plus one hint entry per rewritten constraint.  When the circuit's
/// own synthesis fails, this version of the outside function aborts the
/// process instead of returning its error, and no `requires` over an opaque
/// circuit can rule that out; the `Err` arm exists only for the signature.
#[verifier::external_body]
pub(crate) fn transpile_gates_count<C: Circuit<Bn256> + Clone>(
    circuit: &C,
) -> Result<(usize, Vec<(usize, TranspilationVariant)>), SynthesisError> {
    franklin_crypto::bellman::plonk::transpile_with_gates_count::<Bn256, C>(circuit.clone())
}

/// Relies on `bellman::plonk::setup`: builds the constraint-system
/// polynomials from the transpiled circuit; also hands back their declared
/// domain size `n` as a plain value.  The generator pads the assembly until
/// `n + 1` is a power of two before producing the polynomials.
#[verifier::external_body]
pub(crate) fn setup_polynomials<C: Circuit<Bn256> + Clone>(
    circuit: &C,
    hints: &Vec<(usize, TranspilationVariant)>,
) -> (r: Result<(SetupPolynomialsW4, usize), SynthesisError>)
    ensures
        r matches Ok(t) ==> polys_domain(t.0) == t.1 as nat && (exists|k: nat| (t.1 + 1) as nat
            == pow2(k)),
{
    let polys = franklin_crypto::bellman::plonk::setup::<Bn256, C>(circuit.clone(), hints)?;
    let n = polys.n;
    Ok((SetupPolynomialsW4 { inner: polys }, n))
}

/// Relies on `bellman::plonk::is_satisfied_using_one_shot_check`: replays the
/// circuit once against its witness; an unsatisfied witness comes back as
/// `Err(Unsatisfiable)`.  The one-shot assembly asserts its own shape while
/// replaying, so hints that were not made for this circuit can abort the
/// process; no `requires` over an opaque circuit can state that.
#[verifier::external_body]
pub(crate) fn is_satisfied<C: Circuit<Bn256> + Clone>(
    circuit: &C,
    hints: &Vec<(usize, TranspilationVariant)>,
) -> Result<(), SynthesisError> {
    franklin_crypto::bellman::plonk::is_satisfied_using_one_shot_check::<Bn256, C>(circuit.clone(), hints)
}

/// Relies on `bellman::plonk::make_verification_key`: derives the
/// verification key by committing each setup polynomial (size `n + 1`)
/// against the monomial key's bases, so the result is a function of the two
/// arguments.  Committing slices the bases to the polynomial's length, an
/// abort when the key is too small, which the `requires` leaves out.  It
/// also reads the key's two G2 bases, which every key from
/// `crs_42_monomial` carries and no other constructor of this type exists.
#[verifier::external_body]
pub(crate) fn derive_verification_key(
    polys: &SetupPolynomialsW4,
    mono: &CrsMonomial,
) -> (r: Result<VerificationKeyW4, SynthesisError>)
    requires
        polys_domain(*polys) + 1 <= crs_mono_points(*mono),
    ensures
        r matches Ok(vk) ==> vk == spec_verification_key(*polys, *mono),
{
    let vk = franklin_crypto::bellman::plonk::make_verification_key(&polys.inner, &mono.inner)?;
    Ok(VerificationKeyW4 { inner: vk })
}

/// Relies on `bellman::plonk::prove` with the rolling-keccak Fiat-Shamir
/// transcript: the fast proving path, which needs both key forms.  The
/// Lagrange commits assert that the key's base count equals the padded
/// domain `n + 1`, and the monomial commits slice bases up to that length;
/// the `requires` leave the aborting key sizes out.  The prover also asserts
/// shape relations internal to the setup polynomials, which hold of every
/// value that `setup_polynomials` yields.
#[verifier::external_body]
pub(crate) fn prove_full_keccak<C: Circuit<Bn256> + Clone>(
    circuit: &C,
    hints: &Vec<(usize, TranspilationVariant)>,
    polys: &SetupPolynomialsW4,
    mono: &CrsMonomial,
    lagrange: &CrsLagrange,
) -> Result<ProofW4, SynthesisError>
    requires
        polys_domain(*polys) + 1 <= crs_mono_points(*mono),
        crs_lagrange_points(*lagrange) == polys_domain(*polys) + 1,
{
    let p = franklin_crypto::bellman::plonk::prove::<
        Bn256,
        C,
        RollingKeccakTranscript<franklin_crypto::bellman::pairing::bn256::Fr>,
    >(circuit.clone(), hints, &polys.inner, &mono.inner, &lagrange.inner)?;
    Ok(ProofW4 { inner: p })
}

/// Relies on `bellman::plonk::prove_by_steps` with the rolling-keccak
/// Fiat-Shamir transcript: the step-by-step proving path, monomial key only.
/// Every commit slices the monomial bases up to the padded domain `n + 1`,
/// an abort when the key is too small, which the `requires` leaves out; the
/// prover's further shape asserts hold of every value that
/// `setup_polynomials` yields.
#[verifier::external_body]
pub(crate) fn prove_by_steps_keccak<C: Circuit<Bn256> + Clone>(
    circuit: &C,
    hints: &Vec<(usize, TranspilationVariant)>,
    polys: &SetupPolynomialsW4,
    mono: &CrsMonomial,
) -> Result<ProofW4, SynthesisError>
    requires
        polys_domain(*polys) + 1 <= crs_mono_points(*mono),
{
    let p = franklin_crypto::bellman::plonk::prove_by_steps::<
        Bn256,
        C,
        RollingKeccakTranscript<franklin_crypto::bellman::pairing::bn256::Fr>,
    >(circuit.clone(), hints, &polys.inner, None, &mono.inner, None)?;
    Ok(ProofW4 { inner: p })
}

/// Relies on `bellman::plonk::better_cs::verifier::verify` with the
/// rolling-keccak Fiat-Shamir transcript: deterministic in the proof and
/// the key, so an `Ok` verdict is their function.  The verifier asserts
/// that the proof's and key's shapes agree and indexes into the proof's
/// vectors, so a proof parsed from foreign bytes can abort the process;
/// over two opaque values no `requires` can state that.
#[verifier::external_body]
pub(crate) fn verify_keccak(
    proof: &ProofW4,
    vk: &VerificationKeyW4,
) -> (r: Result<bool, SynthesisError>)
    ensures
        r matches Ok(b) ==> b == spec_keccak_verdict(*proof, *vk),
{
    franklin_crypto::bellman::plonk::better_cs::verifier::verify::<
        Bn256,
        PlonkCsWidth4WithNextStepParams,
        RollingKeccakTranscript<franklin_crypto::bellman::pairing::bn256::Fr>,
    >(&proof.inner, &vk.inner, None)
}

impl ProofW4 {
    /// Relies on `Proof::write`: the canonical byte serialization of a proof.
    #[verifier::external_body]
    pub fn to_bytes(&self) -> Result<Vec<u8>, SynthesisError> {
        let mut buf: Vec<u8> = Vec::new();
        self.inner.write(&mut buf).map_err(SynthesisError::IoError)?;
        Ok(buf)
    }

    /// Relies on `Proof::read`: parses a proof back from its canonical byte
    /// serialization.
    #[verifier::external_body]
    pub fn from_bytes(bytes: &[u8]) -> Result<ProofW4, SynthesisError> {
        let p = franklin_crypto::bellman::plonk::better_cs::keys::Proof::read(bytes)
            .map_err(SynthesisError::IoError)?;
        Ok(ProofW4 { inner: p })
    }
}

impl VerificationKeyW4 {
    /// Relies on `VerificationKey::write`: the canonical byte serialization
    /// of a verification key.
    #[verifier::external_body]
    pub fn to_bytes(&self) -> Result<Vec<u8>, SynthesisError> {
        let mut buf: Vec<u8> = Vec::new();
        self.inner.write(&mut buf).map_err(SynthesisError::IoError)?;
        Ok(buf)
    }
}

} // verus!
