use franklin_crypto::bellman::pairing::bn256::{Bn256, Fr};
use franklin_crypto::bellman::pairing::ff::{Field, PrimeField};
use franklin_crypto::bellman::{Circuit, ConstraintSystem, SynthesisError};

use plonky::backend::ProofW4;
use plonky::plonk::{
    check_setup_power, gen_key_monomial_form, parse_transcript_variant, setup_power_of_two,
    verify, PlonkError, SetupForProver, TranscriptVariant,
};
use plonky::report::{ConstraintStat, R1csStats};

/// One rank-1 constraint `a * b = c`, with `c` the public output.
#[derive(Clone)]
struct MultiplierCircuit {
    a: Option<Fr>,
    b: Option<Fr>,
}

impl Circuit<Bn256> for MultiplierCircuit {
    fn synthesize<CS: ConstraintSystem<Bn256>>(self, cs: &mut CS) -> Result<(), SynthesisError> {
        let a = cs.alloc(|| "a", || self.a.ok_or(SynthesisError::AssignmentMissing))?;
        let b = cs.alloc(|| "b", || self.b.ok_or(SynthesisError::AssignmentMissing))?;
        let c = cs.alloc_input(
            || "c",
            || {
                let mut t = self.a.ok_or(SynthesisError::AssignmentMissing)?;
                t.mul_assign(&self.b.ok_or(SynthesisError::AssignmentMissing)?);
                Ok(t)
            },
        )?;
        cs.enforce(|| "a*b=c", |lc| lc + a, |lc| lc + b, |lc| lc + c);
        Ok(())
    }
}

fn witness_circuit() -> MultiplierCircuit {
    MultiplierCircuit { a: Some(Fr::from_str("3").unwrap()), b: Some(Fr::from_str("4").unwrap()) }
}

#[test]
fn test_gen_key_monomial_form() {
    gen_key_monomial_form(10).unwrap();
}

#[test]
fn gen_key_rejects_out_of_range_powers() {
    for power in [9u32, 27] {
        match gen_key_monomial_form(power) {
            Err(PlonkError::OutOfRange { min, max, found }) => {
                assert_eq!((min, max, found), (10, 26, power));
            }
            _ => panic!("power {power} must be rejected"),
        }
    }
}

#[test]
fn setup_power_clamps_and_rounds_up() {
    assert_eq!(setup_power_of_two(0), 10);
    assert_eq!(setup_power_of_two(1), 10);
    assert_eq!(setup_power_of_two(1024), 10);
    assert_eq!(setup_power_of_two(1025), 11);
    assert_eq!(setup_power_of_two(5000), 13);
    assert_eq!(setup_power_of_two(1 << 26), 26);
}

#[test]
fn setup_power_range_decision() {
    assert_eq!(check_setup_power(1024).unwrap(), 10);
    assert_eq!(check_setup_power(1 << 26).unwrap(), 26);
    match check_setup_power((1 << 26) + 1) {
        Err(PlonkError::OutOfRange { min, max, found }) => {
            assert_eq!((min, max, found), (10, 26, 27));
        }
        _ => panic!("a domain above 2^26 must be rejected"),
    }
}

#[test]
fn variant_tokens() {
    assert_eq!(parse_transcript_variant("keccak"), Some(TranscriptVariant::Keccak));
    assert_eq!(parse_transcript_variant("rescue"), Some(TranscriptVariant::Rescue));
    assert_eq!(parse_transcript_variant("poseidon"), None);
    assert_eq!(parse_transcript_variant(""), None);
}

#[test]
fn test_analyze() {
    let circuit = MultiplierCircuit { a: None, b: None };
    let r1cs = R1csStats { num_inputs: 2, num_aux: 2, num_variables: 4, num_constraints: 1 };
    let stats = vec![ConstraintStat { name: "0".to_string(), num_gates: 1 }];
    let result = plonky::plonk::analyse(circuit, r1cs, stats).unwrap();
    assert_eq!(
        r#"{"num_inputs":2,"num_aux":2,"num_variables":4,"num_constraints":1,"num_nontrivial_constraints":1,"num_gates":1,"num_hints":1,"constraint_stats":[{"name":"0","num_gates":1}]}"#,
        result.to_json()
    );
}

#[test]
fn verification_key_derivation_is_deterministic() {
    let key = gen_key_monomial_form(10).unwrap();
    let setup =
        SetupForProver::prepare_setup_for_prover(witness_circuit(), key, None).unwrap();
    let vk1 = setup.make_verification_key().unwrap();
    let vk2 = setup.make_verification_key().unwrap();
    assert_eq!(vk1.to_bytes().unwrap(), vk2.to_bytes().unwrap());
}

#[test]
fn test_prove() {
    let circuit = witness_circuit();
    let key = gen_key_monomial_form(10).unwrap();
    let setup =
        SetupForProver::prepare_setup_for_prover(circuit.clone(), key, None).unwrap();

    assert!(setup.validate_witness(circuit.clone()).is_ok());

    let _ = setup.get_srs_lagrange_form_from_monomial_form();

    let proof = setup.prove(circuit, "keccak").unwrap();
    let buf = proof.to_bytes().unwrap();
    let reread = ProofW4::from_bytes(&buf).unwrap();
    assert_eq!(buf, reread.to_bytes().unwrap());
}

#[test]
fn test_verify() {
    let circuit = witness_circuit();
    let key = gen_key_monomial_form(10).unwrap();
    let setup =
        SetupForProver::prepare_setup_for_prover(circuit.clone(), key, None).unwrap();
    let vk = setup.make_verification_key().unwrap();
    let proof = setup.prove(circuit, "keccak").unwrap();

    assert!(verify(&vk, &proof, "keccak").expect("fail to verify proof"));

    // a tampered proof must never verify
    let mut bytes = proof.to_bytes().unwrap();
    let last = bytes.len() - 1;
    bytes[last] ^= 1;
    match ProofW4::from_bytes(&bytes) {
        Ok(bad) => match verify(&vk, &bad, "keccak") {
            Ok(valid) => assert!(!valid),
            Err(_) => {}
        },
        Err(_) => {}
    }
}

#[test]
fn unknown_transcript_token_fails_immediately() {
    let circuit = witness_circuit();
    let key = gen_key_monomial_form(10).unwrap();
    let setup =
        SetupForProver::prepare_setup_for_prover(circuit.clone(), key, None).unwrap();
    assert!(matches!(
        setup.prove(circuit.clone(), "poseidon"),
        Err(PlonkError::UnsupportedVariant)
    ));
    let vk = setup.make_verification_key().unwrap();
    let proof = setup.prove(circuit, "keccak").unwrap();
    assert!(matches!(verify(&vk, &proof, "blake2"), Err(PlonkError::UnsupportedVariant)));
    assert!(matches!(verify(&vk, &proof, "rescue"), Err(PlonkError::RescueUnavailable)));
}

/// Like the multiplier, but the public output is pinned to a wrong value.
#[derive(Clone)]
struct BadWitnessCircuit;

impl Circuit<Bn256> for BadWitnessCircuit {
    fn synthesize<CS: ConstraintSystem<Bn256>>(self, cs: &mut CS) -> Result<(), SynthesisError> {
        let a = cs.alloc(|| "a", || Ok(Fr::from_str("3").unwrap()))?;
        let b = cs.alloc(|| "b", || Ok(Fr::from_str("4").unwrap()))?;
        let c = cs.alloc_input(|| "c", || Ok(Fr::from_str("13").unwrap()))?;
        cs.enforce(|| "a*b=c", |lc| lc + a, |lc| lc + b, |lc| lc + c);
        Ok(())
    }
}

#[test]
fn unsatisfied_witness_is_reported() {
    let key = gen_key_monomial_form(10).unwrap();
    let setup =
        SetupForProver::prepare_setup_for_prover(BadWitnessCircuit, key, None).unwrap();
    assert!(matches!(
        setup.validate_witness(BadWitnessCircuit),
        Err(PlonkError::Unsatisfied(_))
    ));
    assert!(matches!(
        setup.prove(BadWitnessCircuit, "keccak"),
        Err(PlonkError::Unsatisfied(_))
    ));
}

#[test]
fn fast_path_with_lagrange_key() {
    let circuit = witness_circuit();
    let key = gen_key_monomial_form(10).unwrap();
    let setup0 =
        SetupForProver::prepare_setup_for_prover(circuit.clone(), key, None).unwrap();
    let lagrange = setup0.get_srs_lagrange_form_from_monomial_form();

    let key2 = gen_key_monomial_form(10).unwrap();
    let setup =
        SetupForProver::prepare_setup_for_prover(circuit.clone(), key2, Some(lagrange)).unwrap();

    // the fast path supports only the keccak transcript
    assert!(matches!(
        setup.prove(circuit.clone(), "rescue"),
        Err(PlonkError::UnsupportedVariant)
    ));

    let vk = setup.make_verification_key().unwrap();
    let proof = setup.prove(circuit, "keccak").unwrap();
    assert!(verify(&vk, &proof, "keccak").unwrap());
}
