use sp1_fixtures::{
    lenient, verify_artifact, verify_compressed, verify_groth16, verify_plonk, Artifact, Error,
    Mode, Policy, ProgramId,
};

const KEY: &str = "0x00aa00aa00aa00aa00aa00aa00aa00aa00aa00aa00aa00aa00aa00aa00aa00aa";

#[test]
fn short_groth16_proof_is_rejected() {
    let proof = vec![7u8; 40];
    assert!(verify_groth16(&proof, &[1, 2], KEY).is_err());
    assert!(!lenient::verify_groth16(&proof, &[1, 2], KEY));
}

#[test]
fn tampered_plonk_proof_is_rejected() {
    let mut proof = vec![0u8; 400];
    proof[5] ^= 1;
    assert!(verify_plonk(&proof, &[1, 2], KEY).is_err());
    assert!(!lenient::verify_plonk(&proof, &[1, 2], KEY));
}

#[test]
fn garbage_compressed_proof_is_rejected() {
    assert!(verify_compressed(&[1, 2, 3], &[], &[4, 5, 6]).is_err());
    assert!(!lenient::verify_compressed(&[1, 2, 3], &[9], &[4, 5, 6]));
}

#[test]
fn key_text_that_cannot_be_cut_is_false() {
    assert!(!lenient::verify_groth16(&[0u8; 300], &[], "\u{e9}0000"));
}

#[test]
fn policy_decides_how_rejection_surfaces() {
    let a = Artifact {
        mode: Mode::Groth16,
        proof: vec![1, 2, 3],
        public_inputs: vec![4],
        program: ProgramId::Text(KEY.to_string()),
    };
    assert!(matches!(verify_artifact(&a, Policy::Collapse), Ok(false)));
    assert!(matches!(verify_artifact(&a, Policy::Structured), Err(Error::Groth16(_))));
}

#[test]
fn program_named_for_another_mode_is_rejected() {
    let a = Artifact {
        mode: Mode::Compressed,
        proof: vec![1, 2, 3],
        public_inputs: vec![],
        program: ProgramId::Text(KEY.to_string()),
    };
    assert!(matches!(verify_artifact(&a, Policy::Structured), Err(Error::ProgramKind)));
    assert!(matches!(verify_artifact(&a, Policy::Collapse), Ok(false)));
}

#[test]
fn key_text_error_under_structured_policy() {
    let a = Artifact {
        mode: Mode::Plonk,
        proof: vec![0u8; 300],
        public_inputs: vec![1],
        program: ProgramId::Text("\u{e9}\u{e9}00".to_string()),
    };
    assert!(matches!(verify_artifact(&a, Policy::Structured), Err(Error::KeyText)));
    assert!(matches!(verify_artifact(&a, Policy::Collapse), Ok(false)));
}
