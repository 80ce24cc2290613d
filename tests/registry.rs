use sp1_fixtures::Mode;

#[test]
fn mode_tags() {
    assert_eq!(Mode::Plonk.as_str(), "plonk");
    assert_eq!(Mode::Groth16.as_str(), "groth16");
    assert_eq!(Mode::Compressed.as_str(), "compressed");
    assert_eq!(Mode::Groth16.to_string(), "groth16".to_string());
}

#[test]
fn mode_names_read_back() {
    assert_eq!(Mode::from_name("plonk"), Some(Mode::Plonk));
    assert_eq!(Mode::from_name("groth16"), Some(Mode::Groth16));
    assert_eq!(Mode::from_name("compressed"), Some(Mode::Compressed));
    assert_eq!(Mode::from_name("Plonk"), None);
    assert_eq!(Mode::from_name(""), None);
}

#[test]
fn witness_inputs_per_mode() {
    assert_eq!(Mode::Groth16.witness_input(), 1000);
    assert_eq!(Mode::Plonk.witness_input(), 1000);
    assert_eq!(Mode::Compressed.witness_input(), 1666667);
}

#[test]
fn public_inputs_and_compression_per_mode() {
    assert!(Mode::Plonk.exposes_public_inputs());
    assert!(Mode::Groth16.exposes_public_inputs());
    assert!(!Mode::Compressed.exposes_public_inputs());
    assert!(Mode::Compressed.is_compressed());
    assert!(!Mode::Plonk.is_compressed());
}

#[test]
fn file_names_per_mode() {
    assert_eq!(Mode::Plonk.proof_file_name(), "fibonacci_plonk_proof.bin");
    assert_eq!(Mode::Compressed.fixture_file_name(), "fibonacci_compressed_proof.json");
    assert_eq!(Mode::Groth16.proof_file_name(), "fibonacci_groth16_proof.bin");
}
