use sp1_fixtures::{
    export, fixture_of, load, persist, read_fixture, FixtureError, LoadError, Mode, PersistError,
    ProgramId, ProgramKey, ProofFixture, ProofObject,
};

fn key() -> ProgramKey {
    ProgramKey { bytes32: "0x00abcdef".to_string(), digest: vec![1, 2, 3, 4] }
}

fn sample(mode: Mode) -> ProofObject {
    ProofObject::new(mode, vec![0x10, 0x20, 0x30, 0x40, 0x50], vec![0xe8, 0x03, 0, 0]).unwrap()
}

#[test]
fn succinct_proof_needs_public_inputs() {
    assert!(ProofObject::new(Mode::Plonk, vec![1], vec![]).is_none());
    assert!(ProofObject::new(Mode::Compressed, vec![1], vec![]).is_some());
    let bad = ProofObject { mode: Mode::Groth16, proof: vec![1], public_values: vec![] };
    assert_eq!(persist(&bad), Err(PersistError::MissingPublicInputs));
}

#[test]
fn persist_then_load_gives_the_proof_back() {
    for mode in [Mode::Plonk, Mode::Groth16, Mode::Compressed] {
        let p = sample(mode);
        let bytes = persist(&p).unwrap();
        let q = load(mode, &bytes).unwrap();
        assert_eq!(q.mode, mode);
        assert_eq!(q.proof, p.proof);
        assert_eq!(q.public_values, p.public_values);
    }
}

#[test]
fn compressed_file_is_gzip() {
    let bytes = persist(&sample(Mode::Compressed)).unwrap();
    assert_eq!(bytes[0], 0x1f);
    assert_eq!(bytes[1], 0x8b);
    let plain = persist(&sample(Mode::Plonk)).unwrap();
    assert_eq!(plain[0], 2);
}

#[test]
fn reexported_fixture_is_identical() {
    for mode in [Mode::Plonk, Mode::Groth16, Mode::Compressed] {
        let p = sample(mode);
        let before = fixture_of(&p, &key());
        let bytes = persist(&p).unwrap();
        let after = export(mode, &bytes, &key()).unwrap();
        assert_eq!(before.proof, after.proof);
        assert_eq!(before.public_inputs, after.public_inputs);
        assert_eq!(before.vkey_hash, after.vkey_hash);
        assert_eq!(before.mode, after.mode);
    }
}

#[test]
fn fixture_shape_per_mode() {
    let c = export(Mode::Compressed, &persist(&sample(Mode::Compressed)).unwrap(), &key()).unwrap();
    assert_eq!(c.public_inputs, None);
    assert_eq!(c.vkey_hash, "01020304".to_string());
    assert_eq!(c.mode, "compressed".to_string());
    assert_eq!(c.proof, "1020304050".to_string());
    let g = export(Mode::Groth16, &persist(&sample(Mode::Groth16)).unwrap(), &key()).unwrap();
    assert_eq!(g.public_inputs, Some("e8030000".to_string()));
    assert_eq!(g.vkey_hash, "0x00abcdef".to_string());
    assert_eq!(g.mode, "groth16".to_string());
}

#[test]
fn cross_mode_load_is_a_variant_mismatch() {
    let c = persist(&sample(Mode::Compressed)).unwrap();
    assert!(matches!(
        load(Mode::Plonk, &c),
        Err(LoadError::VariantMismatch { expected: Mode::Plonk, .. })
    ));
    let p = persist(&sample(Mode::Plonk)).unwrap();
    assert_eq!(
        load(Mode::Compressed, &p).unwrap_err(),
        LoadError::VariantMismatch { expected: Mode::Compressed, found: 2 }
    );
    assert_eq!(
        load(Mode::Groth16, &p).unwrap_err(),
        LoadError::VariantMismatch { expected: Mode::Groth16, found: 2 }
    );
}

#[test]
fn corrupted_plonk_file_fails_to_decode() {
    let mut bytes = persist(&sample(Mode::Plonk)).unwrap();
    bytes[11] ^= 0xff;
    assert_eq!(load(Mode::Plonk, &bytes).unwrap_err(), LoadError::Deserialize);
}

#[test]
fn corrupted_compressed_file_fails_to_decompress() {
    let mut bytes = persist(&sample(Mode::Compressed)).unwrap();
    let last = bytes.len() - 1;
    bytes[last] ^= 0xff;
    assert_eq!(load(Mode::Compressed, &bytes).unwrap_err(), LoadError::Decompress);
    assert_eq!(load(Mode::Compressed, &vec![]).unwrap_err(), LoadError::Decompress);
}

#[test]
fn empty_file_fails_to_decode() {
    assert_eq!(load(Mode::Plonk, &vec![]).unwrap_err(), LoadError::Deserialize);
}

#[test]
fn fixture_reads_back_to_bytes() {
    let g = fixture_of(&sample(Mode::Groth16), &key());
    let a = read_fixture(&g).unwrap();
    assert_eq!(a.mode, Mode::Groth16);
    assert_eq!(a.proof, vec![0x10, 0x20, 0x30, 0x40, 0x50]);
    assert_eq!(a.public_inputs, vec![0xe8, 0x03, 0, 0]);
    assert!(matches!(a.program, ProgramId::Text(ref s) if s == "0x00abcdef"));
    let c = fixture_of(&sample(Mode::Compressed), &key());
    let b = read_fixture(&c).unwrap();
    assert_eq!(b.public_inputs, Vec::<u8>::new());
    assert!(matches!(b.program, ProgramId::Digest(ref d) if d == &vec![1, 2, 3, 4]));
}

#[test]
fn malformed_fixtures_are_refused() {
    let base = fixture_of(&sample(Mode::Plonk), &key());
    let mut f: ProofFixture = base.clone();
    f.mode = "snark".to_string();
    assert_eq!(read_fixture(&f).unwrap_err(), FixtureError::UnknownMode);
    let mut f = base.clone();
    f.proof = "xyz".to_string();
    assert_eq!(read_fixture(&f).unwrap_err(), FixtureError::ProofHex);
    let mut f = base.clone();
    f.public_inputs = Some("0".to_string());
    assert_eq!(read_fixture(&f).unwrap_err(), FixtureError::InputsHex);
    let mut f = base.clone();
    f.public_inputs = None;
    assert_eq!(read_fixture(&f).unwrap_err(), FixtureError::MissingPublicInputs);
    let mut c = fixture_of(&sample(Mode::Compressed), &key());
    c.vkey_hash = "0x12".to_string();
    assert_eq!(read_fixture(&c).unwrap_err(), FixtureError::KeyHex);
}

#[test]
fn plonk_fixture_carries_public_inputs() {
    let f = export(Mode::Plonk, &persist(&sample(Mode::Plonk)).unwrap(), &key()).unwrap();
    assert_eq!(f.public_inputs, Some("e8030000".to_string()));
    assert_eq!(f.mode, "plonk".to_string());
    let again = export(Mode::Plonk, &persist(&sample(Mode::Plonk)).unwrap(), &key()).unwrap();
    assert_eq!(f.proof, again.proof);
    assert_eq!(f.public_inputs, again.public_inputs);
}
