//! The portable, hex-encoded fixture of a persisted proof.

use crate::codec::{load, loaded, LoadError, ProofObject};
use crate::hexcode::{decode_hex, encode_hex, hex_of, lemma_hex_round_trip, unhex};
use crate::mode::{exposes_inputs, mode_name, Mode};
use vstd::prelude::*;

verus! {

/// The identity of the proven program as the prover's setup reports it: the
/// key digest as text for the succinct modes, and the serialized digest over
/// the compressed proof's field for the compressed mode.
#[derive(Clone, Debug)]
pub struct ProgramKey {
    pub bytes32: String,
    pub digest: Vec<u8>,
}

/// A fixture: hex proof bytes, hex public inputs (absent for the compressed
/// mode), the program's key hash, and the mode tag.
#[derive(Clone, Debug)]
pub struct ProofFixture {
    pub proof: String,
    pub public_inputs: Option<String>,
    pub vkey_hash: String,
    pub mode: String,
}

/// The text content of a fixture.
pub struct FixtureView {
    pub proof: Seq<char>,
    pub public_inputs: Option<Seq<char>>,
    pub vkey_hash: Seq<char>,
    pub mode: Seq<char>,
}

impl View for ProofFixture {
    type V = FixtureView;

    open spec fn view(&self) -> FixtureView {
        FixtureView {
            proof: self.proof@,
            public_inputs: match self.public_inputs {
                Some(s) => Some(s@),
                None => None,
            },
            vkey_hash: self.vkey_hash@,
            mode: self.mode@,
        }
    }
}

/// The fixture of a proof with these parts under this program key.
pub open spec fn fixture_spec(
    mode: Mode,
    proof: Seq<u8>,
    inputs: Seq<u8>,
    bytes32: Seq<char>,
    digest: Seq<u8>,
) -> FixtureView {
    FixtureView {
        proof: hex_of(proof),
        public_inputs: if exposes_inputs(mode) {
            Some(hex_of(inputs))
        } else {
            None
        },
        vkey_hash: if exposes_inputs(mode) {
            bytes32
        } else {
            hex_of(digest)
        },
        mode: mode_name(mode),
    }
}

/// What exporting persisted bytes under `mode` yields.
pub open spec fn exported(mode: Mode, bytes: Seq<u8>, bytes32: Seq<char>, digest: Seq<u8>) -> Result<
    FixtureView,
    LoadError,
> {
    match loaded(mode, bytes) {
        Ok((p, v)) => Ok(fixture_spec(mode, p, v, bytes32, digest)),
        Err(e) => Err(e),
    }
}

/// The shape a fixture of a well-formed proof has: public inputs present and
/// non-empty exactly when the mode is not the compressed one.
pub open spec fn shaped_for(f: FixtureView, mode: Mode) -> bool {
    match f.public_inputs {
        Some(s) => mode != Mode::Compressed && s.len() > 0,
        None => mode == Mode::Compressed,
    }
}

/// The fixture of an in-memory proof object.
pub fn fixture_of(p: &ProofObject, key: &ProgramKey) -> (r: ProofFixture)
    ensures
        r@ == fixture_spec(p.mode, p.proof@, p.public_values@, key.bytes32@, key.digest@),
        p.wf() ==> shaped_for(r@, p.mode),
{
    let proof = encode_hex(&p.proof);
    let public_inputs = if p.mode.exposes_public_inputs() {
        Some(encode_hex(&p.public_values))
    } else {
        None
    };
    let vkey_hash = if p.mode.exposes_public_inputs() {
        key.bytes32.clone()
    } else {
        encode_hex(&key.digest)
    };
    ProofFixture { proof, public_inputs, vkey_hash, mode: p.mode.to_string() }
}

/// Loads persisted bytes under `mode` and exports their fixture.
pub fn export(mode: Mode, bytes: &Vec<u8>, key: &ProgramKey) -> (r: Result<ProofFixture, LoadError>)
    ensures
        match r {
            Ok(f) => exported(mode, bytes@, key.bytes32@, key.digest@) == Ok::<
                FixtureView,
                LoadError,
            >(f@) && shaped_for(f@, mode),
            Err(e) => exported(mode, bytes@, key.bytes32@, key.digest@) == Err::<
                FixtureView,
                LoadError,
            >(e),
        },
{
    match load(mode, bytes) {
        Ok(p) => Ok(fixture_of(&p, key)),
        Err(e) => Err(e),
    }
}

/// Why a fixture could not be read back into bytes.
#[derive(Clone, Copy, Debug, PartialEq, Eq, Structural)]
pub enum FixtureError {
    /// The mode tag is none of the three.
    UnknownMode,
    /// The proof field is not hex.
    ProofHex,
    /// The public-input field is not hex.
    InputsHex,
    /// The key hash of a compressed fixture is not hex.
    KeyHex,
    /// A succinct fixture without public inputs.
    MissingPublicInputs,
}

/// How a verifier names the proven program.
#[derive(Clone, Debug)]
pub enum ProgramId {
    /// The key digest as text, for the succinct modes.
    Text(String),
    /// The serialized key digest, for the compressed mode.
    Digest(Vec<u8>),
}

/// The byte form of a fixture, as the verifiers take it.
#[derive(Clone, Debug)]
pub struct Artifact {
    pub mode: Mode,
    pub proof: Vec<u8>,
    pub public_inputs: Vec<u8>,
    pub program: ProgramId,
}

/// The artifact a fixture's text reads back as.
pub open spec fn artifact_spec(f: FixtureView) -> Result<
    (Mode, Seq<u8>, Seq<u8>, Result<Seq<char>, Seq<u8>>),
    FixtureError,
> {
    if !(exists|m: Mode| mode_name(m) == f.mode) {
        Err(FixtureError::UnknownMode)
    } else {
        let m = choose|m: Mode| mode_name(m) == f.mode;
        match unhex(f.proof) {
            None => Err(FixtureError::ProofHex),
            Some(proof) => {
                let inputs: Result<Seq<u8>, FixtureError> = match f.public_inputs {
                    Some(s) => match unhex(s) {
                        Some(v) => Ok(v),
                        None => Err(FixtureError::InputsHex),
                    },
                    None => if exposes_inputs(m) {
                        Err(FixtureError::MissingPublicInputs)
                    } else {
                        Ok(Seq::empty())
                    },
                };
                match inputs {
                    Err(e) => Err(e),
                    Ok(v) => if exposes_inputs(m) {
                        Ok((m, proof, v, Ok(f.vkey_hash)))
                    } else {
                        match unhex(f.vkey_hash) {
                            None => Err(FixtureError::KeyHex),
                            Some(d) => Ok((m, proof, v, Err(d))),
                        }
                    },
                }
            },
        }
    }
}

/// The plain view of an artifact.
pub open spec fn artifact_view(a: Artifact) -> (Mode, Seq<u8>, Seq<u8>, Result<Seq<char>, Seq<u8>>) {
    (
        a.mode,
        a.proof@,
        a.public_inputs@,
        match a.program {
            ProgramId::Text(s) => Ok(s@),
            ProgramId::Digest(d) => Err(d@),
        },
    )
}

proof fn lemma_mode_names_distinct(a: Mode, b: Mode)
    requires
        mode_name(a) == mode_name(b),
    ensures
        a == b,
{
    reveal_strlit("plonk");
    reveal_strlit("groth16");
    reveal_strlit("compressed");
    assert("plonk"@.len() == 5);
    assert("groth16"@.len() == 7);
    assert("compressed"@.len() == 10);
    assert(mode_name(a).len() == mode_name(b).len());
}

/// Reads a fixture's text back into the bytes that the verifiers take.
pub fn read_fixture(f: &ProofFixture) -> (r: Result<Artifact, FixtureError>)
    ensures
        match r {
            Ok(a) => artifact_spec(f@) == Ok::<_, FixtureError>(artifact_view(a)),
            Err(e) => artifact_spec(f@) == Err::<
                (Mode, Seq<u8>, Seq<u8>, Result<Seq<char>, Seq<u8>>),
                FixtureError,
            >(e),
        },
{
    let mode = match Mode::from_name(f.mode.as_str()) {
        None => return Err(FixtureError::UnknownMode),
        Some(m) => m,
    };
    proof {
        let c = choose|m: Mode| mode_name(m) == f@.mode;
        lemma_mode_names_distinct(c, mode);
    }
    let proof = match decode_hex(f.proof.as_str()) {
        None => return Err(FixtureError::ProofHex),
        Some(v) => v,
    };
    let public_inputs = match &f.public_inputs {
        Some(s) => match decode_hex(s.as_str()) {
            None => return Err(FixtureError::InputsHex),
            Some(v) => v,
        },
        None => {
            if mode.exposes_public_inputs() {
                return Err(FixtureError::MissingPublicInputs);
            }
            Vec::new()
        },
    };
    if mode.exposes_public_inputs() {
        Ok(Artifact { mode, proof, public_inputs, program: ProgramId::Text(f.vkey_hash.clone()) })
    } else {
        match decode_hex(f.vkey_hash.as_str()) {
            None => Err(FixtureError::KeyHex),
            Some(d) => Ok(Artifact { mode, proof, public_inputs, program: ProgramId::Digest(d) }),
        }
    }
}

/// A fixture reads back as the bytes it was written from: the proof, the
/// public inputs of a succinct proof (none for a compressed one), and the
/// program key.
pub proof fn lemma_fixture_round_trip(
    mode: Mode,
    proof: Seq<u8>,
    inputs: Seq<u8>,
    bytes32: Seq<char>,
    digest: Seq<u8>,
)
    ensures
        artifact_spec(fixture_spec(mode, proof, inputs, bytes32, digest)) == Ok::<
            (Mode, Seq<u8>, Seq<u8>, Result<Seq<char>, Seq<u8>>),
            FixtureError,
        >(
            if exposes_inputs(mode) {
                (mode, proof, inputs, Ok(bytes32))
            } else {
                (mode, proof, Seq::empty(), Err(digest))
            },
        ),
{
    let f = fixture_spec(mode, proof, inputs, bytes32, digest);
    lemma_hex_round_trip(proof);
    lemma_hex_round_trip(inputs);
    lemma_hex_round_trip(digest);
    assert(mode_name(mode) == f.mode);
    let c = choose|m: Mode| mode_name(m) == f.mode;
    lemma_mode_names_distinct(c, mode);
}

} // verus!
