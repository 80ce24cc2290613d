//! Persisting a proof object and loading it back.

use crate::container::{
    body_parts, decode_body, decode_tag, encode_frame, frame, head_tag, le_bytes, le_value,
    lemma_frame_round_trip, lemma_frame_unique, lemma_le_bytes_len, lemma_le_low_byte,
    lemma_le_value_bound, lemma_pow256_values,
};
use crate::fixture::{exported, fixture_spec, FixtureView};
use crate::gzip::{gunzip, gunzip_of, gzip, gzip_of};
use crate::mode::{exposes_inputs, tag_of, Mode};
use vstd::prelude::*;

verus! {

/// A generated proof: its mode, the proof bytes (for the compressed mode the
/// serialized reduction proof, uncompressed) and the public-value buffer.
#[derive(Clone, Debug)]
pub struct ProofObject {
    pub mode: Mode,
    pub proof: Vec<u8>,
    pub public_values: Vec<u8>,
}

impl ProofObject {
    /// A succinct proof carries a non-empty public-input buffer.
    pub open spec fn wf(&self) -> bool {
        exposes_inputs(self.mode) ==> self.public_values@.len() > 0
    }

    /// Builds a proof object; `None` where a succinct proof has no public
    /// inputs.
    pub fn new(mode: Mode, proof: Vec<u8>, public_values: Vec<u8>) -> (r: Option<ProofObject>)
        ensures
            match r {
                Some(p) => p.mode == mode && p.proof@ == proof@ && p.public_values@
                    == public_values@ && p.wf(),
                None => exposes_inputs(mode) && public_values@.len() == 0,
            },
    {
        if mode.exposes_public_inputs() && public_values.len() == 0 {
            None
        } else {
            Some(ProofObject { mode, proof, public_values })
        }
    }
}

/// Why a persisted proof could not be loaded.
#[derive(Clone, Copy, Debug, PartialEq, Eq, Structural)]
pub enum LoadError {
    /// The gzip stream could not be read.
    Decompress,
    /// The container is truncated, or its lengths do not add up.
    Deserialize,
    /// The container was written for another mode.
    VariantMismatch { expected: Mode, found: u32 },
    /// A succinct proof without public inputs.
    MissingPublicInputs,
}

/// Why a proof object could not be persisted.
#[derive(Clone, Copy, Debug, PartialEq, Eq, Structural)]
pub enum PersistError {
    /// The gzip encoder failed.
    Compress,
    /// A succinct proof without public inputs.
    MissingPublicInputs,
}

/// What loading yields: the proof bytes and the public-value bytes.
pub type Loaded = Result<(Seq<u8>, Seq<u8>), LoadError>;

/// The load result that gives back exactly the parts of `p`.
pub open spec fn parts_of(p: ProofObject) -> Loaded {
    Ok((p.proof@, p.public_values@))
}

/// The uncompressed container of a proof object.
pub open spec fn container_of(p: ProofObject) -> Seq<u8> {
    frame(tag_of(p.mode), p.proof@, p.public_values@)
}

/// Whether bytes open with the gzip magic number.
pub open spec fn has_gzip_magic(b: Seq<u8>) -> bool {
    b.len() >= 2 && b[0] == 0x1f && b[1] == 0x8b
}

/// Whether a tag is that of a succinct mode.
pub open spec fn is_succinct_tag(t: u32) -> bool {
    t == tag_of(Mode::Plonk) || t == tag_of(Mode::Groth16)
}

/// The proof and public-value bytes that an uncompressed container yields
/// when read for `mode`.
pub open spec fn decoded(mode: Mode, raw: Seq<u8>) -> Loaded {
    match head_tag(raw) {
        None => Err(LoadError::Deserialize),
        Some(t) => if t != tag_of(mode) {
            Err(LoadError::VariantMismatch { expected: mode, found: t })
        } else {
            match body_parts(raw) {
                None => Err(LoadError::Deserialize),
                Some((p, v)) => if exposes_inputs(mode) && v.len() == 0 {
                    Err(LoadError::MissingPublicInputs)
                } else {
                    Ok((p, v))
                },
            }
        },
    }
}

/// What loading persisted bytes under `mode` yields. The compressed mode
/// expects a gzip stream; bytes without the gzip header that hold a
/// succinct container were written for another mode.
pub open spec fn loaded(mode: Mode, b: Seq<u8>) -> Loaded {
    if mode == Mode::Compressed {
        if has_gzip_magic(b) {
            match gunzip_of(b) {
                None => Err(LoadError::Decompress),
                Some(raw) => decoded(mode, raw),
            }
        } else {
            match head_tag(b) {
                Some(t) => if is_succinct_tag(t) {
                    Err(LoadError::VariantMismatch { expected: mode, found: t })
                } else {
                    Err(LoadError::Decompress)
                },
                None => Err(LoadError::Decompress),
            }
        }
    } else {
        decoded(mode, b)
    }
}

/// Whether a load result is the variant-mismatch error for `mode`.
pub open spec fn is_mismatch_for(r: Loaded, mode: Mode) -> bool {
    match r {
        Err(LoadError::VariantMismatch { expected, .. }) => expected == mode,
        _ => false,
    }
}

proof fn lemma_tag_is_not(b: Seq<u8>, m: Mode)
    requires
        b.len() >= 4,
        b[0] != tag_of(m),
    ensures
        head_tag(b) matches Some(t) && t != tag_of(m),
{
    let s = b.subrange(0, 4);
    lemma_le_value_bound(s);
    lemma_pow256_values();
    if le_value(s) == tag_of(m) as nat {
        lemma_le_low_byte(s, tag_of(m) as nat);
    }
}

proof fn lemma_decoded_is_exact(mode: Mode, raw: Seq<u8>)
    ensures
        decoded(mode, raw) matches Ok((p, v)) ==> raw == frame(tag_of(mode), p, v),
{
    if decoded(mode, raw) is Ok {
        lemma_frame_unique(raw);
    }
}

proof fn lemma_loaded_is_exact(mode: Mode, b: Seq<u8>)
    ensures
        mode != Mode::Compressed ==> (loaded(mode, b) matches Ok((p, v)) ==> b == frame(
            tag_of(mode),
            p,
            v,
        )),
        mode == Mode::Compressed ==> (loaded(mode, b) matches Ok((p, v)) ==> gunzip_of(b) == Some(
            frame(tag_of(mode), p, v),
        )),
{
    if mode == Mode::Compressed {
        if has_gzip_magic(b) {
            if let Some(raw) = gunzip_of(b) {
                lemma_decoded_is_exact(mode, raw);
            }
        }
    } else {
        lemma_decoded_is_exact(mode, b);
    }
}

fn decode_container(mode: Mode, raw: &Vec<u8>) -> (r: Result<ProofObject, LoadError>)
    ensures
        match r {
            Ok(p) => decoded(mode, raw@) == parts_of(p) && p.mode == mode
                && p.wf(),
            Err(e) => decoded(mode, raw@) == Loaded::Err(e),
        },
{
    match decode_tag(raw) {
        None => Err(LoadError::Deserialize),
        Some(t) => {
            if t != mode.tag() {
                Err(LoadError::VariantMismatch { expected: mode, found: t })
            } else {
                match decode_body(raw) {
                    None => Err(LoadError::Deserialize),
                    Some((proof, public_values)) => {
                        if mode.exposes_public_inputs() && public_values.len() == 0 {
                            Err(LoadError::MissingPublicInputs)
                        } else {
                            Ok(ProofObject { mode, proof, public_values })
                        }
                    },
                }
            }
        },
    }
}

/// Loads a proof object from its persisted bytes under `mode`.
pub fn load(mode: Mode, bytes: &Vec<u8>) -> (r: Result<ProofObject, LoadError>)
    ensures
        match r {
            Ok(p) => loaded(mode, bytes@) == parts_of(p) && p.mode == mode
                && p.wf(),
            Err(e) => loaded(mode, bytes@) == Loaded::Err(e),
        },
        mode != Mode::Compressed ==> (r matches Ok(p) ==> bytes@ == container_of(p)),
        mode == Mode::Compressed ==> (r matches Ok(p) ==> gunzip_of(bytes@) == Some(
            container_of(p),
        )),
{
    proof {
        lemma_loaded_is_exact(mode, bytes@);
    }
    if mode.is_compressed() {
        if bytes.len() >= 2 && bytes[0] == 0x1f && bytes[1] == 0x8b {
            match gunzip(bytes) {
                None => Err(LoadError::Decompress),
                Some(raw) => decode_container(mode, &raw),
            }
        } else {
            match decode_tag(bytes) {
                Some(t) => {
                    if t == Mode::Plonk.tag() || t == Mode::Groth16.tag() {
                        Err(LoadError::VariantMismatch { expected: mode, found: t })
                    } else {
                        Err(LoadError::Decompress)
                    }
                },
                None => Err(LoadError::Decompress),
            }
        }
    } else {
        decode_container(mode, bytes)
    }
}

/// Persists a proof object: the container as it stands for a succinct mode,
/// gzip-compressed for the compressed mode. What is persisted loads back
/// under its own mode as the same proof, and under any other mode as a
/// variant mismatch; its fixture is the one of the proof object itself.
pub fn persist(p: &ProofObject) -> (r: Result<Vec<u8>, PersistError>)
    ensures
        !p.wf() ==> r == Err::<Vec<u8>, PersistError>(PersistError::MissingPublicInputs),
        p.wf() && p.mode != Mode::Compressed ==> (r matches Ok(b) && b@ == container_of(*p)),
        p.wf() && p.mode == Mode::Compressed ==> match r {
            Ok(b) => b@ == gzip_of(container_of(*p)),
            Err(e) => e == PersistError::Compress,
        },
        r matches Ok(b) ==> loaded(p.mode, b@) == parts_of(*p),
        r matches Ok(b) ==> forall|m: Mode| m != p.mode ==> is_mismatch_for(#[trigger] loaded(m, b@), m),
        r matches Ok(b) ==> forall|kb: Seq<char>, kd: Seq<u8>| #[trigger] exported(p.mode, b@, kb, kd)
            == Ok::<FixtureView, LoadError>(
            fixture_spec(p.mode, p.proof@, p.public_values@, kb, kd),
        ),
{
    if p.mode.exposes_public_inputs() && p.public_values.len() == 0 {
        return Err(PersistError::MissingPublicInputs);
    }
    let raw = encode_frame(p.mode.tag(), &p.proof, &p.public_values);
    let proof_len = p.proof.len();
    let inputs_len = p.public_values.len();
    proof {
        assert(proof_len <= u64::MAX && inputs_len <= u64::MAX);
        lemma_frame_round_trip(tag_of(p.mode), p.proof@, p.public_values@);
        lemma_le_bytes_len(tag_of(p.mode) as nat, 4);
    }
    if p.mode.is_compressed() {
        match gzip(&raw) {
            None => Err(PersistError::Compress),
            Some(z) => {
                proof {
                    assert forall|m: Mode| m != p.mode implies is_mismatch_for(
                        #[trigger] loaded(m, z@),
                        m,
                    ) by {
                        lemma_tag_is_not(z@, m);
                    }
                }
                Ok(z)
            },
        }
    } else {
        proof {
            assert(raw@[0] == tag_of(p.mode)) by {
                assert(raw@[0] == le_bytes(tag_of(p.mode) as nat, 4)[0]);
            }
            assert forall|m: Mode| m != p.mode implies is_mismatch_for(#[trigger] loaded(m, raw@), m) by {
                lemma_tag_is_not(raw@, m);
            }
        }
        Ok(raw)
    }
}

} // verus!
