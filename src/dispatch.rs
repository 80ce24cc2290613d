//! The verification dispatcher: each mode's proof goes to its verifier in
//! `sp1_verifier`, with the embedded key of the Groth16 and Plonk systems.

use crate::fixture::{Artifact, ProgramId};
use crate::mode::Mode;
use sp1_verifier::compressed::{CompressedError, SP1CompressedVerifierRaw};
use sp1_verifier::{
    Groth16Error, Groth16Verifier, PlonkError, PlonkVerifier, GROTH16_VK_BYTES, PLONK_VK_BYTES,
};
use vstd::prelude::*;

verus! {

#[verifier::external_type_specification]
#[verifier::external_body]
pub struct ExGroth16Error(Groth16Error);

#[verifier::external_type_specification]
#[verifier::external_body]
pub struct ExPlonkError(PlonkError);

#[verifier::external_type_specification]
#[verifier::external_body]
pub struct ExCompressedError(CompressedError);

/// Whether the Groth16 verifier accepts the proof for these inputs and
/// program key hash.
pub uninterp spec fn groth16_accepts(proof: Seq<u8>, inputs: Seq<u8>, vkey_hash: Seq<char>) -> bool;

/// Whether the Plonk verifier accepts the proof for these inputs and program
/// key hash.
pub uninterp spec fn plonk_accepts(proof: Seq<u8>, inputs: Seq<u8>, vkey_hash: Seq<char>) -> bool;

/// Whether the compressed verifier accepts the proof for these public values
/// and program key digest.
pub uninterp spec fn compressed_accepts(proof: Seq<u8>, inputs: Seq<u8>, vkey: Seq<u8>) -> bool;

/// Whether the compressed verifier accepts the proof for this program key
/// digest, whatever public values it commits to.
pub uninterp spec fn compressed_accepts_any(proof: Seq<u8>, vkey: Seq<u8>) -> bool;

/// The succinct verifiers cut the key hash after its two-character prefix;
/// that cut falls between characters when the first two are ASCII.
pub open spec fn key_text_ok(s: Seq<char>) -> bool {
    (s.len() >= 1 ==> (s[0] as u32) < 128) && (s.len() >= 2 ==> (s[1] as u32) < 128)
}

/// Relies on sp1_verifier::Groth16Verifier::verify with the embedded
/// GROTH16_VK_BYTES key: the outcome depends on the arguments alone, and a
/// proof under 100 bytes is rejected before anything else is read.
#[verifier::external_body]
fn groth16_check(proof: &[u8], inputs: &[u8], vkey_hash: &str) -> (r: Result<(), Groth16Error>)
    requires
        key_text_ok(vkey_hash@),
    ensures
        r is Ok == groth16_accepts(proof@, inputs@, vkey_hash@),
        proof@.len() < 100 ==> r is Err,
{
    Groth16Verifier::verify(proof, inputs, vkey_hash, *GROTH16_VK_BYTES)
}

/// Relies on sp1_verifier::PlonkVerifier::verify with the embedded
/// PLONK_VK_BYTES key: the outcome depends on the arguments alone, and a
/// proof under 100 bytes is rejected before anything else is read.
#[verifier::external_body]
fn plonk_check(proof: &[u8], inputs: &[u8], vkey_hash: &str) -> (r: Result<(), PlonkError>)
    requires
        key_text_ok(vkey_hash@),
    ensures
        r is Ok == plonk_accepts(proof@, inputs@, vkey_hash@),
        proof@.len() < 100 ==> r is Err,
{
    PlonkVerifier::verify(proof, inputs, vkey_hash, *PLONK_VK_BYTES)
}

/// Relies on sp1_verifier::compressed::SP1CompressedVerifierRaw::
/// verify_with_public_values: the outcome depends on the arguments alone.
#[verifier::external_body]
fn compressed_check(proof: &[u8], inputs: &[u8], vkey: &[u8]) -> (r: Result<(), CompressedError>)
    ensures
        r is Ok == compressed_accepts(proof@, inputs@, vkey@),
{
    SP1CompressedVerifierRaw::verify_with_public_values(proof, inputs, vkey)
}

/// Relies on sp1_verifier::compressed::SP1CompressedVerifierRaw::verify: the
/// outcome depends on the arguments alone.
#[verifier::external_body]
fn compressed_check_any(proof: &[u8], vkey: &[u8]) -> (r: Result<(), CompressedError>)
    ensures
        r is Ok == compressed_accepts_any(proof@, vkey@),
{
    SP1CompressedVerifierRaw::verify(proof, vkey)
}

/// Whether the compressed verifier accepts: without public values it checks
/// the proof and key alone.
pub open spec fn compressed_verdict(proof: Seq<u8>, inputs: Seq<u8>, vkey: Seq<u8>) -> bool {
    if inputs.len() == 0 {
        compressed_accepts_any(proof, vkey)
    } else {
        compressed_accepts(proof, inputs, vkey)
    }
}

/// Verifies a Groth16 proof against the embedded Groth16 key. `Ok(true)`
/// exactly when the verifier accepts; its rejection otherwise.
pub fn verify_groth16(proof: &[u8], public_inputs: &[u8], sp1_vk_hash: &str) -> (r: Result<
    bool,
    Groth16Error,
>)
    requires
        key_text_ok(sp1_vk_hash@),
    ensures
        r is Ok == groth16_accepts(proof@, public_inputs@, sp1_vk_hash@),
        r matches Ok(b) ==> b,
        proof@.len() < 100 ==> r is Err,
{
    match groth16_check(proof, public_inputs, sp1_vk_hash) {
        Ok(()) => Ok(true),
        Err(e) => Err(e),
    }
}

/// Verifies a Plonk proof against the embedded Plonk key. `Ok(true)` exactly
/// when the verifier accepts; its rejection otherwise.
pub fn verify_plonk(proof: &[u8], public_inputs: &[u8], sp1_vk_hash: &str) -> (r: Result<
    bool,
    PlonkError,
>)
    requires
        key_text_ok(sp1_vk_hash@),
    ensures
        r is Ok == plonk_accepts(proof@, public_inputs@, sp1_vk_hash@),
        r matches Ok(b) ==> b,
        proof@.len() < 100 ==> r is Err,
{
    match plonk_check(proof, public_inputs, sp1_vk_hash) {
        Ok(()) => Ok(true),
        Err(e) => Err(e),
    }
}

/// Verifies a compressed proof against the program key digest; empty public
/// inputs leave the committed public values unchecked. `Ok(true)` exactly
/// when the verifier accepts; its rejection otherwise.
pub fn verify_compressed(proof: &[u8], public_inputs: &[u8], sp1_vk_hash: &[u8]) -> (r: Result<
    bool,
    CompressedError,
>)
    ensures
        r is Ok == compressed_verdict(proof@, public_inputs@, sp1_vk_hash@),
        r matches Ok(b) ==> b,
{
    let res = if public_inputs.len() == 0 {
        compressed_check_any(proof, sp1_vk_hash)
    } else {
        compressed_check(proof, public_inputs, sp1_vk_hash)
    };
    match res {
        Ok(()) => Ok(true),
        Err(e) => Err(e),
    }
}

/// A rejection, by the verifier of the mode, or before any verifier ran.
#[derive(Debug)]
pub enum Error {
    Groth16(Groth16Error),
    Plonk(PlonkError),
    Compressed(CompressedError),
    /// The program is named the way another mode names it.
    ProgramKind,
    /// The key hash text cannot be cut after its two-character prefix.
    KeyText,
}

/// How rejections reach the caller: as the structured error, or collapsed to
/// `false` for callers that cannot take an error.
#[derive(Clone, Copy, Debug, PartialEq, Eq, Structural)]
pub enum Policy {
    Structured,
    Collapse,
}

/// Whether the verifier of an artifact's mode accepts it.
pub open spec fn accepts(a: Artifact) -> bool {
    match a.mode {
        Mode::Groth16 => match a.program {
            ProgramId::Text(s) => key_text_ok(s@) && groth16_accepts(a.proof@, a.public_inputs@, s@),
            ProgramId::Digest(_) => false,
        },
        Mode::Plonk => match a.program {
            ProgramId::Text(s) => key_text_ok(s@) && plonk_accepts(a.proof@, a.public_inputs@, s@),
            ProgramId::Digest(_) => false,
        },
        Mode::Compressed => match a.program {
            ProgramId::Text(_) => false,
            ProgramId::Digest(d) => compressed_verdict(a.proof@, a.public_inputs@, d@),
        },
    }
}

/// Whether a rejection is the one an artifact earns: its mode's verifier's
/// for a program named as that mode names it, and a key hash that can be cut;
/// otherwise the error that says which of those failed.
pub open spec fn error_fits(a: Artifact, e: Error) -> bool {
    match (a.mode, a.program) {
        (Mode::Groth16, ProgramId::Text(s)) => if key_text_ok(s@) {
            e is Groth16
        } else {
            e is KeyText
        },
        (Mode::Plonk, ProgramId::Text(s)) => if key_text_ok(s@) {
            e is Plonk
        } else {
            e is KeyText
        },
        (Mode::Compressed, ProgramId::Digest(_)) => e is Compressed,
        _ => e is ProgramKind,
    }
}

/// Applies a policy to a rejection.
pub fn settle(e: Error, policy: Policy) -> (r: Result<bool, Error>)
    ensures
        policy == Policy::Collapse ==> r matches Ok(false),
        policy == Policy::Structured ==> (r matches Err(f) && f == e),
{
    match policy {
        Policy::Structured => Err(e),
        Policy::Collapse => Ok(false),
    }
}

/// Sends an artifact to the verifier of its mode. `Ok(true)` exactly when
/// that verifier accepts; otherwise `Ok(false)` under the collapsing policy
/// and the rejection under the structured one.
pub fn verify_artifact(a: &Artifact, policy: Policy) -> (r: Result<bool, Error>)
    ensures
        accepts(*a) ==> r matches Ok(true),
        !accepts(*a) && policy == Policy::Collapse ==> r matches Ok(false),
        !accepts(*a) && policy == Policy::Structured ==> r is Err,
        r matches Err(e) ==> error_fits(*a, e),
{
    match (&a.mode, &a.program) {
        (Mode::Groth16, ProgramId::Text(s)) => {
            if !text_prefix_ok(s.as_str()) {
                return settle(Error::KeyText, policy);
            }
            match verify_groth16(a.proof.as_slice(), a.public_inputs.as_slice(), s.as_str()) {
                Ok(b) => Ok(b),
                Err(e) => settle(Error::Groth16(e), policy),
            }
        },
        (Mode::Plonk, ProgramId::Text(s)) => {
            if !text_prefix_ok(s.as_str()) {
                return settle(Error::KeyText, policy);
            }
            match verify_plonk(a.proof.as_slice(), a.public_inputs.as_slice(), s.as_str()) {
                Ok(b) => Ok(b),
                Err(e) => settle(Error::Plonk(e), policy),
            }
        },
        (Mode::Compressed, ProgramId::Digest(d)) => {
            match verify_compressed(a.proof.as_slice(), a.public_inputs.as_slice(), d.as_slice()) {
                Ok(b) => Ok(b),
                Err(e) => settle(Error::Compressed(e), policy),
            }
        },
        _ => settle(Error::ProgramKind, policy),
    }
}

/// Tests `key_text_ok`.
pub fn text_prefix_ok(s: &str) -> (r: bool)
    ensures
        r == key_text_ok(s@),
{
    let n = s.unicode_len();
    if n >= 1 && (s.get_char(0) as u32) >= 128 {
        return false;
    }
    if n >= 2 && (s.get_char(1) as u32) >= 128 {
        return false;
    }
    true
}

} // verus!
