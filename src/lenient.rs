//! Verification entry points for callers that cannot take an error: every
//! rejection becomes `false`.

use crate::dispatch::{
    compressed_verdict, groth16_accepts, key_text_ok, plonk_accepts, text_prefix_ok,
};
use vstd::prelude::*;

verus! {

/// `true` exactly when the Groth16 verifier accepts.
pub fn verify_groth16(proof: &[u8], public_inputs: &[u8], sp1_vk_hash: &str) -> (r: bool)
    ensures
        r == (key_text_ok(sp1_vk_hash@) && groth16_accepts(proof@, public_inputs@, sp1_vk_hash@)),
{
    text_prefix_ok(sp1_vk_hash) && crate::dispatch::verify_groth16(
        proof,
        public_inputs,
        sp1_vk_hash,
    ).is_ok()
}

/// `true` exactly when the Plonk verifier accepts.
pub fn verify_plonk(proof: &[u8], public_inputs: &[u8], sp1_vk_hash: &str) -> (r: bool)
    ensures
        r == (key_text_ok(sp1_vk_hash@) && plonk_accepts(proof@, public_inputs@, sp1_vk_hash@)),
{
    text_prefix_ok(sp1_vk_hash) && crate::dispatch::verify_plonk(
        proof,
        public_inputs,
        sp1_vk_hash,
    ).is_ok()
}

/// `true` exactly when the compressed verifier accepts.
pub fn verify_compressed(proof: &[u8], public_inputs: &[u8], sp1_vk_hash: &[u8]) -> (r: bool)
    ensures
        r == compressed_verdict(proof@, public_inputs@, sp1_vk_hash@),
{
    crate::dispatch::verify_compressed(proof, public_inputs, sp1_vk_hash).is_ok()
}

} // verus!
