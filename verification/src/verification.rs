//! The proof verifier: one key, and proofs that arrive with their public
//! inputs behind them.

use crate::bn254::views;
use crate::constants::ZK_PUBLIC_INPUTS;
use crate::types::Identity;
use crate::zk::{groth16_verdict, take, verify_groth16, VerificationKeys, VerifyError};
use vstd::prelude::*;

verus! {

/// Length of the proof at the head of a blob.
pub const PROOF_BYTES: usize = 256;

/// Length of one public input.
pub const INPUT_BYTES: usize = 32;

/// Length of a blob: the proof and the circuit's public inputs.
pub const BLOB_BYTES: usize = PROOF_BYTES + INPUT_BYTES * ZK_PUBLIC_INPUTS;

/// The public inputs behind the proof in a blob, in order: the commitment,
/// the cranker's seed, the player's seed and the outcome.
pub open spec fn blob_inputs(blob: Seq<u8>) -> Seq<Seq<u8>> {
    Seq::new(ZK_PUBLIC_INPUTS as nat, |i: int| blob.subrange(256 + 32 * i, 288 + 32 * i))
}

/// The verdict on a blob under a key.
pub open spec fn blob_verdict(keys: VerificationKeys, blob: Seq<u8>) -> Result<bool, VerifyError> {
    if blob.len() != BLOB_BYTES {
        Err(VerifyError::BlobLength)
    } else {
        groth16_verdict(keys, blob.subrange(0, 256), blob_inputs(blob))
    }
}

/// Splits a blob into the proof and the public inputs; `None` unless the blob
/// has the length of a proof and four inputs.
pub fn extract(blob: &[u8]) -> (parts: Option<(Vec<u8>, Vec<[u8; 32]>)>)
    ensures
        parts is Some <==> blob@.len() == BLOB_BYTES,
        parts matches Some((proof, inputs)) ==> proof@ == blob@.subrange(0, 256) && views(inputs@)
            == blob_inputs(blob@),
{
    if blob.len() != BLOB_BYTES {
        return None;
    }
    let mut proof: Vec<u8> = Vec::new();
    let mut i: usize = 0;
    while i < PROOF_BYTES
        invariant
            i <= PROOF_BYTES,
            blob@.len() == BLOB_BYTES,
            proof@ == blob@.subrange(0, i as int),
        decreases PROOF_BYTES - i,
    {
        proof.push(blob[i]);
        i += 1;
    }
    let mut inputs: Vec<[u8; 32]> = Vec::new();
    let mut k: usize = 0;
    while k < ZK_PUBLIC_INPUTS
        invariant
            k <= ZK_PUBLIC_INPUTS,
            blob@.len() == BLOB_BYTES,
            inputs@.len() == k,
            forall|j: int| 0 <= j < k ==> (#[trigger] inputs@[j])@ == blob@.subrange(256 + 32 * j, 288 + 32 * j),
        decreases ZK_PUBLIC_INPUTS - k,
    {
        let at: usize = PROOF_BYTES + INPUT_BYTES * k;
        inputs.push(take::<32>(blob, at));
        k += 1;
    }
    assert(views(inputs@) =~= blob_inputs(blob@));
    Some((proof, inputs))
}

/// The verifier: a key fixed when it is made.
pub struct VerifierContract {
    admin: Identity,
    keys: VerificationKeys,
}

impl VerifierContract {
    /// A verifier for the circuit that `keys` belong to.
    pub fn new(admin: Identity, keys: VerificationKeys) -> (v: VerifierContract)
        ensures
            v.admin() == admin,
            v.keys() == keys,
    {
        VerifierContract { admin, keys }
    }

    /// Who set the verifier up.
    pub closed spec fn admin(&self) -> Identity {
        self.admin
    }

    /// The key proofs are held against.
    pub closed spec fn keys(&self) -> VerificationKeys {
        self.keys
    }

    /// Who set the verifier up.
    pub fn get_admin(&self) -> (a: Identity)
        ensures
            a == self.admin(),
    {
        self.admin
    }

    /// Verifies a blob: a proof followed by its public inputs.
    pub fn verify(&self, proof: &[u8]) -> (verdict: Result<bool, VerifyError>)
        ensures
            verdict == blob_verdict(self.keys(), proof@),
    {
        match extract(proof) {
            None => Err(VerifyError::BlobLength),
            Some((raw, inputs)) => verify_groth16(&self.keys, raw.as_slice(), &inputs),
        }
    }
}

} // verus!
