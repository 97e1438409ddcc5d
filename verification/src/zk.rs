//! Groth16 verification over BN254, and the hash that commitments are made
//! with.

use crate::bn254::{bn254_g1_add, bn254_g1_mul, bn254_pairing_check, g1_add, g1_mul, pairing_check, views};
use crate::field::{be_bytes, be_nat, fp_modulus, fp_neg, fp_negation, fr_modulus, is_fp};
use soroban_poseidon::poseidon2_hash;
use soroban_sdk::crypto::bn254::Bn254Fr;
use soroban_sdk::testutils::EnvTestConfig;
use soroban_sdk::{Bytes, Env, U256};
use vstd::prelude::*;

verus! {

/// A Groth16 verification key: the fixed points of one circuit, its G2 points
/// in the order in which the proving tool writes them.
pub struct VerificationKeys {
    pub alpha: [u8; 64],
    pub beta: [u8; 128],
    pub gamma: [u8; 128],
    pub delta: [u8; 128],
    /// One coefficient more than the circuit has public inputs.
    pub ic: Vec<[u8; 64]>,
}

/// Why a proof could not be judged.
#[derive(Clone, Copy, Debug, PartialEq, Eq, Structural)]
pub enum VerifyError {
    /// The blob is not a proof and four inputs long.
    BlobLength,
    /// The proof is shorter than 256 bytes.
    ProofLength,
    /// The key has no coefficient for one of the inputs.
    MissingCoefficient,
    /// A point of the proof or of the key is not an element of its group.
    InvalidPoint,
}

/// A G2 encoding with the two halves of each coordinate exchanged: the proving
/// tool writes the real part first, the curve library the imaginary part.
pub open spec fn fp2_swapped(p: Seq<u8>) -> Seq<u8> {
    p.subrange(32, 64) + p.subrange(0, 32) + p.subrange(96, 128) + p.subrange(64, 96)
}

/// The encoding of the inverse of a G1 point: the same `x`, and `y` negated in
/// the base field.
pub open spec fn g1_negation(p: Seq<u8>) -> Seq<u8> {
    p.subrange(0, 32) + be_bytes(fp_negation(be_nat(p.subrange(32, 64))), 32)
}

/// The input commitment after the first `n` inputs: `ic[0]` plus each input
/// times the coefficient after it; `None` once the curve rejects a step.
pub open spec fn input_commitment(ic: Seq<Seq<u8>>, inputs: Seq<Seq<u8>>, n: nat) -> Option<Seq<u8>>
    decreases n,
{
    if n == 0 {
        Some(ic[0])
    } else {
        match input_commitment(ic, inputs, (n - 1) as nat) {
            None => None,
            Some(l) => match bn254_g1_mul(ic[n as int], inputs[n - 1]) {
                None => None,
                Some(term) => bn254_g1_add(l, term),
            },
        }
    }
}

/// The verdict on a proof: whether
/// `e(-a, b) * e(alpha, beta) * e(l, gamma) * e(c, delta)` is the identity,
/// where `a`, `b`, `c` are the three points in the first 256 bytes of the
/// proof and `l` is the input commitment; or why there is no verdict. What
/// follows the first 256 bytes is not looked at.
pub open spec fn groth16_verdict(vk: VerificationKeys, proof: Seq<u8>, inputs: Seq<Seq<u8>>) -> Result<
    bool,
    VerifyError,
> {
    if proof.len() < 256 {
        Err(VerifyError::ProofLength)
    } else if vk.ic@.len() <= inputs.len() {
        Err(VerifyError::MissingCoefficient)
    } else if be_nat(proof.subrange(32, 64)) >= fp_modulus() {
        Err(VerifyError::InvalidPoint)
    } else {
        match input_commitment(views(vk.ic@), inputs, inputs.len()) {
            None => Err(VerifyError::InvalidPoint),
            Some(l) => match bn254_pairing_check(
                seq![g1_negation(proof.subrange(0, 64)), vk.alpha@, l, proof.subrange(192, 256)],
                seq![
                    fp2_swapped(proof.subrange(64, 192)),
                    fp2_swapped(vk.beta@),
                    fp2_swapped(vk.gamma@),
                    fp2_swapped(vk.delta@),
                ],
            ) {
                None => Err(VerifyError::InvalidPoint),
                Some(holds) => Ok(holds),
            },
        }
    }
}

/// A proof is judged by its first 256 bytes: what follows them changes
/// nothing.
pub proof fn a_proof_is_judged_by_its_first_256_bytes(vk: VerificationKeys, proof: Seq<u8>, inputs: Seq<Seq<u8>>)
    requires
        proof.len() >= 256,
    ensures
        groth16_verdict(vk, proof, inputs) == groth16_verdict(vk, proof.subrange(0, 256), inputs),
        groth16_verdict(vk, proof, inputs) != Err::<bool, VerifyError>(VerifyError::ProofLength),
{
    let head = proof.subrange(0, 256);
    assert(head.subrange(0, 64) =~= proof.subrange(0, 64));
    assert(head.subrange(32, 64) =~= proof.subrange(32, 64));
    assert(head.subrange(64, 192) =~= proof.subrange(64, 192));
    assert(head.subrange(192, 256) =~= proof.subrange(192, 256));
}

/// Exchanges the halves of both coordinates of a G2 point.
pub fn g2_swap_array(arr: &[u8; 128]) -> (swapped: [u8; 128])
    ensures
        swapped@ == fp2_swapped(arr@),
{
    let mut out: [u8; 128] = [0u8; 128];
    let mut i: usize = 0;
    while i < 128
        invariant
            i <= 128,
            forall|j: int| 0 <= j < i ==> #[trigger] out[j] == fp2_swapped(arr@)[j],
        decreases 128 - i,
    {
        let from: usize = if i % 64 < 32 { i + 32 } else { i - 32 };
        out[i] = arr[from];
        i += 1;
    }
    assert(out@ =~= fp2_swapped(arr@));
    out
}

/// Exchanging the halves twice gives the encoding back.
pub proof fn swapping_twice_restores(p: Seq<u8>)
    requires
        p.len() == 128,
    ensures
        fp2_swapped(fp2_swapped(p)) == p,
{
    assert(fp2_swapped(fp2_swapped(p)) =~= p);
}

/// The `N` bytes of `src` from `at` on.
pub(crate) fn take<const N: usize>(src: &[u8], at: usize) -> (out: [u8; N])
    requires
        at + N <= src@.len(),
    ensures
        out@ == src@.subrange(at as int, at + N),
{
    let len: usize = src.len();
    let mut out: [u8; N] = [0u8; N];
    let mut i: usize = 0;
    while i < N
        invariant
            i <= N,
            at + N <= src@.len() == len,
            forall|j: int| 0 <= j < i ==> out[j] == src@[at + j],
        decreases N - i,
    {
        out[i] = src[at + i];
        i += 1;
    }
    assert(out@ =~= src@.subrange(at as int, at + N));
    out
}

/// Negates a G1 point; `None` where its `y` is no element of the base field.
pub fn g1_neg(p: &[u8; 64]) -> (neg: Option<[u8; 64]>)
    ensures
        neg is Some <==> be_nat(p@.subrange(32, 64)) < fp_modulus(),
        neg matches Some(n) ==> n@ == g1_negation(p@),
{
    let y: [u8; 32] = take::<32>(p.as_slice(), 32);
    if !is_fp(&y) {
        return None;
    }
    let minus_y: [u8; 32] = fp_neg(&y);
    let mut out: [u8; 64] = *p;
    let mut i: usize = 0;
    while i < 32
        invariant
            i <= 32,
            forall|j: int| 0 <= j < 32 ==> out[j] == p[j],
            forall|j: int| 0 <= j < i ==> out[32 + j] == minus_y[j],
        decreases 32 - i,
    {
        out[32 + i] = minus_y[i];
        i += 1;
    }
    assert(out@ =~= g1_negation(p@));
    Some(out)
}

/// Once a step is rejected, every longer fold is rejected too.
proof fn rejection_is_final(ic: Seq<Seq<u8>>, inputs: Seq<Seq<u8>>, k: nat, n: nat)
    requires
        k <= n,
        input_commitment(ic, inputs, k) is None,
    ensures
        input_commitment(ic, inputs, n) is None,
    decreases n,
{
    if k < n {
        rejection_is_final(ic, inputs, k, (n - 1) as nat);
    }
}

/// Folds the public inputs into the key's coefficients:
/// `ic[0] + inputs[0] * ic[1] + ... + inputs[n-1] * ic[n]`.
pub fn commit_inputs(ic: &Vec<[u8; 64]>, inputs: &Vec<[u8; 32]>) -> (l: Option<[u8; 64]>)
    requires
        inputs.len() < ic.len(),
    ensures
        match l {
            Some(p) => input_commitment(views(ic@), views(inputs@), inputs@.len()) == Some(p@),
            None => input_commitment(views(ic@), views(inputs@), inputs@.len()) is None,
        },
{
    let mut l: [u8; 64] = ic[0];
    let mut i: usize = 0;
    while i < inputs.len()
        invariant
            i <= inputs.len() < ic.len(),
            input_commitment(views(ic@), views(inputs@), i as nat) == Some(l@),
        decreases inputs.len() - i,
    {
        let term: [u8; 64] = match g1_mul(&ic[i + 1], &inputs[i]) {
            Some(t) => t,
            None => {
                proof {
                    rejection_is_final(views(ic@), views(inputs@), (i + 1) as nat, inputs@.len());
                }
                return None;
            },
        };
        let next: [u8; 64] = match g1_add(&l, &term) {
            Some(s) => s,
            None => {
                proof {
                    rejection_is_final(views(ic@), views(inputs@), (i + 1) as nat, inputs@.len());
                }
                return None;
            },
        };
        l = next;
        i += 1;
    }
    Some(l)
}

/// Verifies a Groth16 proof against a key and the public inputs.
///
/// The proof is read from its first 256 bytes: the G1 point `a`, the G2 point
/// `b` as the proving tool writes it, and the G1 point `c`; bytes after these
/// are ignored. Each input is a 32-byte big-endian scalar.
pub fn verify_groth16(vk: &VerificationKeys, proof: &[u8], inputs: &Vec<[u8; 32]>) -> (verdict: Result<
    bool,
    VerifyError,
>)
    ensures
        verdict == groth16_verdict(*vk, proof@, views(inputs@)),
{
    if proof.len() < 256 {
        return Err(VerifyError::ProofLength);
    }
    if vk.ic.len() <= inputs.len() {
        return Err(VerifyError::MissingCoefficient);
    }
    let a: [u8; 64] = take::<64>(proof, 0);
    let b: [u8; 128] = g2_swap_array(&take::<128>(proof, 64));
    let c: [u8; 64] = take::<64>(proof, 192);
    assert(a@.subrange(32, 64) =~= proof@.subrange(32, 64));
    let minus_a: [u8; 64] = match g1_neg(&a) {
        Some(n) => n,
        None => { return Err(VerifyError::InvalidPoint); },
    };
    let l: [u8; 64] = match commit_inputs(&vk.ic, inputs) {
        Some(p) => p,
        None => { return Err(VerifyError::InvalidPoint); },
    };
    let mut g1: Vec<[u8; 64]> = Vec::new();
    g1.push(minus_a);
    g1.push(vk.alpha);
    g1.push(l);
    g1.push(c);
    let mut g2: Vec<[u8; 128]> = Vec::new();
    g2.push(b);
    g2.push(g2_swap_array(&vk.beta));
    g2.push(g2_swap_array(&vk.gamma));
    g2.push(g2_swap_array(&vk.delta));
    assert(views(g1@) =~= seq![g1_negation(proof@.subrange(0, 64)), vk.alpha@, l@, proof@.subrange(192, 256)]);
    assert(views(g2@) =~= seq![
        fp2_swapped(proof@.subrange(64, 192)),
        fp2_swapped(vk.beta@),
        fp2_swapped(vk.gamma@),
        fp2_swapped(vk.delta@),
    ]);
    match pairing_check(&g1, &g2) {
        Some(holds) => Ok(holds),
        None => Err(VerifyError::InvalidPoint),
    }
}

/// The Poseidon2 hash of two scalars as `soroban_poseidon::poseidon2_hash`
/// computes it with a state of four elements over the scalar field of BN254.
pub uninterp spec fn poseidon2_of_pair(a: Seq<u8>, b: Seq<u8>) -> Seq<u8>;

/// The Poseidon2 hash of two elements of the scalar field, which is what a
/// cranker commits to: `hash(seed, salt)`.
///
/// Calls `soroban_poseidon::poseidon2_hash::<4, Bn254Fr>` on the two values,
/// in a host environment made for the call. The contract gives the result a
/// name and claims nothing else of it; it is believed, not proved. That
/// function panics on a value that is no field element, which the
/// precondition leaves out.
#[verifier::external_body]
pub fn hash(a: &[u8; 32], b: &[u8; 32]) -> (digest: [u8; 32])
    requires
        be_nat(a@) < fr_modulus(),
        be_nat(b@) < fr_modulus(),
    ensures
        digest@ == poseidon2_of_pair(a@, b@),
{
    let env = Env::new_with_config(EnvTestConfig { capture_snapshot_at_drop: false });
    let x = U256::from_be_bytes(&env, &Bytes::from_array(&env, a));
    let y = U256::from_be_bytes(&env, &Bytes::from_array(&env, b));
    let inputs = soroban_sdk::Vec::from_array(&env, [x, y]);
    let digest = poseidon2_hash::<4, Bn254Fr>(&env, &inputs);
    let mut out = [0u8; 32];
    digest.to_be_bytes().copy_into_slice(&mut out);
    out
}

} // verus!
