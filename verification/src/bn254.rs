//! The BN254 operations of the Soroban host, each behind a contract that is
//! believed, not proved. The host reports an error where a point is malformed,
//! off the curve or outside its group; the functions here hand that on as
//! `None` and never trap.

use soroban_env_host::{meta, Env, EnvBase, Host, LedgerInfo, U32Val, Val};
use vstd::prelude::*;

verus! {

/// The sum of two G1 points as the host's `bn254_g1_add` computes it from
/// their 64-byte encodings; `None` where the host reports an error.
pub uninterp spec fn bn254_g1_add(lhs: Seq<u8>, rhs: Seq<u8>) -> Option<Seq<u8>>;

/// The product of a G1 point and a 32-byte big-endian scalar as the host's
/// `bn254_g1_mul` computes it; `None` where the host reports an error.
pub uninterp spec fn bn254_g1_mul(point: Seq<u8>, scalar: Seq<u8>) -> Option<Seq<u8>>;

/// Whether the product of the pairings of `g1[i]` with `g2[i]` is the identity
/// of the target group, as the host's `bn254_multi_pairing_check` decides it;
/// `None` where the host reports an error.
pub uninterp spec fn bn254_pairing_check(g1: Seq<Seq<u8>>, g2: Seq<Seq<u8>>) -> Option<bool>;

/// The byte strings of a list of fixed-size encodings.
pub open spec fn views<const N: usize>(items: Seq<[u8; N]>) -> Seq<Seq<u8>> {
    Seq::new(items.len(), |i: int| items[i]@)
}

/// Calls the host function `bn254_g1_add` (`Env::bn254_g1_add` on a
/// `soroban_env_host::Host`) on the two encodings. The result is the host's:
/// the encoded sum, or `None` for the host's error.
#[verifier::external_body]
pub(crate) fn g1_add(lhs: &[u8; 64], rhs: &[u8; 64]) -> (sum: Option<[u8; 64]>)
    ensures
        match sum {
            Some(s) => bn254_g1_add(lhs@, rhs@) == Some(s@),
            None => bn254_g1_add(lhs@, rhs@) is None,
        },
{
    let host = Host::default();
    let ledger = LedgerInfo { protocol_version: meta::INTERFACE_VERSION.protocol, ..Default::default() };
    host.set_ledger_info(ledger).ok()?;
    let a = host.bytes_new_from_slice(lhs).ok()?;
    let b = host.bytes_new_from_slice(rhs).ok()?;
    let sum = host.bn254_g1_add(a, b).ok()?;
    let mut out = [0u8; 64];
    host.bytes_copy_to_slice(sum, U32Val::from(0), &mut out).ok()?;
    Some(out)
}

/// Calls the host function `bn254_g1_mul` on a point and a scalar, the scalar
/// handed over through `u256_val_from_be_bytes`. The result is the host's: the
/// encoded product, or `None` for the host's error.
#[verifier::external_body]
pub(crate) fn g1_mul(point: &[u8; 64], scalar: &[u8; 32]) -> (product: Option<[u8; 64]>)
    ensures
        match product {
            Some(p) => bn254_g1_mul(point@, scalar@) == Some(p@),
            None => bn254_g1_mul(point@, scalar@) is None,
        },
{
    let host = Host::default();
    let ledger = LedgerInfo { protocol_version: meta::INTERFACE_VERSION.protocol, ..Default::default() };
    host.set_ledger_info(ledger).ok()?;
    let p = host.bytes_new_from_slice(point).ok()?;
    let s = host.bytes_new_from_slice(scalar).ok()?;
    let k = host.u256_val_from_be_bytes(s).ok()?;
    let product = host.bn254_g1_mul(p, k).ok()?;
    let mut out = [0u8; 64];
    host.bytes_copy_to_slice(product, U32Val::from(0), &mut out).ok()?;
    Some(out)
}

/// Calls the host function `bn254_multi_pairing_check` on the two lists of
/// encodings. The result is the host's: its verdict, or `None` for its error,
/// which it also reports where the lists differ in length or are empty.
#[verifier::external_body]
pub(crate) fn pairing_check(g1: &Vec<[u8; 64]>, g2: &Vec<[u8; 128]>) -> (verdict: Option<bool>)
    ensures
        verdict == bn254_pairing_check(views(g1@), views(g2@)),
{
    let host = Host::default();
    let ledger = LedgerInfo { protocol_version: meta::INTERFACE_VERSION.protocol, ..Default::default() };
    host.set_ledger_info(ledger).ok()?;
    let mut v1: Vec<Val> = Vec::new();
    for p in g1.iter() {
        v1.push(host.bytes_new_from_slice(p).ok()?.to_val());
    }
    let mut v2: Vec<Val> = Vec::new();
    for q in g2.iter() {
        v2.push(host.bytes_new_from_slice(q).ok()?.to_val());
    }
    let o1 = host.vec_new_from_slice(&v1).ok()?;
    let o2 = host.vec_new_from_slice(&v2).ok()?;
    host.bn254_multi_pairing_check(o1, o2).ok().map(bool::from)
}

} // verus!
