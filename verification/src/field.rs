//! Numbers written as big-endian bytes: their value, their order, and the two
//! prime fields of BN254 as 32-byte strings.

use vstd::prelude::*;

verus! {

/// The number that `bytes` writes in base 256, most significant byte first.
pub open spec fn be_nat(bytes: Seq<u8>) -> nat
    decreases bytes.len(),
{
    if bytes.len() == 0 {
        0
    } else {
        256 * be_nat(bytes.drop_last()) + bytes.last() as nat
    }
}

/// 256 to the power `n`.
pub open spec fn pow256(n: nat) -> nat
    decreases n,
{
    if n == 0 {
        1
    } else {
        256 * pow256((n - 1) as nat)
    }
}

/// The `len` bytes that write `n` in base 256, most significant byte first;
/// what does not fit is cut off at the front.
pub open spec fn be_bytes(n: nat, len: nat) -> Seq<u8>
    decreases len,
{
    if len == 0 {
        Seq::empty()
    } else {
        be_bytes(n / 256, (len - 1) as nat).push((n % 256) as u8)
    }
}

/// The order of the base field of BN254.
pub open spec fn fp_modulus() -> nat {
    0x30644e72e131a029b85045b68181585d97816a916871ca8d3c208c16d87cfd47nat
}

/// The order of the scalar field of BN254.
pub open spec fn fr_modulus() -> nat {
    0x30644e72e131a029b85045b68181585d2833e84879b9709143e1f593f0000001nat
}

/// The base field's order, big-endian.
pub const FP_MODULUS_BE: [u8; 32] = [
    0x30, 0x64, 0x4e, 0x72, 0xe1, 0x31, 0xa0, 0x29, 0xb8, 0x50, 0x45, 0xb6, 0x81, 0x81, 0x58, 0x5d,
    0x97, 0x81, 0x6a, 0x91, 0x68, 0x71, 0xca, 0x8d, 0x3c, 0x20, 0x8c, 0x16, 0xd8, 0x7c, 0xfd, 0x47,
];

/// The scalar field's order, big-endian.
pub const FR_MODULUS_BE: [u8; 32] = [
    0x30, 0x64, 0x4e, 0x72, 0xe1, 0x31, 0xa0, 0x29, 0xb8, 0x50, 0x45, 0xb6, 0x81, 0x81, 0x58, 0x5d,
    0x28, 0x33, 0xe8, 0x48, 0x79, 0xb9, 0x70, 0x91, 0x43, 0xe1, 0xf5, 0x93, 0xf0, 0x00, 0x00, 0x01,
];

/// A longer prefix is worth 256 times the shorter one plus the byte between.
pub proof fn be_nat_step(s: Seq<u8>, i: int)
    requires
        0 <= i < s.len(),
    ensures
        be_nat(s.subrange(0, i + 1)) == 256 * be_nat(s.subrange(0, i)) + s[i] as nat,
{
    assert(s.subrange(0, i + 1).drop_last() =~= s.subrange(0, i));
}

/// A byte in front of a string adds its value at the string's weight.
pub proof fn be_nat_prepend(s: Seq<u8>)
    requires
        s.len() > 0,
    ensures
        be_nat(s) == s[0] as nat * pow256((s.len() - 1) as nat) + be_nat(s.subrange(1, s.len() as int)),
    decreases s.len(),
{
    let tail = s.subrange(1, s.len() as int);
    if s.len() == 1 {
        assert(s.drop_last() =~= Seq::<u8>::empty());
        assert(tail =~= Seq::<u8>::empty());
        assert(be_nat(s.drop_last()) == 0);
        assert(s[0] as nat * pow256(0) == s[0] as nat) by (nonlinear_arith)
            requires
                pow256(0) == 1,
        ;
    } else {
        let front = s.drop_last();
        be_nat_prepend(front);
        assert(front.subrange(1, front.len() as int) =~= tail.drop_last());
        let w: nat = pow256((s.len() - 2) as nat);
        let rest: nat = be_nat(tail.drop_last());
        assert(256 * (s[0] as nat * w + rest) == s[0] as nat * pow256((s.len() - 1) as nat) + 256 * rest)
            by (nonlinear_arith)
            requires
                pow256((s.len() - 1) as nat) == 256 * w,
        ;
    }
}

/// A string of `n` bytes is worth less than 256 to the `n`.
pub proof fn be_nat_bound(s: Seq<u8>)
    ensures
        be_nat(s) < pow256(s.len()),
    decreases s.len(),
{
    if s.len() > 0 {
        be_nat_bound(s.drop_last());
    }
}

/// Writing out the value of a string gives the string back.
pub proof fn be_bytes_of_be_nat(s: Seq<u8>)
    ensures
        be_bytes(be_nat(s), s.len()) == s,
    decreases s.len(),
{
    if s.len() > 0 {
        be_bytes_of_be_nat(s.drop_last());
        assert(s.drop_last().push(s.last()) =~= s);
    }
}

/// Whether two 32-byte strings are the same.
pub fn same_bytes(a: &[u8; 32], b: &[u8; 32]) -> (same: bool)
    ensures
        same == (a@ == b@),
{
    let mut i: usize = 0;
    while i < 32
        invariant
            i <= 32,
            forall|j: int| 0 <= j < i ==> a[j] == b[j],
        decreases 32 - i,
    {
        if a[i] != b[i] {
            return false;
        }
        i += 1;
    }
    assert(a@ =~= b@);
    true
}

/// Whether `a` is less than `b` as big-endian numbers.
pub fn be_less(a: &[u8; 32], b: &[u8; 32]) -> (less: bool)
    ensures
        less == (be_nat(a@) < be_nat(b@)),
{
    let mut less = false;
    let mut equal = true;
    let mut i: usize = 0;
    while i < 32
        invariant
            i <= 32,
            !(less && equal),
            equal ==> be_nat(a@.subrange(0, i as int)) == be_nat(b@.subrange(0, i as int)),
            less ==> be_nat(a@.subrange(0, i as int)) < be_nat(b@.subrange(0, i as int)),
            !less && !equal ==> be_nat(a@.subrange(0, i as int)) > be_nat(b@.subrange(0, i as int)),
        decreases 32 - i,
    {
        proof {
            be_nat_step(a@, i as int);
            be_nat_step(b@, i as int);
        }
        if equal && a[i] != b[i] {
            equal = false;
            less = a[i] < b[i];
        }
        i += 1;
    }
    assert(a@.subrange(0, 32) =~= a@);
    assert(b@.subrange(0, 32) =~= b@);
    less
}

/// The value of a 32-byte string, written out byte by byte.
pub proof fn be_nat_of_32(s: Seq<u8>)
    requires
        s.len() == 32,
    ensures
        be_nat(s) == ((((((((((((((((((((((((((((((((s[0] as nat) * 256 + s[1] as nat) * 256 + s[2] as nat) * 256
            + s[3] as nat) * 256 + s[4] as nat) * 256 + s[5] as nat) * 256 + s[6] as nat) * 256 + s[7] as nat)
            * 256 + s[8] as nat) * 256 + s[9] as nat) * 256 + s[10] as nat) * 256 + s[11] as nat) * 256
            + s[12] as nat) * 256 + s[13] as nat) * 256 + s[14] as nat) * 256 + s[15] as nat) * 256
            + s[16] as nat) * 256 + s[17] as nat) * 256 + s[18] as nat) * 256 + s[19] as nat) * 256
            + s[20] as nat) * 256 + s[21] as nat) * 256 + s[22] as nat) * 256 + s[23] as nat) * 256
            + s[24] as nat) * 256 + s[25] as nat) * 256 + s[26] as nat) * 256 + s[27] as nat) * 256
            + s[28] as nat) * 256 + s[29] as nat) * 256 + s[30] as nat) * 256 + s[31] as nat),
{
    assert(be_nat(s.subrange(0, 0)) == 0);
    be_nat_step(s, 0);
    be_nat_step(s, 1);
    be_nat_step(s, 2);
    be_nat_step(s, 3);
    be_nat_step(s, 4);
    be_nat_step(s, 5);
    be_nat_step(s, 6);
    be_nat_step(s, 7);
    be_nat_step(s, 8);
    be_nat_step(s, 9);
    be_nat_step(s, 10);
    be_nat_step(s, 11);
    be_nat_step(s, 12);
    be_nat_step(s, 13);
    be_nat_step(s, 14);
    be_nat_step(s, 15);
    be_nat_step(s, 16);
    be_nat_step(s, 17);
    be_nat_step(s, 18);
    be_nat_step(s, 19);
    be_nat_step(s, 20);
    be_nat_step(s, 21);
    be_nat_step(s, 22);
    be_nat_step(s, 23);
    be_nat_step(s, 24);
    be_nat_step(s, 25);
    be_nat_step(s, 26);
    be_nat_step(s, 27);
    be_nat_step(s, 28);
    be_nat_step(s, 29);
    be_nat_step(s, 30);
    be_nat_step(s, 31);
    assert(s.subrange(0, 32) =~= s);
}

/// The two constants spell the two field orders.
pub proof fn moduli_spelled_out()
    ensures
        be_nat(FP_MODULUS_BE@) == fp_modulus(),
        be_nat(FR_MODULUS_BE@) == fr_modulus(),
{
    be_nat_of_32(FP_MODULUS_BE@);
    be_nat_of_32(FR_MODULUS_BE@);
}

/// Whether `bytes` writes an element of the base field: a number below its
/// order.
pub fn is_fp(bytes: &[u8; 32]) -> (ok: bool)
    ensures
        ok == (be_nat(bytes@) < fp_modulus()),
{
    proof {
        moduli_spelled_out();
    }
    be_less(bytes, &FP_MODULUS_BE)
}

/// Whether `bytes` writes an element of the scalar field: a number below its
/// order.
pub fn is_fr(bytes: &[u8; 32]) -> (ok: bool)
    ensures
        ok == (be_nat(bytes@) < fr_modulus()),
{
    proof {
        moduli_spelled_out();
    }
    be_less(bytes, &FR_MODULUS_BE)
}

/// The additive inverse of a base-field element: the order less `y`, and 0
/// for 0.
pub open spec fn fp_negation(y: nat) -> nat {
    if y == 0 {
        0
    } else {
        (fp_modulus() - y) as nat
    }
}

/// Negates an element of the base field.
pub fn fp_neg(y: &[u8; 32]) -> (r: [u8; 32])
    requires
        be_nat(y@) < fp_modulus(),
    ensures
        be_nat(r@) == fp_negation(be_nat(y@)),
        be_nat(r@) < fp_modulus(),
        r@ == be_bytes(fp_negation(be_nat(y@)), 32),
{
    let mut out: [u8; 32] = [0u8; 32];
    let mut borrow: u8 = 0;
    let mut j: usize = 32;
    proof {
        assert(be_nat(FP_MODULUS_BE@.subrange(32, 32)) == 0);
        assert(be_nat(y@.subrange(32, 32)) == 0);
        assert(be_nat(out@.subrange(32, 32)) == 0);
    }
    while j > 0
        invariant
            j <= 32,
            borrow <= 1,
            be_nat(FP_MODULUS_BE@.subrange(j as int, 32)) + borrow * pow256((32 - j) as nat) == be_nat(
                y@.subrange(j as int, 32),
            ) + be_nat(out@.subrange(j as int, 32)),
        decreases j,
    {
        let k: usize = j - 1;
        let have: u16 = FP_MODULUS_BE[k] as u16;
        let take: u16 = y[k] as u16 + borrow as u16;
        let ghost before = out@;
        let ghost lent: u8 = borrow;
        if have >= take {
            out[k] = (have - take) as u8;
            borrow = 0;
        } else {
            out[k] = (have + 256 - take) as u8;
            borrow = 1;
        }
        proof {
            let w: nat = pow256((32 - j) as nat);
            let p = FP_MODULUS_BE@;
            be_nat_prepend(p.subrange(k as int, 32));
            be_nat_prepend(y@.subrange(k as int, 32));
            be_nat_prepend(out@.subrange(k as int, 32));
            assert(p.subrange(k as int, 32).subrange(1, 32 - k) =~= p.subrange(j as int, 32));
            assert(y@.subrange(k as int, 32).subrange(1, 32 - k) =~= y@.subrange(j as int, 32));
            assert(out@.subrange(k as int, 32).subrange(1, 32 - k) =~= before.subrange(j as int, 32));
            assert(pow256((32 - k) as nat) == 256 * w);
            let pk: int = p[k as int] as int;
            let yk: int = y@[k as int] as int;
            let ok: int = out@[k as int] as int;
            assert(pk + 256 * borrow == yk + lent + ok);
            assert(pk * w + borrow * (256 * w) == yk * w + lent * w + ok * w) by (nonlinear_arith)
                requires
                    pk + 256 * borrow == yk + lent + ok,
            ;
        }
        j = k;
    }
    proof {
        assert(FP_MODULUS_BE@.subrange(0, 32) =~= FP_MODULUS_BE@);
        assert(y@.subrange(0, 32) =~= y@);
        assert(out@.subrange(0, 32) =~= out@);
        moduli_spelled_out();
        be_nat_bound(out@);
        be_nat_bound(y@);
    }
    if is_fp(&out) {
        proof {
            be_bytes_of_be_nat(out@);
        }
        out
    } else {
        let zero: [u8; 32] = [0u8; 32];
        proof {
            be_nat_of_32(zero@);
            be_bytes_of_be_nat(zero@);
        }
        zero
    }
}

} // verus!
