//! Elements of the scalar field of BLS12-381, held as their canonical
//! integer representative in four little-endian 64-bit limbs.
use ark_ff::{BigInt, PrimeField};
use vstd::arithmetic::div_mod::lemma_fundamental_div_mod_converse;
use vstd::prelude::*;

verus! {

/// The weight of one limb: `2^64`.
pub open spec fn limb_base() -> int {
    0x1_0000_0000_0000_0000
}

/// The prime order `r` of the BLS12-381 scalar field,
/// `0x73eda753299d7d483339d80809a1d80553bda402fffe5bfeffffffff00000001`.
pub open spec fn modulus() -> int {
    0xffffffff00000001 + limb_base() * (0x53bda402fffe5bfe + limb_base() * (
    0x3339d80809a1d805 + limb_base() * 0x73eda753299d7d48))
}

/// A value of the field, as the integer `l0 + l1·2^64 + l2·2^128 + l3·2^192`.
#[derive(Clone, Copy, Debug, PartialEq, Eq, Structural)]
pub struct FieldValue {
    pub l0: u64,
    pub l1: u64,
    pub l2: u64,
    pub l3: u64,
}

impl FieldValue {
    /// The integer that the limbs spell.
    pub open spec fn value(self) -> int {
        self.l0 + limb_base() * (self.l1 + limb_base() * (self.l2 + limb_base() * self.l3))
    }

    /// The limbs spell a canonical representative: an integer below the modulus.
    pub open spec fn wf(self) -> bool {
        self.value() < modulus()
    }

    /// The field element equal to the integer `n`.
    pub open spec fn spec_from_u32(n: u32) -> FieldValue {
        FieldValue { l0: n as u64, l1: 0, l2: 0, l3: 0 }
    }

    /// Whether the limbs spell an integer below the modulus.
    pub fn is_canonical(&self) -> (r: bool)
        ensures
            r == self.wf(),
    {
        let m = FieldValue {
            l0: 0xffffffff00000001,
            l1: 0x53bda402fffe5bfe,
            l2: 0x3339d80809a1d805,
            l3: 0x73eda753299d7d48,
        };
        proof {
            assert(modulus() == m.value());
            lemma_limb_lt(self.l2 as int, self.l3 as int, m.l2 as int, m.l3 as int);
            lemma_limb_lt(
                self.l1 as int,
                self.l2 + limb_base() * self.l3,
                m.l1 as int,
                m.l2 + limb_base() * m.l3,
            );
            lemma_limb_lt(
                self.l0 as int,
                self.l1 + limb_base() * (self.l2 + limb_base() * self.l3),
                m.l0 as int,
                m.l1 + limb_base() * (m.l2 + limb_base() * m.l3),
            );
        }
        if self.l3 != m.l3 {
            self.l3 < m.l3
        } else if self.l2 != m.l2 {
            self.l2 < m.l2
        } else if self.l1 != m.l1 {
            self.l1 < m.l1
        } else {
            self.l0 < m.l0
        }
    }

    /// Converts a small unsigned integer into the field.
    pub fn from_u32(n: u32) -> (r: FieldValue)
        ensures
            r == Self::spec_from_u32(n),
            r.wf(),
            r.value() == n as int,
    {
        FieldValue { l0: n as u64, l1: 0, l2: 0, l3: 0 }
    }

    /// Field addition.
    pub fn add(&self, other: &FieldValue) -> (r: FieldValue)
        requires
            self.wf(),
            other.wf(),
        ensures
            r.wf(),
            r.value() == (self.value() + other.value()) % modulus(),
    {
        field_add(self, other)
    }
}

/// Relies on `ark_bls12_381::Fr`: `from_bigint` accepts every integer below the
/// modulus, `+` is addition modulo the modulus, and `into_bigint` gives back the
/// canonical representative.
#[verifier::external_body]
fn field_add(a: &FieldValue, b: &FieldValue) -> (r: FieldValue)
    requires
        a.wf(),
        b.wf(),
    ensures
        r.wf(),
        r.value() == (a.value() + b.value()) % modulus(),
{
    let fa = ark_bls12_381::Fr::from_bigint(BigInt::new([a.l0, a.l1, a.l2, a.l3])).unwrap();
    let fb = ark_bls12_381::Fr::from_bigint(BigInt::new([b.l0, b.l1, b.l2, b.l3])).unwrap();
    let s = (fa + fb).into_bigint().0;
    FieldValue { l0: s[0], l1: s[1], l2: s[2], l3: s[3] }
}

/// Numbers written with a low limb below `2^64` compare as their high parts do,
/// then as their low limbs do.
proof fn lemma_limb_lt(a0: int, ah: int, b0: int, bh: int)
    requires
        0 <= a0 < limb_base(),
        0 <= b0 < limb_base(),
    ensures
        (a0 + limb_base() * ah < b0 + limb_base() * bh) == (ah < bh || (ah == bh && a0 < b0)),
        (a0 + limb_base() * ah == b0 + limb_base() * bh) == (ah == bh && a0 == b0),
{
    let w = limb_base();
    if ah < bh {
        assert(w * ah + w <= w * bh) by (nonlinear_arith)
            requires ah < bh, w > 0;
    } else if ah > bh {
        assert(w * bh + w <= w * ah) by (nonlinear_arith)
            requires ah > bh, w > 0;
    }
}

/// Two field values are equal exactly when they stand for the same integer:
/// the representation is canonical, so equality does not depend on how a value
/// was built.
pub proof fn lemma_equal_value_equal(a: FieldValue, b: FieldValue)
    requires
        a.wf(),
        b.wf(),
        a.value() == b.value(),
    ensures
        a == b,
{
    let w = limb_base();
    let ha = a.l2 + w * a.l3;
    let hb = b.l2 + w * b.l3;
    let ma = a.l1 + w * ha;
    let mb = b.l1 + w * hb;
    lemma_fundamental_div_mod_converse(a.value(), w, ma, a.l0 as int);
    lemma_fundamental_div_mod_converse(b.value(), w, mb, b.l0 as int);
    lemma_fundamental_div_mod_converse(ma, w, ha, a.l1 as int);
    lemma_fundamental_div_mod_converse(mb, w, hb, b.l1 as int);
    lemma_fundamental_div_mod_converse(ha, w, a.l3 as int, a.l2 as int);
    lemma_fundamental_div_mod_converse(hb, w, b.l3 as int, b.l2 as int);
}

} // verus!
