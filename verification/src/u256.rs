//! 256-bit unsigned integers, kept in four limbs of 64 bits, least significant first.

use vstd::prelude::*;

verus! {

/// Two to the 64th: the weight of one limb.
pub open spec fn limb_weight() -> nat {
    0x1_0000_0000_0000_0000nat
}

/// Two to the 256th: where arithmetic wraps around.
pub open spec fn modulus() -> nat {
    0x1_0000_0000_0000_0000_0000_0000_0000_0000_0000_0000_0000_0000_0000_0000_0000_0000nat
}

/// A 256-bit unsigned integer.
#[derive(Clone, Copy, Debug, PartialEq, Eq, Structural)]
pub struct U256 {
    /// Bits 0 to 63.
    pub l0: u64,
    /// Bits 64 to 127.
    pub l1: u64,
    /// Bits 128 to 191.
    pub l2: u64,
    /// Bits 192 to 255.
    pub l3: u64,
}

impl View for U256 {
    type V = nat;

    /// The number that the limbs stand for.
    open spec fn view(&self) -> nat {
        (self.l0 + limb_weight() * (self.l1 + limb_weight() * (self.l2 + limb_weight()
            * self.l3))) as nat
    }
}

/// `alloy_primitives::U256::wrapping_add`, to which the operators `+` and `+=` of that type
/// delegate: the sum modulo two to the 256th.
#[verifier::external_body]
fn u256_wrapping_add(a: U256, b: U256) -> (r: U256)
    ensures
        r@ == (a@ + b@) % modulus(),
{
    let a = alloy_primitives::U256::from_limbs([a.l0, a.l1, a.l2, a.l3]);
    let b = alloy_primitives::U256::from_limbs([b.l0, b.l1, b.l2, b.l3]);
    let [l0, l1, l2, l3] = a.wrapping_add(b).into_limbs();
    U256 { l0, l1, l2, l3 }
}

/// `alloy_primitives::U256::wrapping_mul`, to which the operator `*` of that type delegates:
/// the product modulo two to the 256th.
#[verifier::external_body]
fn u256_wrapping_mul(a: U256, b: U256) -> (r: U256)
    ensures
        r@ == (a@ * b@) % modulus(),
{
    let a = alloy_primitives::U256::from_limbs([a.l0, a.l1, a.l2, a.l3]);
    let b = alloy_primitives::U256::from_limbs([b.l0, b.l1, b.l2, b.l3]);
    let [l0, l1, l2, l3] = a.wrapping_mul(b).into_limbs();
    U256 { l0, l1, l2, l3 }
}

/// `alloy_primitives::U256::saturating_to::<u64>`: the value where it fits, otherwise the
/// largest `u64`.
#[verifier::external_body]
fn u256_saturating_to(a: U256) -> (r: u64)
    ensures
        r == if a@ <= u64::MAX { a@ } else { u64::MAX as nat },
{
    alloy_primitives::U256::from_limbs([a.l0, a.l1, a.l2, a.l3]).saturating_to::<u64>()
}

/// `alloy_primitives::U256::to::<u64>`, which panics on a value that does not fit: the value.
#[verifier::external_body]
fn u256_to(a: U256) -> (r: u64)
    requires
        a@ <= u64::MAX,
    ensures
        r == a@,
{
    alloy_primitives::U256::from_limbs([a.l0, a.l1, a.l2, a.l3]).to::<u64>()
}

impl U256 {
    /// Zero.
    pub fn zero() -> (r: U256)
        ensures
            r@ == 0,
    {
        U256 { l0: 0, l1: 0, l2: 0, l3: 0 }
    }

    /// Widens a `u64`.
    pub fn from_u64(x: u64) -> (r: U256)
        ensures
            r@ == x,
    {
        U256 { l0: x, l1: 0, l2: 0, l3: 0 }
    }

    /// Widens a `u128`.
    pub fn from_u128(x: u128) -> (r: U256)
        ensures
            r@ == x,
    {
        U256 {
            l0: (x % 0x1_0000_0000_0000_0000) as u64,
            l1: (x / 0x1_0000_0000_0000_0000) as u64,
            l2: 0,
            l3: 0,
        }
    }

    /// The sum, modulo two to the 256th.
    pub fn wrapping_add(self, rhs: U256) -> (r: U256)
        ensures
            r@ == (self@ + rhs@) % modulus(),
    {
        u256_wrapping_add(self, rhs)
    }

    /// The product, modulo two to the 256th.
    pub fn wrapping_mul(self, rhs: U256) -> (r: U256)
        ensures
            r@ == (self@ * rhs@) % modulus(),
    {
        u256_wrapping_mul(self, rhs)
    }

    /// The value as a `u64`, or the largest `u64` where it is larger than that.
    pub fn saturating_to_u64(self) -> (r: u64)
        ensures
            r == if self@ <= u64::MAX { self@ } else { u64::MAX as nat },
    {
        u256_saturating_to(self)
    }

    /// The value as a `u64`.
    pub fn to_u64(self) -> (r: u64)
        requires
            self@ <= u64::MAX,
        ensures
            r == self@,
    {
        u256_to(self)
    }

    /// Whether the value fits a `u64`.
    pub fn fits_u64(self) -> (r: bool)
        ensures
            r == (self@ <= u64::MAX),
    {
        self.l1 == 0 && self.l2 == 0 && self.l3 == 0
    }
}

/// The product of a price and an amount of gas, which never wraps around.
pub proof fn lemma_fee_fits(price: u128, gas: u64)
    ensures
        0 <= price * gas < modulus(),
        (price as nat * gas as nat) % modulus() == price * gas,
{
    assert(0 <= price * gas <= 0xffff_ffff_ffff_ffff_ffff_ffff_ffff_ffff * 0xffff_ffff_ffff_ffff)
        by (nonlinear_arith)
        requires
            0 <= price <= 0xffff_ffff_ffff_ffff_ffff_ffff_ffff_ffff,
            0 <= gas <= 0xffff_ffff_ffff_ffff,
    ;
}

} // verus!
