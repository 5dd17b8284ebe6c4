//! Natural numbers of any size. The digits are kept as bytes; the arithmetic
//! is that of the `num-bigint` crate, reached through the checked operations
//! of `num-traits`.

use num_bigint::BigUint;
use num_traits::{CheckedAdd, CheckedDiv, CheckedMul, CheckedSub, ToPrimitive};
use vstd::prelude::*;
use crate::text::decimal;

verus! {

/// The number that a sequence of bytes stands for, the least significant
/// byte first.
pub open spec fn le_value(bytes: Seq<u8>) -> nat
    decreases bytes.len(),
{
    if bytes.len() == 0 {
        0
    } else {
        bytes[0] as nat + 256 * le_value(bytes.drop_first())
    }
}

/// The product of two natural numbers.
pub open spec fn product(a: nat, b: nat) -> nat {
    a * b
}

/// The quotient of two natural numbers, rounded down; `b` is not zero.
pub open spec fn quotient(a: nat, b: nat) -> nat {
    a / b
}

/// The remainder of the division of two natural numbers; `b` is not zero.
pub open spec fn remainder(a: nat, b: nat) -> nat {
    a % b
}

/// A natural number of any size.
#[derive(Debug, PartialEq, Eq)]
pub struct Ubig {
    /// The digits to the base 256, the least significant first.
    bytes: Vec<u8>,
}

impl View for Ubig {
    type V = nat;

    closed spec fn view(&self) -> nat {
        le_value(self.bytes@)
    }
}

/// Turns `n` into a `BigUint` with `BigUint::from`, and that into its bytes
/// with `BigUint::to_bytes_le`: the bytes stand for `n`.
#[verifier::external_body]
fn bytes_of_u128(n: u128) -> (out: Vec<u8>)
    ensures
        le_value(out@) == n,
{
    BigUint::from(n).to_bytes_le()
}

/// Calls `ToPrimitive::to_u128` on the number that the bytes stand for: the
/// number itself if a `u128` can hold it, else nothing.
#[verifier::external_body]
fn bytes_to_u128(a: &Vec<u8>) -> (out: Option<u128>)
    ensures
        match out {
            Some(n) => le_value(a@) == n,
            None => le_value(a@) > u128::MAX,
        },
{
    BigUint::from_bytes_le(a).to_u128()
}

/// Calls `CheckedAdd::checked_add` on the numbers that the bytes stand for:
/// there is always a sum.
#[verifier::external_body]
fn bytes_checked_add(a: &Vec<u8>, b: &Vec<u8>) -> (out: Option<Vec<u8>>)
    ensures
        match out {
            Some(r) => le_value(r@) == le_value(a@) + le_value(b@),
            None => false,
        },
{
    BigUint::from_bytes_le(a).checked_add(&BigUint::from_bytes_le(b)).map(|r| r.to_bytes_le())
}

/// Calls `CheckedSub::checked_sub` on the numbers that the bytes stand for:
/// the difference, or nothing where the second is the greater.
#[verifier::external_body]
fn bytes_checked_sub(a: &Vec<u8>, b: &Vec<u8>) -> (out: Option<Vec<u8>>)
    ensures
        match out {
            Some(r) => le_value(a@) >= le_value(b@) && le_value(r@) == le_value(a@) - le_value(b@),
            None => le_value(a@) < le_value(b@),
        },
{
    BigUint::from_bytes_le(a).checked_sub(&BigUint::from_bytes_le(b)).map(|r| r.to_bytes_le())
}

/// Calls `CheckedMul::checked_mul` on the numbers that the bytes stand for:
/// there is always a product.
#[verifier::external_body]
fn bytes_checked_mul(a: &Vec<u8>, b: &Vec<u8>) -> (out: Option<Vec<u8>>)
    ensures
        match out {
            Some(r) => le_value(r@) == product(le_value(a@), le_value(b@)),
            None => false,
        },
{
    BigUint::from_bytes_le(a).checked_mul(&BigUint::from_bytes_le(b)).map(|r| r.to_bytes_le())
}

/// Calls `CheckedDiv::checked_div` on the numbers that the bytes stand for:
/// the quotient, rounded down, or nothing where the divisor is zero.
#[verifier::external_body]
fn bytes_checked_div(a: &Vec<u8>, b: &Vec<u8>) -> (out: Option<Vec<u8>>)
    ensures
        match out {
            Some(r) => le_value(b@) != 0 && le_value(r@) == quotient(le_value(a@), le_value(b@)),
            None => le_value(b@) == 0,
        },
{
    BigUint::from_bytes_le(a).checked_div(&BigUint::from_bytes_le(b)).map(|r| r.to_bytes_le())
}

/// Applies the `%` of `BigUint` to the numbers that the bytes stand for: the
/// remainder of the division. The divisor is not zero.
#[verifier::external_body]
fn bytes_rem(a: &Vec<u8>, b: &Vec<u8>) -> (out: Vec<u8>)
    requires
        le_value(b@) != 0,
    ensures
        le_value(out@) == remainder(le_value(a@), le_value(b@)),
{
    (BigUint::from_bytes_le(a) % BigUint::from_bytes_le(b)).to_bytes_le()
}

/// Compares the numbers that the bytes stand for with the `<` of `BigUint`.
#[verifier::external_body]
fn bytes_less(a: &Vec<u8>, b: &Vec<u8>) -> (out: bool)
    ensures
        out == (le_value(a@) < le_value(b@)),
{
    BigUint::from_bytes_le(a) < BigUint::from_bytes_le(b)
}

/// Writes the number that the bytes stand for with the `to_string` of
/// `BigUint`: its decimal numeral.
#[verifier::external_body]
fn bytes_to_string(a: &Vec<u8>) -> (out: String)
    ensures
        out@ == decimal(le_value(a@)),
{
    BigUint::from_bytes_le(a).to_string()
}

fn number(out: Option<Vec<u8>>) -> (n: Option<Ubig>)
    ensures
        match n {
            Some(x) => out matches Some(r) && x@ == le_value(r@),
            None => out is None,
        },
{
    match out {
        Some(bytes) => Some(Ubig { bytes }),
        None => None,
    }
}

impl Clone for Ubig {
    fn clone(&self) -> (out: Self)
        ensures
            out@ == self@,
    {
        let mut bytes: Vec<u8> = Vec::new();
        let mut i: usize = 0;
        while i < self.bytes.len()
            invariant
                i <= self.bytes.len(),
                bytes@ == self.bytes@.subrange(0, i as int),
            decreases self.bytes.len() - i,
        {
            bytes.push(self.bytes[i]);
            i += 1;
            assert(bytes@ =~= self.bytes@.subrange(0, i as int));
        }
        assert(self.bytes@.subrange(0, i as int) =~= self.bytes@);
        Ubig { bytes }
    }
}

impl Ubig {
    /// The number `n`.
    pub fn from_u128(n: u128) -> (out: Ubig)
        ensures
            out@ == n,
    {
        Ubig { bytes: bytes_of_u128(n) }
    }

    /// The number as a `u128`, if it fits.
    pub fn to_u128(&self) -> (out: Option<u128>)
        ensures
            match out {
                Some(n) => self@ == n,
                None => self@ > u128::MAX,
            },
    {
        bytes_to_u128(&self.bytes)
    }

    /// The sum of the two numbers.
    pub fn checked_add(&self, other: &Ubig) -> (out: Option<Ubig>)
        ensures
            out matches Some(r) && r@ == self@ + other@,
    {
        number(bytes_checked_add(&self.bytes, &other.bytes))
    }

    /// The difference of the two numbers, if it is a natural number.
    pub fn checked_sub(&self, other: &Ubig) -> (out: Option<Ubig>)
        ensures
            match out {
                Some(r) => self@ >= other@ && r@ == self@ - other@,
                None => self@ < other@,
            },
    {
        number(bytes_checked_sub(&self.bytes, &other.bytes))
    }

    /// The product of the two numbers.
    pub fn checked_mul(&self, other: &Ubig) -> (out: Option<Ubig>)
        ensures
            out matches Some(r) && r@ == self@ * other@,
    {
        number(bytes_checked_mul(&self.bytes, &other.bytes))
    }

    /// The quotient of the two numbers, rounded down, unless the divisor is
    /// zero.
    pub fn checked_div(&self, other: &Ubig) -> (out: Option<Ubig>)
        ensures
            match out {
                Some(r) => other@ != 0 && r@ == self@ / other@,
                None => other@ == 0,
            },
    {
        number(bytes_checked_div(&self.bytes, &other.bytes))
    }

    /// The remainder of the division of the two numbers, unless the divisor
    /// is zero.
    pub fn checked_rem(&self, other: &Ubig) -> (out: Option<Ubig>)
        ensures
            match out {
                Some(r) => other@ != 0 && r@ == self@ % other@,
                None => other@ == 0,
            },
    {
        if other.is_zero() {
            None
        } else {
            Some(Ubig { bytes: bytes_rem(&self.bytes, &other.bytes) })
        }
    }

    /// Whether the number is less than `other`.
    pub fn less_than(&self, other: &Ubig) -> (out: bool)
        ensures
            out == (self@ < other@),
    {
        bytes_less(&self.bytes, &other.bytes)
    }

    /// Whether the two are the same number.
    pub fn same_as(&self, other: &Ubig) -> (out: bool)
        ensures
            out == (self@ == other@),
    {
        !bytes_less(&self.bytes, &other.bytes) && !bytes_less(&other.bytes, &self.bytes)
    }

    /// Whether the number is zero.
    pub fn is_zero(&self) -> (out: bool)
        ensures
            out == (self@ == 0),
    {
        match self.to_u128() {
            Some(n) => n == 0,
            None => false,
        }
    }

    /// The decimal numeral of the number.
    pub fn to_text(&self) -> (out: String)
        ensures
            out@ == decimal(self@),
    {
        bytes_to_string(&self.bytes)
    }
}

} // verus!
