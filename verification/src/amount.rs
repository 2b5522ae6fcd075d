//! Token amounts: signed integers of any size.

use fvm_ipld_encoding::to_vec;
use fvm_shared::bigint::bigint_ser::BigIntSer;
use fvm_shared::bigint::BigInt;
use fvm_shared::bigint::Sign;
use vstd::arithmetic::power::pow;
use vstd::prelude::*;

verus! {

/// The natural number that `bytes` spell in base 256, most significant byte first.
pub open spec fn magnitude_value(bytes: Seq<u8>) -> nat
    decreases bytes.len(),
{
    if bytes.len() == 0 {
        0
    } else {
        magnitude_value(bytes.drop_last()) * 256 + bytes.last() as nat
    }
}

/// The integer with the given sign and magnitude.
pub open spec fn signed_value(negative: bool, magnitude: Seq<u8>) -> int {
    if negative {
        -(magnitude_value(magnitude) as int)
    } else {
        magnitude_value(magnitude) as int
    }
}

/// Whether a number can be stored: its magnitude takes at most 127 bytes.
pub open spec fn storable(value: int) -> bool {
    -pow(256, 127) < value < pow(256, 127)
}

/// An amount of tokens, held as a sign and the bytes of a magnitude, most
/// significant byte first. One number can be held in several ways (with leading
/// zero bytes, or as a negative zero): what counts is the view.
#[derive(Debug)]
pub struct TokenAmount {
    pub negative: bool,
    pub magnitude: Vec<u8>,
}

impl View for TokenAmount {
    type V = int;

    open spec fn view(&self) -> int {
        signed_value(self.negative, self.magnitude@)
    }
}

/// `BigInt::from` on a `u64`, read back with `BigInt::to_bytes_be`: the sign and
/// the big-endian bytes of `value`.
#[verifier::external_body]
fn big_from_u64(value: u64) -> (amount: TokenAmount)
    ensures
        amount@ == value,
{
    let (sign, magnitude) = BigInt::from(value).to_bytes_be();
    TokenAmount { negative: matches!(sign, Sign::Minus), magnitude }
}

/// `BigInt + BigInt`: the sum of the two integers that `BigInt::from_bytes_be`
/// makes of the operands, read back with `BigInt::to_bytes_be`.
#[verifier::external_body]
fn big_sum(left: &TokenAmount, right: &TokenAmount) -> (sum: TokenAmount)
    ensures
        sum@ == left@ + right@,
{
    let a = BigInt::from_bytes_be(if left.negative { Sign::Minus } else { Sign::Plus }, &left.magnitude);
    let b = BigInt::from_bytes_be(if right.negative { Sign::Minus } else { Sign::Plus }, &right.magnitude);
    let (sign, magnitude) = (a + b).to_bytes_be();
    TokenAmount { negative: matches!(sign, Sign::Minus), magnitude }
}

/// `BigInt - BigInt`: the difference of the two integers that
/// `BigInt::from_bytes_be` makes of the operands, read back with
/// `BigInt::to_bytes_be`.
#[verifier::external_body]
fn big_difference(left: &TokenAmount, right: &TokenAmount) -> (difference: TokenAmount)
    ensures
        difference@ == left@ - right@,
{
    let a = BigInt::from_bytes_be(if left.negative { Sign::Minus } else { Sign::Plus }, &left.magnitude);
    let b = BigInt::from_bytes_be(if right.negative { Sign::Minus } else { Sign::Plus }, &right.magnitude);
    let (sign, magnitude) = (a - b).to_bytes_be();
    TokenAmount { negative: matches!(sign, Sign::Minus), magnitude }
}

/// `BigInt < BigInt`: whether the first of the two integers that
/// `BigInt::from_bytes_be` makes of the operands is the smaller.
#[verifier::external_body]
fn big_less(left: &TokenAmount, right: &TokenAmount) -> (less: bool)
    ensures
        less == (left@ < right@),
{
    let a = BigInt::from_bytes_be(if left.negative { Sign::Minus } else { Sign::Plus }, &left.magnitude);
    let b = BigInt::from_bytes_be(if right.negative { Sign::Minus } else { Sign::Plus }, &right.magnitude);
    a < b
}

/// `fvm_ipld_encoding::to_vec` on the integer that `BigInt::from_bytes_be`
/// makes of the amount, as the byte string of a big integer: the encoder takes
/// it where sign and magnitude together have at most 128 bytes.
#[verifier::external_body]
fn big_storable(amount: &TokenAmount) -> (fits: bool)
    ensures
        fits == storable(amount@),
{
    let sign = if amount.negative { Sign::Minus } else { Sign::Plus };
    let value = BigInt::from_bytes_be(sign, &amount.magnitude);
    to_vec(&BigIntSer(&value)).is_ok()
}

impl TokenAmount {
    /// Whether the amount can be stored, as a balance or as a supply cap.
    pub fn is_storable(&self) -> (fits: bool)
        ensures
            fits == storable(self@),
    {
        big_storable(self)
    }

    /// No tokens.
    pub fn zero() -> (amount: TokenAmount)
        ensures
            amount@ == 0,
    {
        TokenAmount { negative: false, magnitude: Vec::new() }
    }

    /// The amount of `value` tokens.
    pub fn from_u64(value: u64) -> (amount: TokenAmount)
        ensures
            amount@ == value,
    {
        big_from_u64(value)
    }

    /// The same number with the other sign.
    pub fn negated(&self) -> (amount: TokenAmount)
        ensures
            amount@ == -self@,
    {
        TokenAmount { negative: !self.negative, magnitude: self.magnitude.clone() }
    }

    /// The sum of two amounts.
    pub fn plus(&self, other: &TokenAmount) -> (amount: TokenAmount)
        ensures
            amount@ == self@ + other@,
    {
        big_sum(self, other)
    }

    /// What is left of this amount when `other` is taken from it.
    pub fn minus(&self, other: &TokenAmount) -> (amount: TokenAmount)
        ensures
            amount@ == self@ - other@,
    {
        big_difference(self, other)
    }

    /// Whether this amount is smaller than `other`.
    pub fn less_than(&self, other: &TokenAmount) -> (less: bool)
        ensures
            less == (self@ < other@),
    {
        big_less(self, other)
    }

    /// Whether this amount is below zero.
    pub fn is_negative(&self) -> (below: bool)
        ensures
            below == (self@ < 0),
    {
        let zero = TokenAmount::zero();
        big_less(self, &zero)
    }

    /// Whether the two amounts are the same number.
    pub fn same_value(&self, other: &TokenAmount) -> (same: bool)
        ensures
            same == (self@ == other@),
    {
        !big_less(self, other) && !big_less(other, self)
    }
}

impl Clone for TokenAmount {
    fn clone(&self) -> (amount: TokenAmount)
        ensures
            amount@ == self@,
    {
        TokenAmount { negative: self.negative, magnitude: self.magnitude.clone() }
    }
}

} // verus!
