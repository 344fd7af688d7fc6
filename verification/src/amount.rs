//! Token amounts in the smallest unit, and their conversion to and from the
//! 256-bit integer form of the EVM-compatible runtime.
//!
//! An amount is held as its canonical decimal numeral, so it carries
//! arbitrary precision; the conversion to the 256-bit form fails exactly when
//! the value needs more than 256 bits.

use vstd::prelude::*;
use crate::errors::Error;
use crate::numeric::{
    all_dec_digits, be_of, be_val, canonical_dec, dec_of, dec_value, is_dec_digit,
    lemma_be_of_val, lemma_dec_of_value, lemma_dec_value_of, pow256,
};

verus! {

/// A token amount denominated in the smallest unit.
#[derive(Debug, Clone, PartialEq, Eq)]
pub struct TokenAmount {
    atto: Vec<u8>,
}

impl TokenAmount {
    /// The decimal numeral of the amount.
    pub closed spec fn atto_spec(&self) -> Seq<u8> {
        self.atto@
    }

    /// The numeral is canonical: digits only, no leading zero.
    pub open spec fn wf(&self) -> bool {
        canonical_dec(self.atto_spec())
    }

    /// The number the amount denotes.
    pub open spec fn value(&self) -> nat {
        dec_value(self.atto_spec())
    }

    /// Builds an amount from the decimal numeral of its smallest-unit value;
    /// rejects anything but a canonical numeral.
    pub fn from_atto(digits: Vec<u8>) -> (r: Option<TokenAmount>)
        ensures
            r is Some <==> canonical_dec(digits@),
            r matches Some(a) ==> a.wf() && a.atto_spec() == digits@,
    {
        if digits.len() == 0 {
            return None;
        }
        if digits.len() > 1 && digits[0] == 48 {
            return None;
        }
        let mut i: usize = 0;
        while i < digits.len()
            invariant
                i <= digits.len(),
                forall|j: int| 0 <= j < i ==> is_dec_digit(#[trigger] digits@[j]),
            decreases digits.len() - i,
        {
            if digits[i] < 48 || digits[i] > 57 {
                return None;
            }
            i += 1;
        }
        Some(TokenAmount { atto: digits })
    }

    /// The zero amount.
    pub fn zero() -> (r: TokenAmount)
        ensures
            r.wf(),
            r.value() == 0,
    {
        let mut digits: Vec<u8> = Vec::new();
        digits.push(48);
        let r = TokenAmount { atto: digits };
        proof {
            assert(r.atto@ =~= seq![48u8]);
            assert(r.atto@.drop_last().len() == 0);
            assert(dec_value(r.atto@.drop_last()) == 0);
        }
        r
    }

    /// The decimal numeral of the amount, digits only.
    pub fn atto(&self) -> (r: &Vec<u8>)
        ensures
            r@ == self.atto_spec(),
    {
        &self.atto
    }
}

/// Relies on `ethers_core::types::U256::from_dec_str` (the `uint` crate): it
/// folds ASCII decimal digits into a 256-bit integer, rejects any other byte
/// and any value of 256 bits or more; and on `U256::to_big_endian` for the
/// 32-byte big-endian form of the parsed value.
#[verifier::external_body]
fn u256_from_dec_bytes(digits: &Vec<u8>) -> (r: Option<Vec<u8>>)
    ensures
        match r {
            Some(be) => {
                &&& all_dec_digits(digits@)
                &&& dec_value(digits@) < pow256(32)
                &&& be@ == be_of(dec_value(digits@), 32)
                &&& be@.len() == 32
            },
            None => !(all_dec_digits(digits@) && dec_value(digits@) < pow256(32)),
        },
{
    let s = match core::str::from_utf8(digits.as_slice()) {
        Ok(s) => s,
        Err(_) => return None,
    };
    let u = match ethers_core::types::U256::from_dec_str(s) {
        Ok(u) => u,
        Err(_) => return None,
    };
    let mut be = [0u8; 32];
    u.to_big_endian(&mut be);
    Some(be.to_vec())
}

/// Relies on `ethers_core::types::U256::from_big_endian` and the `Display`
/// impl of `U256` (the `uint` crate): the displayed form is the canonical
/// decimal numeral of the value, `"0"` for zero, with no leading zeros.
#[verifier::external_body]
fn u256_to_dec_bytes(be: &Vec<u8>) -> (r: Vec<u8>)
    requires
        be@.len() <= 32,
    ensures
        r@ == dec_of(be_val(be@)),
{
    let u = ethers_core::types::U256::from_big_endian(be.as_slice());
    format!("{}", u).into_bytes()
}

/// Converts a native token amount into the 32-byte big-endian form of the
/// EVM-compatible runtime's 256-bit integer. Fails exactly when the numeral
/// is malformed or the value needs more than 256 bits.
pub fn fil_to_eth_amount(amount: &TokenAmount) -> (r: Result<Vec<u8>, Error>)
    ensures
        r is Ok <==> all_dec_digits(amount.atto_spec()) && amount.value() < pow256(32),
        r matches Ok(be) ==> be@ == be_of(amount.value(), 32) && be@.len() == 32,
        r is Err ==> r matches Err(Error::InvalidAmount),
{
    match u256_from_dec_bytes(&amount.atto) {
        Some(be) => Ok(be),
        None => Err(Error::InvalidAmount),
    }
}

/// Converts the 32-byte big-endian form of a 256-bit integer back into a
/// native token amount holding the canonical decimal numeral of the value.
pub fn eth_to_fil_amount(be: &Vec<u8>) -> (r: Result<TokenAmount, Error>)
    requires
        be@.len() <= 32,
    ensures
        r matches Ok(a) && a.wf() && a.atto_spec() == dec_of(be_val(be@)),
        r matches Ok(a) ==> a.value() == be_val(be@),
{
    let digits = u256_to_dec_bytes(be);
    proof {
        lemma_dec_of_value(be_val(be@));
    }
    Ok(TokenAmount { atto: digits })
}

/// Amount round-trip law: a well-formed amount of fewer than 256 bits,
/// carried into the 256-bit runtime form and back, is the identical numeral.
pub proof fn lemma_amount_round_trip(a: TokenAmount)
    requires
        a.wf(),
        a.value() < pow256(32),
    ensures
        dec_of(be_val(be_of(a.value(), 32))) == a.atto_spec(),
{
    lemma_be_of_val(a.value(), 32);
    lemma_dec_value_of(a.atto_spec());
}

} // verus!
