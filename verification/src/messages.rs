//! Human-readable reports of broken rules, for the transaction-rejection
//! path.

use vstd::prelude::*;
use vstd::string::StringExecFns;

use crate::tracer::{ValidationError, ViolatedValidationRule};
use crate::words::{address_be_bytes, address_to_be_bytes, word_be_bytes, word_to_be_bytes};

verus! {

/// The lowercase hex digit of a nibble.
pub open spec fn spec_hex_digit(n: u8) -> char
    recommends
        n < 16,
{
    if n == 0 {
        '0'
    } else if n == 1 {
        '1'
    } else if n == 2 {
        '2'
    } else if n == 3 {
        '3'
    } else if n == 4 {
        '4'
    } else if n == 5 {
        '5'
    } else if n == 6 {
        '6'
    } else if n == 7 {
        '7'
    } else if n == 8 {
        '8'
    } else if n == 9 {
        '9'
    } else if n == 10 {
        'a'
    } else if n == 11 {
        'b'
    } else if n == 12 {
        'c'
    } else if n == 13 {
        'd'
    } else if n == 14 {
        'e'
    } else {
        'f'
    }
}

/// Two lowercase hex digits for each byte, high nibble first.
pub open spec fn spec_hex_of(bytes: Seq<u8>) -> Seq<char> {
    Seq::new(
        bytes.len() * 2,
        |i: int|
            if i % 2 == 0 {
                spec_hex_digit(bytes[i / 2] / 16)
            } else {
                spec_hex_digit(bytes[i / 2] % 16)
            },
    )
}

/// Relies on `hex::encode`: each input byte becomes exactly two lowercase
/// hex digits, high nibble first.
#[verifier::external_body]
fn hex_encode(bytes: &Vec<u8>) -> (r: String)
    ensures
        r@ == spec_hex_of(bytes@),
{
    hex::encode(bytes.as_slice())
}

/// The decimal digits of a non-negative integer, most significant first, no
/// sign and no padding.
pub open spec fn spec_decimal_of(n: int) -> Seq<char>
    decreases n,
{
    if n < 0 {
        Seq::empty()
    } else if n < 10 {
        seq![spec_hex_digit(n as u8)]
    } else {
        spec_decimal_of(n / 10).push(spec_hex_digit((n % 10) as u8))
    }
}

/// Relies on std's integer formatting: the decimal digits of the value,
/// most significant first, no sign and no padding.
#[verifier::external_body]
fn decimal_format(n: u32) -> (r: String)
    ensures
        r@ == spec_decimal_of(n as int),
{
    format!("{}", n)
}

/// The report of a broken rule, as shown in the rejection reason.
pub open spec fn spec_rule_message(rule: ViolatedValidationRule) -> Seq<char> {
    match rule {
        ViolatedValidationRule::TouchedUnallowedStorageSlots(address, key) => {
            "Touched unallowed storage slots: address "@ + spec_hex_of(address_be_bytes(address))
                + ", key: "@ + spec_hex_of(word_be_bytes(key))
        },
        ViolatedValidationRule::CalledContractWithNoCode(address) => {
            "Called contract with no code: "@ + spec_hex_of(address_be_bytes(address))
        },
        ViolatedValidationRule::TouchedUnallowedContext => "Touched unallowed context"@,
        ViolatedValidationRule::TookTooManyComputationalGas(gas_limit) => {
            "Took too many computational gas, allowed limit: "@ + spec_decimal_of(gas_limit as int)
        },
    }
}

/// The report of a validation failure.
pub open spec fn spec_error_message(error: ValidationError) -> Seq<char> {
    match error {
        ValidationError::FailedTx(revert_reason) => "Validation revert: "@ + revert_reason@,
        ValidationError::ViolatedRule(rule) => "Violated validation rules: "@ + spec_rule_message(
            rule,
        ),
    }
}

impl ViolatedValidationRule {
    /// The report of this broken rule.
    pub fn message(&self) -> (r: String)
        ensures
            r@ == spec_rule_message(*self),
    {
        match self {
            ViolatedValidationRule::TouchedUnallowedStorageSlots(address, key) => {
                let address_hex = hex_encode(&address_to_be_bytes(address));
                let key_hex = hex_encode(&word_to_be_bytes(key));
                let s = String::from_str("Touched unallowed storage slots: address ");
                let s = s.concat(address_hex.as_str());
                let s = s.concat(", key: ");
                s.concat(key_hex.as_str())
            },
            ViolatedValidationRule::CalledContractWithNoCode(address) => {
                let address_hex = hex_encode(&address_to_be_bytes(address));
                let s = String::from_str("Called contract with no code: ");
                s.concat(address_hex.as_str())
            },
            ViolatedValidationRule::TouchedUnallowedContext => {
                String::from_str("Touched unallowed context")
            },
            ViolatedValidationRule::TookTooManyComputationalGas(gas_limit) => {
                let limit_decimal = decimal_format(*gas_limit);
                let s = String::from_str("Took too many computational gas, allowed limit: ");
                s.concat(limit_decimal.as_str())
            },
        }
    }
}

impl ValidationError {
    /// The report of this validation failure.
    pub fn message(&self) -> (r: String)
        ensures
            r@ == spec_error_message(*self),
    {
        match self {
            ValidationError::FailedTx(revert_reason) => {
                let s = String::from_str("Validation revert: ");
                s.concat(revert_reason.as_str())
            },
            ValidationError::ViolatedRule(rule) => {
                let s = String::from_str("Violated validation rules: ");
                s.concat(rule.message().as_str())
            },
        }
    }
}

} // verus!
