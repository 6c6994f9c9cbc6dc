//! The arbitrary-precision number literals carried by S-expressions.
//!
//! The numbers themselves come from the `num` crate; this crate only stores
//! and renders them. `big_val` names the natural number a `BigUint` holds.

use vstd::prelude::*;
use crate::text::dec_str;

verus! {

#[verifier::external_type_specification]
#[verifier::external_body]
pub struct ExBigUint(num::BigUint);

/// The natural number a `BigUint` holds.
pub uninterp spec fn big_val(n: num::BigUint) -> nat;

/// Relies on `num::BigUint::to_str_radix` with radix ten: the decimal digits
/// of the number, most significant first, without leading zeroes, and `"0"`
/// for zero.
#[verifier::external_body]
pub(crate) fn big_to_decimal(n: &num::BigUint) -> (r: String)
    ensures
        r@ == dec_str(big_val(*n)),
{
    n.to_str_radix(10)
}

} // verus!
