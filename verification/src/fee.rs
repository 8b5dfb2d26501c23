//! The protocol fee: a basis-point share of a custodied amount, rounded down.

use vstd::prelude::*;

verus! {

/// Custodied value, in the smallest unit of the asset.
pub type Balance = u128;

/// One hundred percent, in basis points.
pub const BPS_DENOMINATOR: u128 = 10000;

/// The fee owed on `amount` at `bps` basis points: `floor(amount * bps / 10000)`.
pub open spec fn fee_of(amount: int, bps: int) -> int {
    (amount * bps) / 10000
}

/// Whether the product `amount * bps` fits the balance type, which the fee
/// computation needs before it divides.
pub open spec fn fee_fits(amount: Balance, bps: u16) -> bool {
    amount * bps <= u128::MAX
}

/// Computes the fee with a checked multiplication followed by the division.
/// `None` means that the multiplication left the range of `Balance`.
pub fn fee(amount: Balance, bps: u16) -> (res: Option<Balance>)
    ensures
        fee_fits(amount, bps) <==> res is Some,
        res is Some ==> res->Some_0 == fee_of(amount as int, bps as int),
        res is Some ==> res->Some_0 * 10000 <= amount * bps < (res->Some_0 + 1) * 10000,
{
    match amount.checked_mul(bps as u128) {
        Some(product) => {
            let f: u128 = product / BPS_DENOMINATOR;
            assert(f * 10000 <= product < (f + 1) * 10000) by (nonlinear_arith)
                requires f == product / 10000;
            Some(f)
        },
        None => None,
    }
}

} // verus!
