//! Domain-rule checks raised by wallet logic itself. These failures are
//! constructed directly as unified domain variants: they are not
//! collaborator failures and never route through a collaborator union,
//! even when a collaborator call succeeded just before the rule was
//! checked.

use vstd::prelude::*;

use crate::error::Error;

verus! {

/// Checks that a transfer or stake of `requested` can be paid from
/// `available` funds. A zero amount is rejected before the balance is
/// consulted; an amount above the available funds yields the
/// insufficient-balance domain error, never an I/O or network tag.
pub fn check_transfer(available: u64, requested: u64) -> (r: Result<(), Error>)
    ensures
        r is Ok <==> 1 <= requested <= available,
        requested == 0 ==> (r matches Err(e) && e == Error::AmountIsZero),
        requested >= 1 && requested > available ==> (r matches Err(e) && e
            == Error::NotEnoughBalance),
{
    if requested == 0 {
        Err(Error::AmountIsZero)
    } else if requested > available {
        Err(Error::NotEnoughBalance)
    } else {
        Ok(())
    }
}

/// Checks that the gas the caller offers covers the cost of the
/// transaction. A shortfall yields the insufficient-gas domain error.
pub fn check_gas(offered: u64, cost: u64) -> (r: Result<(), Error>)
    ensures
        r is Ok <==> offered >= cost,
        offered < cost ==> (r matches Err(e) && e == Error::NotEnoughGas),
{
    if offered < cost {
        Err(Error::NotEnoughGas)
    } else {
        Ok(())
    }
}

/// Checks the version found in a wallet file header against the version
/// this client expects. A mismatch yields the version-skew lifecycle error
/// carrying first the version found, then the version expected, so that
/// remediation can name both.
pub fn check_file_version(found: u8, expected: u8) -> (r: Result<(), Error>)
    ensures
        r is Ok <==> found == expected,
        found != expected ==> (r matches Err(e) && e == Error::UnknownFileVersion(
            found,
            expected,
        )),
{
    if found == expected {
        Ok(())
    } else {
        Err(Error::UnknownFileVersion(found, expected))
    }
}

} // verus!
