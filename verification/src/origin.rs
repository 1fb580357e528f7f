//! Call origins and the errors a dispatched call returns.
use vstd::prelude::*;
use crate::account::AccountId;

verus! {

/// Where a call comes from.
#[derive(Clone, Copy, PartialEq, Eq, Debug)]
pub enum RawOrigin {
    /// The root (sudo) origin.
    Root,
    /// A call signed by an account.
    Signed(AccountId),
    /// An unsigned call.
    Unsigned,
}

/// Why a dispatched call failed.
#[derive(Clone, Copy, PartialEq, Eq, Debug)]
pub enum DispatchError {
    /// The origin may not make this call.
    BadOrigin,
    /// An error of the validator-set pallet.
    ValidatorSet(crate::validator_set::Error),
    /// An error of the Elysium pallet.
    Elysium(crate::elysium::Error),
}

/// The result of `ensure_root` on an origin.
pub open spec fn root_check(origin: RawOrigin) -> Result<(), DispatchError> {
    if origin is Root {
        Ok(())
    } else {
        Err(DispatchError::BadOrigin)
    }
}

/// Accepts the root origin and refuses every other with `BadOrigin`.
pub fn ensure_root(origin: &RawOrigin) -> (r: Result<(), DispatchError>)
    ensures
        r == root_check(*origin),
{
    match origin {
        RawOrigin::Root => Ok(()),
        _ => Err(DispatchError::BadOrigin),
    }
}

} // verus!
