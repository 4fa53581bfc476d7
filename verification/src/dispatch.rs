//! Origins and dispatch errors shared by the pallets.

use vstd::prelude::*;

verus! {

/// The account type of the runtime.
pub type AccountId = u64;

/// Where a call comes from.
#[derive(Clone, Copy, Debug, PartialEq, Eq)]
pub enum Origin {
    /// A call signed by an account.
    Signed(AccountId),
    /// A call made with root privileges.
    Root,
    /// An unsigned call.
    Unsigned,
}

/// Arithmetic failures, as `sp_runtime::ArithmeticError` names them.
#[derive(Clone, Copy, Debug, PartialEq, Eq)]
pub enum ArithmeticError {
    Underflow,
    Overflow,
    DivisionByZero,
}

} // verus!

verus! {

/// Why a call failed.
#[derive(Clone, Copy, Debug, PartialEq, Eq)]
pub enum DispatchError {
    /// The origin may not make this call.
    BadOrigin,
    /// An arithmetic operation failed.
    Arithmetic(ArithmeticError),
    /// An error of the investments pallet.
    Investments(crate::investments::types::Error),
    /// An error of the order book pallet.
    OrderBook(crate::order_book::types::Error),
    /// An error that the runtime raised outside these pallets, by its code.
    Runtime(u32),
}

/// The signer of a signed origin, or `BadOrigin`.
pub fn ensure_signed(origin: Origin) -> (r: Result<AccountId, DispatchError>)
    ensures
        r == spec_ensure_signed(origin),
{
    match origin {
        Origin::Signed(who) => Ok(who),
        _ => Err(DispatchError::BadOrigin),
    }
}

/// The signer of a signed origin, or `BadOrigin`.
pub open spec fn spec_ensure_signed(origin: Origin) -> Result<AccountId, DispatchError> {
    match origin {
        Origin::Signed(who) => Ok(who),
        _ => Err(DispatchError::BadOrigin),
    }
}

} // verus!
