use vstd::prelude::*;

verus! {

/// The ways an operation of the ledger can fail. A failed operation leaves
/// every part of the state as it was.
#[derive(PartialEq, Eq, Structural, Debug, Clone, Copy)]
pub enum TokenError {
    AlreadyInitialized,
    Uninitialized,
    InvalidDecimal,
    NegativeAmount,
    Overflow,
    InsufficientBalance,
    InsufficientAllowance,
    NotAuthorized,
}

/// Rejects a negative amount before any ledger is touched.
pub fn check_nonnegative_amount(amount: i128) -> (r: Result<(), TokenError>)
    ensures
        r is Ok <==> amount >= 0,
        r is Err ==> r == Err::<(), TokenError>(TokenError::NegativeAmount),
{
    if amount < 0 {
        Err(TokenError::NegativeAmount)
    } else {
        Ok(())
    }
}

} // verus!
