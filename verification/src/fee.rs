use vstd::prelude::*;

verus! {

use crate::error::LaunchTokenError;

/// When the ledger's value-transfer primitive accepts a transfer: the payer
/// must have the amount, and the destination's balance must not exceed its
/// numeric ceiling afterwards.
pub open spec fn transfer_ok(payer: u64, destination: u64, amount: u64) -> bool {
    payer >= amount && destination + amount <= u64::MAX
}

/// Whether the ledger's value-transfer primitive would accept this transfer.
pub fn can_transfer(payer: u64, destination: u64, amount: u64) -> (b: bool)
    ensures
        b == transfer_ok(payer, destination, amount),
{
    amount <= payer && destination.checked_add(amount).is_some()
}

/// Move `amount` base value units from the payer to the fee destination,
/// atomically with the enclosing operation. A refused transfer changes
/// neither balance.
pub fn collect(payer: &mut u64, destination: &mut u64, amount: u64) -> (r: Result<
    (),
    LaunchTokenError,
>)
    ensures
        r is Ok <==> transfer_ok(*old(payer), *old(destination), amount),
        r is Ok ==> *final(payer) == *old(payer) - amount && *final(destination) == *old(
            destination,
        ) + amount,
        r is Err ==> r == Err::<(), LaunchTokenError>(LaunchTokenError::FeeTransferFailed)
            && *final(payer) == *old(payer) && *final(destination) == *old(destination),
{
    if amount <= *payer {
        match destination.checked_add(amount) {
            Some(credited) => {
                *payer = *payer - amount;
                *destination = credited;
                Ok(())
            },
            None => Err(LaunchTokenError::FeeTransferFailed),
        }
    } else {
        Err(LaunchTokenError::FeeTransferFailed)
    }
}

} // verus!
