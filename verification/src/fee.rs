use vstd::prelude::*;

use crate::addr::Address;
use crate::error::HookError;

verus! {

/// Basis-point fee numerator: the share of each transfer that is destroyed.
pub const FEE_NUMERATOR: u64 = 1;

/// Basis-point fee denominator: fees are parts per ten thousand.
pub const FEE_DENOMINATOR: u64 = 10000;

/// The amount of value destroyed when `amount` is transferred: the integer
/// floor of `amount * FEE_NUMERATOR / FEE_DENOMINATOR`.
pub open spec fn spec_burn_amount(amount: u64) -> int {
    (amount * FEE_NUMERATOR) / (FEE_DENOMINATOR as int)
}

/// The amount of value that reaches the destination: the transferred amount
/// less the burned fee.
pub open spec fn spec_transfer_amount(amount: u64) -> int {
    amount - spec_burn_amount(amount)
}

/// The fee split never loses or creates value: burn and transfer parts sum
/// back to the original amount, and the burned part never exceeds it.
pub proof fn lemma_fee_split_conserves_value(amount: u64)
    ensures
        spec_burn_amount(amount) + spec_transfer_amount(amount) == amount,
        0 <= spec_burn_amount(amount) <= amount,
        0 <= spec_transfer_amount(amount) <= amount,
{
    assert(spec_burn_amount(amount) == (amount as int) / (FEE_DENOMINATOR as int));
    assert(0 <= (amount as int) / (FEE_DENOMINATOR as int) <= amount as int) by (nonlinear_arith);
}

/// The two quantities a fee-bearing transfer moves: `burn_amount` is
/// destroyed from the source, `transfer_amount` reaches the destination.
#[derive(Debug)]
pub struct FeeSplit {
    pub burn_amount: u64,
    pub transfer_amount: u64,
}

/// Splits a transferred amount into the part to destroy and the part to move,
/// using overflow-checked arithmetic throughout. Every `u64` amount splits
/// without overflow under the current basis-point policy.
pub fn split_fee(amount: u64) -> (r: Result<FeeSplit, HookError>)
    ensures
        r is Ok,
        r matches Ok(s) ==> {
            &&& s.burn_amount == spec_burn_amount(amount)
            &&& s.transfer_amount == spec_transfer_amount(amount)
            &&& s.burn_amount + s.transfer_amount == amount
            &&& s.burn_amount <= amount
        },
{
    let scaled = match amount.checked_mul(FEE_NUMERATOR) {
        Some(s) => s,
        None => {
            return Err(HookError::ArithmeticOverflow);
        },
    };
    let burn_amount = match scaled.checked_div(FEE_DENOMINATOR) {
        Some(b) => b,
        None => {
            return Err(HookError::ArithmeticOverflow);
        },
    };
    proof {
        lemma_fee_split_conserves_value(amount);
    }
    let transfer_amount = match amount.checked_sub(burn_amount) {
        Some(t) => t,
        None => {
            return Err(HookError::ArithmeticOverflow);
        },
    };
    Ok(FeeSplit { burn_amount, transfer_amount })
}

/// Identity of a token type, with the decimal precision that delegated
/// operations must carry for validation by the token-accounting collaborator.
#[derive(Debug)]
pub struct MintInfo {
    pub address: Address,
    pub decimals: u8,
}

/// The fields of a balance-holding account that this module's validation
/// reads: the mint it is bound to and its owning identity.
#[derive(Debug)]
pub struct TokenAccountInfo {
    pub mint: Address,
    pub owner: Address,
}

/// The two delegated ledger operations a fee-bearing transfer performs, in
/// order: destroy `burn_amount` from the source, then move `transfer_amount`
/// from the source to the destination, both authorized by the owner and
/// carrying the mint's decimal precision. A zero `burn_amount` is still
/// issued as a (no-op) destroy operation.
#[derive(Debug)]
pub struct TransferPlan {
    pub burn_amount: u64,
    pub transfer_amount: u64,
    pub decimals: u8,
}

/// What `process_burn_and_transfer` decides for each input: which constraint
/// violation rejects it, or the exact plan it issues.
pub open spec fn spec_process_burn_and_transfer(
    amount: u64,
    mint: MintInfo,
    source: TokenAccountInfo,
    destination: TokenAccountInfo,
    owner: Address,
    owner_is_signer: bool,
) -> Result<TransferPlan, HookError> {
    if source.mint@ != mint.address@ || destination.mint@ != mint.address@ {
        Err(HookError::MintMismatch)
    } else if source.owner@ != owner@ {
        Err(HookError::OwnerMismatch)
    } else if !owner_is_signer {
        Err(HookError::MissingRequiredSignature)
    } else {
        Ok(
            TransferPlan {
                burn_amount: spec_burn_amount(amount) as u64,
                transfer_amount: spec_transfer_amount(amount) as u64,
                decimals: mint.decimals,
            },
        )
    }
}

/// The fee-bearing transfer entry point. Validates that source and
/// destination share the mint, that the source's recorded owner is the
/// authorizing signer, then computes the fee split with checked arithmetic.
/// Returns the plan of the two delegated operations; the caller performs
/// them in order, so a failed burn aborts before any move is attempted.
pub fn process_burn_and_transfer(
    amount: u64,
    mint: &MintInfo,
    source: &TokenAccountInfo,
    destination: &TokenAccountInfo,
    owner: &Address,
    owner_is_signer: bool,
) -> (r: Result<TransferPlan, HookError>)
    ensures
        r == spec_process_burn_and_transfer(amount, *mint, *source, *destination, *owner, owner_is_signer),
{
    if !source.mint.same_as(&mint.address) || !destination.mint.same_as(&mint.address) {
        return Err(HookError::MintMismatch);
    }
    if !source.owner.same_as(owner) {
        return Err(HookError::OwnerMismatch);
    }
    if !owner_is_signer {
        return Err(HookError::MissingRequiredSignature);
    }
    let split = split_fee(amount)?;
    Ok(
        TransferPlan {
            burn_amount: split.burn_amount,
            transfer_amount: split.transfer_amount,
            decimals: mint.decimals,
        },
    )
}

} // verus!
