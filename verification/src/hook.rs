use vstd::prelude::*;

use crate::addr::Address;
use crate::error::HookError;
use crate::fee::TokenAccountInfo;
use crate::pda::{derive_authority_address, derive_table_address, derived_address,
    spec_authority_seeds, spec_table_seeds};

verus! {

/// What the transfer-hook body decides for each input: the first constraint
/// it finds violated, or success. Trust is anchored by the two address
/// derivations: the resolution table must sit at the address derived from the
/// mint, and the supplied authority must be the module's derived anchor.
pub open spec fn spec_transfer_hook_check(
    source: TokenAccountInfo,
    mint: Seq<u8>,
    destination: TokenAccountInfo,
    owner: Seq<u8>,
    supplied_table: Seq<u8>,
    supplied_authority: Seq<u8>,
    program_id: Seq<u8>,
) -> Result<(), HookError> {
    if source.mint@ != mint || destination.mint@ != mint {
        Err(HookError::MintMismatch)
    } else if source.owner@ != owner {
        Err(HookError::OwnerMismatch)
    } else {
        match derived_address(spec_table_seeds(mint), program_id) {
            None => Err(HookError::AddressDerivationFailed),
            Some(table) => if supplied_table != table.0 {
                Err(HookError::ResolutionTableMismatch)
            } else {
                match derived_address(spec_authority_seeds(), program_id) {
                    None => Err(HookError::AddressDerivationFailed),
                    Some(auth) => if supplied_authority != auth.0 {
                        Err(HookError::AuthorityMismatch)
                    } else {
                        Ok(())
                    },
                }
            },
        }
    }
}

/// The accounts a transfer-hook invocation supplies: the source and
/// destination balance accounts, the mint they move, the source's owner, the
/// address the resolution table is claimed to sit at, and the claimed
/// stateless authority anchor.
#[derive(Debug)]
pub struct TransferHook {
    pub source_token: TokenAccountInfo,
    pub mint: Address,
    pub destination_token: TokenAccountInfo,
    pub owner: Address,
    pub extra_account_meta_list: Address,
    pub mint_authority: Address,
}

/// The hook body invoked by the token authority during a transfer. Validates
/// that source and destination reference the mint, that the source's recorded
/// owner is the given owner (the owner does not sign here: the call arrives
/// by delegated invocation, so trust rests on the derivation checks), that
/// the supplied resolution-table address matches the derivation from the
/// mint, and that the supplied authority matches the fixed-seed derivation.
/// The current policy performs no balance mutation beyond these checks; a
/// failure aborts the enclosing transfer as a whole. The transferred amount
/// is accepted unchanged and carries no further obligation here.
pub fn transfer_hook(accounts: &TransferHook, amount: u64, program_id: &Address) -> (r: Result<
    (),
    HookError,
>)
    requires
        program_id.wf(),
    ensures
        r == spec_transfer_hook_check(
            accounts.source_token,
            accounts.mint@,
            accounts.destination_token,
            accounts.owner@,
            accounts.extra_account_meta_list@,
            accounts.mint_authority@,
            program_id@,
        ),
{
    let _ = amount;
    let mint = &accounts.mint;
    if !accounts.source_token.mint.same_as(mint) || !accounts.destination_token.mint.same_as(
        mint,
    ) {
        return Err(HookError::MintMismatch);
    }
    if !accounts.source_token.owner.same_as(&accounts.owner) {
        return Err(HookError::OwnerMismatch);
    }
    let table = match derive_table_address(mint, program_id) {
        Some(p) => p.0,
        None => {
            return Err(HookError::AddressDerivationFailed);
        },
    };
    if !accounts.extra_account_meta_list.same_as(&table) {
        return Err(HookError::ResolutionTableMismatch);
    }
    let authority = match derive_authority_address(program_id) {
        Some(p) => p.0,
        None => {
            return Err(HookError::AddressDerivationFailed);
        },
    };
    if !accounts.mint_authority.same_as(&authority) {
        return Err(HookError::AuthorityMismatch);
    }
    Ok(())
}

/// The hook body rejects execution whenever the supplied resolution-table
/// address differs from the deterministic derivation from the mint, even when
/// every other input is valid.
pub proof fn lemma_hook_rejects_wrong_table(
    source: TokenAccountInfo,
    mint: Seq<u8>,
    destination: TokenAccountInfo,
    owner: Seq<u8>,
    supplied_table: Seq<u8>,
    supplied_authority: Seq<u8>,
    program_id: Seq<u8>,
)
    requires
        forall|table: Seq<u8>, bump: u8|
            derived_address(spec_table_seeds(mint), program_id) == Some((table, bump))
                ==> supplied_table != table,
    ensures
        spec_transfer_hook_check(
            source,
            mint,
            destination,
            owner,
            supplied_table,
            supplied_authority,
            program_id,
        ) is Err,
{
    match derived_address(spec_table_seeds(mint), program_id) {
        None => {},
        Some(table) => {
            assert(derived_address(spec_table_seeds(mint), program_id) == Some(
                (table.0, table.1),
            ));
            assert(supplied_table != table.0);
        },
    }
}

} // verus!
