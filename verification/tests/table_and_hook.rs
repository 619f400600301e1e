use transfer_hook::addr::Address;
use transfer_hook::error::HookError;
use transfer_hook::fee::TokenAccountInfo;
use transfer_hook::hook::{transfer_hook, TransferHook};
use transfer_hook::pda::{derive_authority_address, derive_table_address};
use transfer_hook::table::{
    build_resolution_table, encode_table, initialize_extra_account_meta_list, required_table_size,
    InitializeExtraAccountMetaList, MetaEntry, SAFETY_MARGIN,
};

use solana_pubkey::Pubkey;
use spl_tlv_account_resolution::account::ExtraAccountMeta;
use spl_tlv_account_resolution::seeds::Seed;
use spl_tlv_account_resolution::state::ExtraAccountMetaList;
use spl_transfer_hook_interface::instruction::ExecuteInstruction;

fn addr(byte: u8) -> Address {
    Address::new(vec![byte; 32]).unwrap()
}

fn addr_of(key: &Pubkey) -> Address {
    Address::new(key.to_bytes().to_vec()).unwrap()
}

#[test]
fn required_size_matches_backing_library() {
    for n in [0usize, 1, 5, 7, 100] {
        let expected = ExtraAccountMetaList::size_of(n).unwrap() + SAFETY_MARGIN;
        assert_eq!(required_table_size(n).unwrap(), expected);
    }
    assert_eq!(required_table_size(5).unwrap(), 291);
}

#[test]
fn required_size_is_monotone() {
    let mut last = required_table_size(0).unwrap();
    for n in 1usize..20 {
        let size = required_table_size(n).unwrap();
        assert!(size > last);
        last = size;
    }
}

#[test]
fn required_size_rejects_unrepresentable_count() {
    assert_eq!(required_table_size(usize::MAX).unwrap_err(), HookError::ArithmeticOverflow);
}

#[test]
fn policy_table_has_five_entries() {
    let entries = build_resolution_table(&addr(1), &addr(2), &addr(3));
    assert_eq!(entries.len(), 5);
    match &entries[0] {
        MetaEntry::Literal { address, is_signer, is_writable } => {
            assert_eq!(address.as_bytes(), &vec![1u8; 32]);
            assert!(!is_signer);
            assert!(is_writable);
        },
        _ => panic!("first entry must be the mint literal"),
    }
    match &entries[1] {
        MetaEntry::Literal { address, is_signer, is_writable } => {
            assert_eq!(address.as_bytes(), &vec![2u8; 32]);
            assert!(!is_signer);
            assert!(!is_writable);
        },
        _ => panic!("second entry must be the token program literal"),
    }
    match &entries[2] {
        MetaEntry::Literal { address, .. } => {
            assert_eq!(address.as_bytes(), &vec![3u8; 32]);
        },
        _ => panic!("third entry must be the factory program literal"),
    }
    match &entries[3] {
        MetaEntry::ExternalPda { program_index, seed_account_indices, is_signer, is_writable } => {
            assert_eq!(*program_index, 6);
            assert_eq!(seed_account_indices, &vec![7u8, 2, 5]);
            assert!(!is_signer);
            assert!(is_writable);
        },
        _ => panic!("fourth entry must be a derivation rule"),
    }
    match &entries[4] {
        MetaEntry::ExternalPda { program_index, seed_account_indices, .. } => {
            assert_eq!(*program_index, 6);
            assert_eq!(seed_account_indices, &vec![3u8, 2, 5]);
        },
        _ => panic!("fifth entry must be a derivation rule"),
    }
}

#[test]
fn encoding_matches_backing_library() {
    let mint = Pubkey::new_from_array([11u8; 32]);
    let token_program = Pubkey::new_from_array([22u8; 32]);
    let factory = Pubkey::new_from_array([33u8; 32]);
    let metas = vec![
        ExtraAccountMeta::new_with_pubkey(&mint, false, true).unwrap(),
        ExtraAccountMeta::new_with_pubkey(&token_program, false, false).unwrap(),
        ExtraAccountMeta::new_with_pubkey(&factory, false, false).unwrap(),
        ExtraAccountMeta::new_external_pda_with_seeds(
            6,
            &[
                Seed::AccountKey { index: 7 },
                Seed::AccountKey { index: 2 },
                Seed::AccountKey { index: 5 },
            ],
            false,
            true,
        )
        .unwrap(),
        ExtraAccountMeta::new_external_pda_with_seeds(
            6,
            &[
                Seed::AccountKey { index: 3 },
                Seed::AccountKey { index: 2 },
                Seed::AccountKey { index: 5 },
            ],
            false,
            true,
        )
        .unwrap(),
    ];
    let size = ExtraAccountMetaList::size_of(metas.len()).unwrap();
    let mut reference = vec![0u8; size];
    ExtraAccountMetaList::init::<ExecuteInstruction>(&mut reference, &metas).unwrap();

    let entries = build_resolution_table(&addr_of(&mint), &addr_of(&token_program), &addr_of(&factory));
    let encoded = encode_table(&entries).unwrap();
    assert_eq!(encoded, reference);
}

#[test]
fn encode_rejects_oversized_seed_rule() {
    let entries = vec![MetaEntry::ExternalPda {
        program_index: 200,
        seed_account_indices: vec![1, 2, 3],
        is_signer: false,
        is_writable: false,
    }];
    assert_eq!(encode_table(&entries).unwrap_err(), HookError::InvalidSeedConfiguration);
    let entries = vec![MetaEntry::ExternalPda {
        program_index: 6,
        seed_account_indices: vec![0u8; 17],
        is_signer: false,
        is_writable: false,
    }];
    assert_eq!(encode_table(&entries).unwrap_err(), HookError::InvalidSeedConfiguration);
}

#[test]
fn initialization_is_create_once() {
    let accounts = InitializeExtraAccountMetaList {
        mint: addr(1),
        token_program: addr(2),
        associated_token_program: addr(3),
    };
    let r = initialize_extra_account_meta_list(&accounts, true);
    assert_eq!(r.unwrap_err(), HookError::TableAlreadyOccupied);
}

#[test]
fn initialization_plans_sized_padded_storage() {
    let accounts = InitializeExtraAccountMetaList {
        mint: addr(1),
        token_program: addr(2),
        associated_token_program: addr(3),
    };
    let plan = initialize_extra_account_meta_list(&accounts, false).unwrap();
    assert_eq!(plan.entries.len(), 5);
    assert_eq!(plan.account_size, 291);
    assert_eq!(plan.data.len(), 291);
    assert!(plan.data[191..].iter().all(|b| *b == 0));
    let encoded = encode_table(&plan.entries).unwrap();
    assert_eq!(&plan.data[..191], encoded.as_slice());
}

#[test]
fn table_derivation_matches_ledger_rules() {
    let program = Pubkey::new_from_array([7u8; 32]);
    let mint = Pubkey::new_from_array([9u8; 32]);
    let (expected, expected_bump) =
        Pubkey::find_program_address(&[b"extra-account-metas", mint.as_ref()], &program);
    let (derived, bump) = derive_table_address(&addr_of(&mint), &addr_of(&program)).unwrap();
    assert_eq!(derived.as_bytes().as_slice(), expected.as_ref());
    assert_eq!(bump, expected_bump);
}

#[test]
fn authority_derivation_matches_ledger_rules() {
    let program = Pubkey::new_from_array([7u8; 32]);
    let (expected, expected_bump) =
        Pubkey::find_program_address(&[b"mint-authority"], &program);
    let (derived, bump) = derive_authority_address(&addr_of(&program)).unwrap();
    assert_eq!(derived.as_bytes().as_slice(), expected.as_ref());
    assert_eq!(bump, expected_bump);
}

fn valid_hook_inputs(program: &Pubkey, mint: &Pubkey) -> TransferHook {
    let (table, _) =
        Pubkey::find_program_address(&[b"extra-account-metas", mint.as_ref()], program);
    let (authority, _) = Pubkey::find_program_address(&[b"mint-authority"], program);
    TransferHook {
        source_token: TokenAccountInfo { mint: addr_of(mint), owner: addr(2) },
        mint: addr_of(mint),
        destination_token: TokenAccountInfo { mint: addr_of(mint), owner: addr(3) },
        owner: addr(2),
        extra_account_meta_list: addr_of(&table),
        mint_authority: addr_of(&authority),
    }
}

#[test]
fn hook_accepts_valid_invocation() {
    let program = Pubkey::new_from_array([7u8; 32]);
    let mint = Pubkey::new_from_array([9u8; 32]);
    let accounts = valid_hook_inputs(&program, &mint);
    assert!(transfer_hook(&accounts, 42, &addr_of(&program)).is_ok());
}

#[test]
fn hook_rejects_wrong_resolution_table() {
    let program = Pubkey::new_from_array([7u8; 32]);
    let mint = Pubkey::new_from_array([9u8; 32]);
    let mut accounts = valid_hook_inputs(&program, &mint);
    accounts.extra_account_meta_list = addr(0xaa);
    let r = transfer_hook(&accounts, 42, &addr_of(&program));
    assert_eq!(r.unwrap_err(), HookError::ResolutionTableMismatch);
}

#[test]
fn hook_rejects_wrong_authority() {
    let program = Pubkey::new_from_array([7u8; 32]);
    let mint = Pubkey::new_from_array([9u8; 32]);
    let mut accounts = valid_hook_inputs(&program, &mint);
    accounts.mint_authority = addr(0xbb);
    let r = transfer_hook(&accounts, 42, &addr_of(&program));
    assert_eq!(r.unwrap_err(), HookError::AuthorityMismatch);
}

#[test]
fn hook_rejects_mint_mismatch() {
    let program = Pubkey::new_from_array([7u8; 32]);
    let mint = Pubkey::new_from_array([9u8; 32]);
    let mut accounts = valid_hook_inputs(&program, &mint);
    accounts.destination_token.mint = addr(0xcc);
    let r = transfer_hook(&accounts, 42, &addr_of(&program));
    assert_eq!(r.unwrap_err(), HookError::MintMismatch);
}

#[test]
fn hook_rejects_owner_mismatch() {
    let program = Pubkey::new_from_array([7u8; 32]);
    let mint = Pubkey::new_from_array([9u8; 32]);
    let mut accounts = valid_hook_inputs(&program, &mint);
    accounts.owner = addr(0xdd);
    let r = transfer_hook(&accounts, 42, &addr_of(&program));
    assert_eq!(r.unwrap_err(), HookError::OwnerMismatch);
}
