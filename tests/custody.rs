use anchor_lang::solana_program::pubkey::Pubkey;
use vault::authority::{derive_vault_address, find_vault_address, Address};
use vault::error::VaultError;
use vault::instructions::{
    cover_transaction_fees, fund_vault_sol, swap_fee_to_sol, swap_to_cbbtc, AccountRef,
    CoverTransactionFees, FundVaultSol, NativeTransfer, SwapFeeToSol, SwapPlan, SwapToCbbtc,
    TokenTransfer,
};
use vault::state::{initialize_vault, validate_authority, InitializeVault, Vault, VaultRegistry};

fn addr(fill: u8) -> Address {
    Address::new([fill; 32])
}

fn program() -> Address {
    addr(200)
}

fn expected_vault(owner: &Address) -> (Address, u8) {
    let (key, bump) = Pubkey::find_program_address(
        &[b"vault", owner.bytes.as_ref()],
        &Pubkey::new_from_array(program().bytes),
    );
    (Address::new(key.to_bytes()), bump)
}

fn vault_of(owner: &Address) -> (Vault, Address) {
    let (address, bump) = expected_vault(owner);
    (Vault { owner: *owner, bump, cbbtc_ata: addr(9) }, address)
}

fn seeds_of(owner: &Address, bump: u8) -> Vec<Vec<u8>> {
    vec![b"vault".to_vec(), owner.bytes.to_vec(), vec![bump]]
}

fn route() -> Vec<AccountRef> {
    vec![
        AccountRef { pubkey: addr(50), is_signer: true, is_writable: true },
        AccountRef { pubkey: addr(51), is_signer: false, is_writable: true },
        AccountRef { pubkey: addr(52), is_signer: false, is_writable: false },
    ]
}

fn swap_ctx(owner: &Address, asserted: &Address, input_mint: Address) -> SwapToCbbtc {
    let (vault, vault_address) = vault_of(owner);
    SwapToCbbtc {
        vault,
        vault_address,
        owner: *asserted,
        input_mint,
        cbbtc_mint: addr(30),
        vault_token_account: addr(31),
        fee_token_account: addr(32),
        cbbtc_ata: addr(9),
        jupiter_program: addr(33),
        program_id: program(),
        remaining_accounts: route(),
    }
}

#[test]
fn initialize_creates_record_at_derived_address() {
    let owner = addr(1);
    let mut registry = VaultRegistry::new();
    let ctx = InitializeVault { owner, cbbtc_ata: addr(9), program_id: program() };
    let (expected, bump) = expected_vault(&owner);
    assert_eq!(initialize_vault(&mut registry, &ctx), Ok(expected));
    assert_eq!(registry.get(&expected), Some(Vault { owner, bump, cbbtc_ata: addr(9) }));
}

#[test]
fn reinitialize_same_owner_fails_and_keeps_record() {
    let owner = addr(1);
    let mut registry = VaultRegistry::new();
    let first = InitializeVault { owner, cbbtc_ata: addr(9), program_id: program() };
    let address = initialize_vault(&mut registry, &first).unwrap();
    let kept = registry.get(&address);
    let second = InitializeVault { owner, cbbtc_ata: addr(10), program_id: program() };
    assert_eq!(initialize_vault(&mut registry, &second), Err(VaultError::AlreadyInitialized));
    assert_eq!(registry.get(&address), kept);
    assert_eq!(registry.get(&address).unwrap().cbbtc_ata, addr(9));
}

#[test]
fn different_owners_get_different_records() {
    let mut registry = VaultRegistry::new();
    let a = initialize_vault(&mut registry, &InitializeVault { owner: addr(1), cbbtc_ata: addr(9), program_id: program() }).unwrap();
    let b = initialize_vault(&mut registry, &InitializeVault { owner: addr(2), cbbtc_ata: addr(9), program_id: program() }).unwrap();
    assert_ne!(a, b);
    assert_eq!(registry.get(&a).unwrap().owner, addr(1));
    assert_eq!(registry.get(&b).unwrap().owner, addr(2));
    assert_eq!(registry.get(&addr(77)), None);
}

#[test]
fn derivation_matches_the_runtime() {
    let owner = addr(3);
    let (expected, bump) = expected_vault(&owner);
    assert_eq!(find_vault_address(&owner, &program()), Some((expected, bump)));
    assert_eq!(derive_vault_address(&owner, bump, &program()), Some(expected));
    assert_ne!(expected, owner);
}

#[test]
fn authority_rejects_wrong_owner_bump_or_address() {
    let owner = addr(4);
    let (vault, address) = vault_of(&owner);
    assert_eq!(validate_authority(&vault, &address, &owner, &program()), Ok(()));
    assert_eq!(validate_authority(&vault, &address, &addr(5), &program()), Err(VaultError::Unauthorized));
    assert_eq!(validate_authority(&vault, &addr(6), &owner, &program()), Err(VaultError::Unauthorized));
    let other_bump = Vault { bump: vault.bump.wrapping_sub(1), ..vault };
    assert_eq!(validate_authority(&other_bump, &address, &owner, &program()), Err(VaultError::Unauthorized));
    assert_eq!(validate_authority(&vault, &address, &owner, &addr(201)), Err(VaultError::Unauthorized));
}

#[test]
fn swap_with_wrong_owner_is_unauthorized() {
    let ctx = swap_ctx(&addr(1), &addr(2), addr(40));
    assert_eq!(swap_to_cbbtc(ctx, 10_000, 0, vec![1, 2, 3]), Err(VaultError::Unauthorized));
}

#[test]
fn swap_of_target_asset_does_nothing() {
    let ctx = swap_ctx(&addr(1), &addr(1), addr(30));
    assert_eq!(swap_to_cbbtc(ctx, 10_000, 0, vec![1, 2, 3]), Ok(SwapPlan::AlreadyInTarget));
}

#[test]
fn swap_charges_fee_then_forwards_router_call() {
    let owner = addr(1);
    let ctx = swap_ctx(&owner, &owner, addr(40));
    let (vault, vault_address) = vault_of(&owner);
    match swap_to_cbbtc(ctx, 10_000, 9_000, vec![7, 8, 9]).unwrap() {
        SwapPlan::Swap { fee_amount, swap_amount, fee_transfer, instruction, signer_seeds } => {
            assert_eq!(fee_amount, 25);
            assert_eq!(swap_amount, 9_975);
            assert_eq!(
                fee_transfer,
                Some(TokenTransfer { from: addr(31), to: addr(32), authority: vault_address, amount: 25 })
            );
            assert_eq!(instruction.program_id, addr(33));
            assert_eq!(instruction.accounts, route());
            assert_eq!(instruction.data, vec![7, 8, 9]);
            assert_eq!(signer_seeds, seeds_of(&owner, vault.bump));
        }
        SwapPlan::AlreadyInTarget => panic!("expected a swap"),
    }
}

#[test]
fn swap_with_zero_fee_skips_fee_transfer() {
    let owner = addr(1);
    let ctx = swap_ctx(&owner, &owner, addr(40));
    match swap_to_cbbtc(ctx, 100, 0, vec![]).unwrap() {
        SwapPlan::Swap { fee_amount, swap_amount, fee_transfer, .. } => {
            assert_eq!(fee_amount, 0);
            assert_eq!(swap_amount, 100);
            assert_eq!(fee_transfer, None);
        }
        SwapPlan::AlreadyInTarget => panic!("expected a swap"),
    }
}

#[test]
fn swap_with_overflowing_fee_fails() {
    let owner = addr(1);
    let ctx = swap_ctx(&owner, &owner, addr(40));
    assert_eq!(swap_to_cbbtc(ctx, u64::MAX, 0, vec![]), Err(VaultError::SwapFailed));
}

#[test]
fn fund_moves_lamports_from_owner_to_vault() {
    let owner = addr(1);
    let (vault, vault_address) = vault_of(&owner);
    let ctx = FundVaultSol { vault, vault_address, owner, program_id: program() };
    let plan = fund_vault_sol(&ctx, 5_000).unwrap();
    assert_eq!(plan.transfer, NativeTransfer { from: owner, to: vault_address, lamports: 5_000 });
    assert_eq!(plan.signer_seeds, None);
    let wrong = FundVaultSol { owner: addr(2), ..ctx };
    assert_eq!(fund_vault_sol(&wrong, 5_000), Err(VaultError::Unauthorized));
}

#[test]
fn cover_moves_lamports_from_vault_to_relayer() {
    let owner = addr(1);
    let (vault, vault_address) = vault_of(&owner);
    let ctx = CoverTransactionFees { vault, vault_address, owner, relayer: addr(60), program_id: program() };
    let plan = cover_transaction_fees(&ctx, 5_000).unwrap();
    assert_eq!(plan.transfer, NativeTransfer { from: vault_address, to: addr(60), lamports: 5_000 });
    assert_eq!(plan.signer_seeds, Some(seeds_of(&owner, vault.bump)));
    let wrong = CoverTransactionFees { owner: addr(2), ..ctx };
    assert_eq!(cover_transaction_fees(&wrong, 5_000), Err(VaultError::Unauthorized));
}

#[test]
fn fee_swap_forwards_router_call() {
    let owner = addr(1);
    let (vault, vault_address) = vault_of(&owner);
    let ctx = SwapFeeToSol {
        vault,
        vault_address,
        owner,
        input_mint: addr(40),
        vault_fee_token_account: addr(41),
        admin_sol_account: addr(42),
        jupiter_program: addr(33),
        program_id: program(),
        remaining_accounts: route(),
    };
    let wrong = SwapFeeToSol { owner: addr(2), ..ctx.clone() };
    assert_eq!(swap_fee_to_sol(wrong, 25, 0, vec![4]), Err(VaultError::Unauthorized));
    let plan = swap_fee_to_sol(ctx, 25, 0, vec![4, 5]).unwrap();
    assert_eq!(plan.amount_in, 25);
    assert_eq!(plan.instruction.program_id, addr(33));
    assert_eq!(plan.instruction.accounts, route());
    assert_eq!(plan.instruction.data, vec![4, 5]);
    assert_eq!(plan.signer_seeds, seeds_of(&owner, vault.bump));
}

#[test]
fn address_bytes_round_trip() {
    let a = addr(12);
    assert_eq!(a.to_vec(), vec![12u8; 32]);
    assert!(a.same_as(&addr(12)));
    assert!(!a.same_as(&addr(13)));
}

#[test]
fn record_size() {
    assert_eq!(Vault::LEN, 65);
}
