use vstd::prelude::*;

use crate::authority::{seeds_view, signer_seeds_of, vault_seeds, with_bump, Address};
use crate::error::VaultError;
use crate::fees::{
    split_fee, split_fee_spec, split_proceeds, split_proceeds_spec, ADMIN_SHARE_PERCENT, FEE_BPS,
};
use crate::state::{is_authorized, validate_authority, Vault};

verus! {

/// One account handed to an external instruction, with the flags the caller
/// asserts for it.
#[derive(Debug, Clone, Copy, PartialEq, Eq)]
pub struct AccountRef {
    pub pubkey: Address,
    pub is_signer: bool,
    pub is_writable: bool,
}

/// An instruction for an external program: its accounts and its opaque data,
/// both passed on verbatim.
#[derive(Debug, Clone, PartialEq, Eq)]
pub struct ExternalCall {
    pub program_id: Address,
    pub accounts: Vec<AccountRef>,
    pub data: Vec<u8>,
}

/// A token transfer out of a vault-owned account, signed by the vault.
#[derive(Debug, Clone, Copy, PartialEq, Eq)]
pub struct TokenTransfer {
    pub from: Address,
    pub to: Address,
    pub authority: Address,
    pub amount: u64,
}

/// A transfer of native currency.
#[derive(Debug, Clone, Copy, PartialEq, Eq)]
pub struct NativeTransfer {
    pub from: Address,
    pub to: Address,
    pub lamports: u64,
}

/// A native transfer together with the seeds under which the vault signs it;
/// no seeds when the owner signs.
#[derive(Debug, Clone, PartialEq, Eq)]
pub struct NativeTransferPlan {
    pub transfer: NativeTransfer,
    pub signer_seeds: Option<Vec<Vec<u8>>>,
}

/// What the primary swap path does once authorized.
#[derive(Debug, Clone, PartialEq, Eq)]
pub enum SwapPlan {
    /// The input is already the target asset: no transfer, no external call.
    AlreadyInTarget,
    /// Transfer the fee (when there is one), then invoke the router under the
    /// vault's signer seeds.
    Swap {
        fee_amount: u64,
        swap_amount: u64,
        fee_transfer: Option<TokenTransfer>,
        instruction: ExternalCall,
        signer_seeds: Vec<Vec<u8>>,
    },
}

/// What the fee-proceeds path invokes, under the vault's signer seeds.
#[derive(Debug, Clone, PartialEq, Eq)]
pub struct FeeSwapPlan {
    pub amount_in: u64,
    pub instruction: ExternalCall,
    pub signer_seeds: Vec<Vec<u8>>,
}

/// How the native proceeds of a fee swap are divided.
#[derive(Debug, Clone, Copy, PartialEq, Eq)]
pub struct Settlement {
    /// The vault's balance after the swap less its balance before.
    pub received: u64,
    /// Moved from the vault to the admin account.
    pub admin_share: u64,
    /// Left in the vault for future transaction costs.
    pub vault_share: u64,
}

/// The accounts of `swap_to_cbbtc`.
#[derive(Debug, Clone, PartialEq, Eq)]
pub struct SwapToCbbtc {
    pub vault: Vault,
    pub vault_address: Address,
    pub owner: Address,
    pub input_mint: Address,
    pub cbbtc_mint: Address,
    pub vault_token_account: Address,
    pub fee_token_account: Address,
    pub cbbtc_ata: Address,
    pub jupiter_program: Address,
    pub program_id: Address,
    pub remaining_accounts: Vec<AccountRef>,
}

/// The accounts of `fund_vault_sol`.
#[derive(Debug, Clone, Copy, PartialEq, Eq)]
pub struct FundVaultSol {
    pub vault: Vault,
    pub vault_address: Address,
    pub owner: Address,
    pub program_id: Address,
}

/// The accounts of `cover_transaction_fees`.
#[derive(Debug, Clone, Copy, PartialEq, Eq)]
pub struct CoverTransactionFees {
    pub vault: Vault,
    pub vault_address: Address,
    pub owner: Address,
    pub relayer: Address,
    pub program_id: Address,
}

/// The accounts of `swap_fee_to_sol`.
#[derive(Debug, Clone, PartialEq, Eq)]
pub struct SwapFeeToSol {
    pub vault: Vault,
    pub vault_address: Address,
    pub owner: Address,
    pub input_mint: Address,
    pub vault_fee_token_account: Address,
    pub admin_sol_account: Address,
    pub jupiter_program: Address,
    pub program_id: Address,
    pub remaining_accounts: Vec<AccountRef>,
}

/// `seeds` are the vault's signer seeds: its owner's seeds with its bump.
pub open spec fn signs_for(seeds: Seq<Vec<u8>>, vault: Vault) -> bool {
    seeds_view(seeds) == with_bump(vault_seeds(vault.owner@), vault.bump)
}

/// `call` addresses `program` with `accounts` and `data` unchanged.
pub open spec fn forwards(call: ExternalCall, program: Address, accounts: Seq<AccountRef>, data: Seq<u8>) -> bool {
    &&& call.program_id == program
    &&& call.accounts@ == accounts
    &&& call.data@ == data
}

/// Builds the router instruction from the caller's account list and payload,
/// both taken verbatim.
pub fn build_external_call(program: Address, accounts: Vec<AccountRef>, data: Vec<u8>) -> (r: ExternalCall)
    ensures
        forwards(r, program, accounts@, data@),
{
    ExternalCall { program_id: program, accounts, data }
}

/// Plans the primary swap: after the authority check, no-op when the input is
/// already the target asset; otherwise a fee of `FEE_BPS` basis points to the
/// fee account (only when it is positive), then the router call. The minimum
/// output is not enforced here.
pub fn swap_to_cbbtc(
    ctx: SwapToCbbtc,
    amount_in: u64,
    _min_amount_out: u64,
    jupiter_swap_data: Vec<u8>,
) -> (r: Result<SwapPlan, VaultError>)
    ensures
        !is_authorized(ctx.vault, ctx.vault_address@, ctx.owner@, ctx.program_id@) ==> r == Err::<SwapPlan, VaultError>(VaultError::Unauthorized),
        is_authorized(ctx.vault, ctx.vault_address@, ctx.owner@, ctx.program_id@) && ctx.input_mint@ == ctx.cbbtc_mint@
            ==> r == Ok::<SwapPlan, VaultError>(SwapPlan::AlreadyInTarget),
        is_authorized(ctx.vault, ctx.vault_address@, ctx.owner@, ctx.program_id@) && ctx.input_mint@ != ctx.cbbtc_mint@
            ==> match split_fee_spec(amount_in, FEE_BPS) {
                Err(e) => r == Err::<SwapPlan, VaultError>(e),
                Ok((fee, rest)) => (r matches Ok(SwapPlan::Swap { fee_amount, swap_amount, fee_transfer, instruction, signer_seeds }) && {
                    &&& fee_amount == fee
                    &&& swap_amount == rest
                    &&& fee_transfer == (if fee > 0 {
                        Some((TokenTransfer {
                            from: ctx.vault_token_account,
                            to: ctx.fee_token_account,
                            authority: ctx.vault_address,
                            amount: fee,
                        }))
                    } else {
                        None
                    })
                    &&& forwards(instruction, ctx.jupiter_program, ctx.remaining_accounts@, jupiter_swap_data@)
                    &&& signs_for(signer_seeds@, ctx.vault)
                }),
            },
{
    validate_authority(&ctx.vault, &ctx.vault_address, &ctx.owner, &ctx.program_id)?;
    if ctx.input_mint.same_as(&ctx.cbbtc_mint) {
        return Ok(SwapPlan::AlreadyInTarget);
    }
    let (fee_amount, swap_amount) = split_fee(amount_in, FEE_BPS)?;
    let fee_transfer = if fee_amount > 0 {
        Some(TokenTransfer {
            from: ctx.vault_token_account,
            to: ctx.fee_token_account,
            authority: ctx.vault_address,
            amount: fee_amount,
        })
    } else {
        None
    };
    let signer_seeds = signer_seeds_of(&ctx.vault.owner, ctx.vault.bump);
    let instruction = build_external_call(ctx.jupiter_program, ctx.remaining_accounts, jupiter_swap_data);
    Ok(SwapPlan::Swap { fee_amount, swap_amount, fee_transfer, instruction, signer_seeds })
}

/// Plans an owner-signed transfer of `amount` lamports from the owner to the
/// vault, after the authority check.
pub fn fund_vault_sol(ctx: &FundVaultSol, amount: u64) -> (r: Result<NativeTransferPlan, VaultError>)
    ensures
        !is_authorized(ctx.vault, ctx.vault_address@, ctx.owner@, ctx.program_id@) ==> r == Err::<NativeTransferPlan, VaultError>(VaultError::Unauthorized),
        is_authorized(ctx.vault, ctx.vault_address@, ctx.owner@, ctx.program_id@) ==> r == Ok::<NativeTransferPlan, VaultError>((NativeTransferPlan {
            transfer: (NativeTransfer { from: ctx.owner, to: ctx.vault_address, lamports: amount }),
            signer_seeds: None,
        })),
{
    validate_authority(&ctx.vault, &ctx.vault_address, &ctx.owner, &ctx.program_id)?;
    Ok(NativeTransferPlan {
        transfer: NativeTransfer { from: ctx.owner, to: ctx.vault_address, lamports: amount },
        signer_seeds: None,
    })
}

/// Plans a vault-signed transfer of `fee_amount` lamports from the vault to
/// the relayer, after the authority check.
pub fn cover_transaction_fees(ctx: &CoverTransactionFees, fee_amount: u64) -> (r: Result<NativeTransferPlan, VaultError>)
    ensures
        !is_authorized(ctx.vault, ctx.vault_address@, ctx.owner@, ctx.program_id@) ==> r == Err::<NativeTransferPlan, VaultError>(VaultError::Unauthorized),
        is_authorized(ctx.vault, ctx.vault_address@, ctx.owner@, ctx.program_id@) ==> (r matches Ok(plan) && {
            &&& plan.transfer == (NativeTransfer { from: ctx.vault_address, to: ctx.relayer, lamports: fee_amount })
            &&& (plan.signer_seeds matches Some(seeds) && signs_for(seeds@, ctx.vault))
        }),
{
    validate_authority(&ctx.vault, &ctx.vault_address, &ctx.owner, &ctx.program_id)?;
    let seeds = signer_seeds_of(&ctx.vault.owner, ctx.vault.bump);
    Ok(NativeTransferPlan {
        transfer: NativeTransfer { from: ctx.vault_address, to: ctx.relayer, lamports: fee_amount },
        signer_seeds: Some(seeds),
    })
}

/// Plans the router call that converts fee tokens into native currency,
/// after the authority check. The proceeds are divided by `settle_fee_swap`
/// from the vault's balance before and after the call. The minimum output is
/// accepted and not enforced here.
pub fn swap_fee_to_sol(
    ctx: SwapFeeToSol,
    amount_in: u64,
    _min_amount_out: u64,
    jupiter_swap_data: Vec<u8>,
) -> (r: Result<FeeSwapPlan, VaultError>)
    ensures
        !is_authorized(ctx.vault, ctx.vault_address@, ctx.owner@, ctx.program_id@) ==> r == Err::<FeeSwapPlan, VaultError>(VaultError::Unauthorized),
        is_authorized(ctx.vault, ctx.vault_address@, ctx.owner@, ctx.program_id@) ==> (r matches Ok(plan) && {
            &&& plan.amount_in == amount_in
            &&& forwards(plan.instruction, ctx.jupiter_program, ctx.remaining_accounts@, jupiter_swap_data@)
            &&& signs_for(plan.signer_seeds@, ctx.vault)
        }),
{
    validate_authority(&ctx.vault, &ctx.vault_address, &ctx.owner, &ctx.program_id)?;
    let signer_seeds = signer_seeds_of(&ctx.vault.owner, ctx.vault.bump);
    let instruction = build_external_call(ctx.jupiter_program, ctx.remaining_accounts, jupiter_swap_data);
    Ok(FeeSwapPlan { amount_in, instruction, signer_seeds })
}

/// The outcome of `settle_fee_swap(balance_before, balance_after)`.
pub open spec fn settle_spec(balance_before: u64, balance_after: u64) -> Result<Settlement, VaultError> {
    if balance_after < balance_before {
        Err(VaultError::SwapFailed)
    } else {
        let received = (balance_after - balance_before) as u64;
        match split_proceeds_spec(received, ADMIN_SHARE_PERCENT) {
            Err(e) => Err(e),
            Ok((admin_share, vault_share)) => Ok(Settlement { received, admin_share, vault_share }),
        }
    }
}

/// Divides what the fee swap produced, measured as the vault's native
/// balance after the call less its balance before: `ADMIN_SHARE_PERCENT`
/// percent to the admin, the rest stays in the vault. A balance that fell is
/// a failed swap, never a zero delta.
pub fn settle_fee_swap(balance_before: u64, balance_after: u64) -> (r: Result<Settlement, VaultError>)
    ensures
        r == settle_spec(balance_before, balance_after),
        balance_after < balance_before ==> r == Err::<Settlement, VaultError>(VaultError::SwapFailed),
        r matches Ok(s) ==> s.admin_share + s.vault_share == s.received && s.admin_share == s.received * 6 / 10,
        balance_before <= balance_after && (balance_after - balance_before) * 6 <= u64::MAX ==> r is Ok,
{
    let received = match balance_after.checked_sub(balance_before) {
        Some(delta) => delta,
        None => return Err(VaultError::SwapFailed),
    };
    let (admin_share, vault_share) = split_proceeds(received, ADMIN_SHARE_PERCENT)?;
    Ok(Settlement { received, admin_share, vault_share })
}

} // verus!
