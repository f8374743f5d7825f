use vstd::prelude::*;

use crate::errors::VaultError;
use crate::pda;
use crate::pda::AccountId;
use crate::state::VaultState;
use crate::token;
use crate::token::MintAccount;
use crate::token::TokenAccount;
use crate::token::spec_mint_to_result;
use crate::token::spec_transfer_result;

verus! {

/// The records a deposit names: the caller, the vault state, the caller's
/// holding of the accepted asset, the vault's held-balance account, the
/// receipt asset, and the caller's receipt holding.
#[derive(Clone, Copy, Debug, PartialEq, Eq, Structural)]
pub struct Deposit {
    /// Key of the depositor, who signs the call.
    pub user: u64,
    pub vault_state: VaultState,
    /// Source of the deposit; must belong to the caller and hold the accepted
    /// asset.
    pub user_token_account: TokenAccount,
    /// The vault's held-balance account, at its derived address.
    pub vault_token_account: TokenAccount,
    /// The vault's receipt asset.
    pub receipt_mint: MintAccount,
    /// Destination of the minted receipts; must belong to the caller and hold
    /// the receipt asset.
    pub user_receipt_account: TokenAccount,
}

/// The structural checks on a deposit's records: derivation salts match what
/// the vault recorded at creation, the caller owns the source and the receipt
/// destination, and every holding is denominated in the right asset.
pub open spec fn deposit_accounts_ok(ctx: Deposit) -> bool {
    let vs = ctx.vault_state;
    &&& vs.bump == pda::spec_vault_state_bump(vs.admin)
    &&& ctx.user_token_account.owner == AccountId::Key(ctx.user)
    &&& ctx.user_token_account.mint == vs.accepted_mint
    &&& ctx.vault_token_account.addr == AccountId::VaultTokenAccount(vs.admin)
    &&& vs.vault_token_bump == pda::spec_vault_token_bump(vs.admin)
    &&& ctx.vault_token_account.mint == vs.accepted_mint
    &&& ctx.receipt_mint.addr == vs.receipt_mint
    &&& ctx.user_receipt_account.owner == AccountId::Key(ctx.user)
    &&& ctx.user_receipt_account.mint == vs.receipt_mint
}

/// What a deposit does: the records afterwards and the outcome. On success,
/// `amount` moves from the caller's holding into the held balance, `amount`
/// receipts are minted to the caller, and the running total rises by
/// `amount`; on any error nothing changes. Errors, in the order they are
/// detected: a structural mismatch, the paused gate, the asset transfer
/// (insufficient source balance first), the receipt minting, and finally the
/// checked rise of the running total.
pub open spec fn spec_handle_deposit(ctx: Deposit, amount: u64) -> (Deposit, Result<
    (),
    VaultError,
>) {
    let vs = ctx.vault_state;
    let tr = spec_transfer_result(
        ctx.user_token_account,
        ctx.vault_token_account,
        AccountId::Key(ctx.user),
        amount,
    );
    let mr = spec_mint_to_result(
        ctx.receipt_mint,
        ctx.user_receipt_account,
        AccountId::VaultStateAccount(vs.admin),
        amount,
    );
    if !deposit_accounts_ok(ctx) {
        (ctx, Err(VaultError::Unauthorized))
    } else if vs.is_paused {
        (ctx, Err(VaultError::VaultPaused))
    } else if tr is Err {
        (ctx, tr)
    } else if mr is Err {
        (ctx, mr)
    } else if vs.total_deposited + amount > u64::MAX {
        (ctx, Err(VaultError::ArithmeticOverflow))
    } else {
        (
            Deposit {
                vault_state: VaultState {
                    total_deposited: (vs.total_deposited + amount) as u64,
                    ..vs
                },
                user_token_account: TokenAccount {
                    amount: (ctx.user_token_account.amount - amount) as u64,
                    ..ctx.user_token_account
                },
                vault_token_account: TokenAccount {
                    amount: (ctx.vault_token_account.amount + amount) as u64,
                    ..ctx.vault_token_account
                },
                receipt_mint: MintAccount {
                    supply: (ctx.receipt_mint.supply + amount) as u64,
                    ..ctx.receipt_mint
                },
                user_receipt_account: TokenAccount {
                    amount: (ctx.user_receipt_account.amount + amount) as u64,
                    ..ctx.user_receipt_account
                },
                ..ctx
            },
            Ok(()),
        )
    }
}

/// Checks the structural constraints on a deposit's records.
fn accounts_valid(ctx: &Deposit) -> (b: bool)
    ensures
        b == deposit_accounts_ok(*ctx),
{
    let vs = &ctx.vault_state;
    vs.bump == pda::vault_state_bump(vs.admin) && ctx.user_token_account.owner == AccountId::Key(
        ctx.user,
    ) && ctx.user_token_account.mint == vs.accepted_mint && ctx.vault_token_account.addr
        == AccountId::VaultTokenAccount(vs.admin) && vs.vault_token_bump == pda::vault_token_bump(
        vs.admin,
    ) && ctx.vault_token_account.mint == vs.accepted_mint && ctx.receipt_mint.addr
        == vs.receipt_mint && ctx.user_receipt_account.owner == AccountId::Key(ctx.user)
        && ctx.user_receipt_account.mint == vs.receipt_mint
}

/// Deposits `amount` of the accepted asset: moves it from the caller into the
/// held balance, mints receipts 1:1 to the caller, and raises the running
/// total with checked addition — all three effects or none.
pub fn handler(ctx: &mut Deposit, amount: u64) -> (r: Result<(), VaultError>)
    ensures
        (*final(ctx), r) == spec_handle_deposit(*old(ctx), amount),
        r is Err ==> *final(ctx) == *old(ctx),
        r is Ok ==> final(ctx).vault_state.total_deposited == old(ctx).vault_state.total_deposited
            + amount,
        crate::state::solvent(old(ctx).vault_state, old(ctx).vault_token_account) ==> crate::state::solvent(
            final(ctx).vault_state,
            final(ctx).vault_token_account,
        ),
{
    if !accounts_valid(ctx) {
        return Err(VaultError::Unauthorized);
    }
    if ctx.vault_state.is_paused {
        return Err(VaultError::VaultPaused);
    }
    let mut user_token = ctx.user_token_account;
    let mut vault_token = ctx.vault_token_account;
    match token::transfer(&mut user_token, &mut vault_token, AccountId::Key(ctx.user), amount) {
        Ok(()) => {},
        Err(e) => {
            return Err(e);
        },
    }
    let mut receipt_mint = ctx.receipt_mint;
    let mut user_receipt = ctx.user_receipt_account;
    match token::mint_to(
        &mut receipt_mint,
        &mut user_receipt,
        AccountId::VaultStateAccount(ctx.vault_state.admin),
        amount,
    ) {
        Ok(()) => {},
        Err(e) => {
            return Err(e);
        },
    }
    if ctx.vault_state.total_deposited > u64::MAX - amount {
        return Err(VaultError::ArithmeticOverflow);
    }
    ctx.user_token_account = user_token;
    ctx.vault_token_account = vault_token;
    ctx.receipt_mint = receipt_mint;
    ctx.user_receipt_account = user_receipt;
    ctx.vault_state.total_deposited = ctx.vault_state.total_deposited + amount;
    Ok(())
}

} // verus!
