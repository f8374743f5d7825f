use vstd::prelude::*;

use crate::errors::VaultError;
use crate::pda;
use crate::pda::AccountId;
use crate::state::COOLDOWN_SECONDS;
use crate::state::VaultState;
use crate::state::WithdrawalTicket;
use crate::state::ticket_wf;
use crate::token;
use crate::token::MintAccount;
use crate::token::TokenAccount;
use crate::token::spec_burn_result;

verus! {

/// The records a withdrawal request names: the caller, the vault state, the
/// receipt asset, the caller's receipt holding, the ticket slot at the
/// caller's derived ticket address, and the clock reading.
#[derive(Clone, Copy, Debug, PartialEq, Eq, Structural)]
pub struct RequestWithdrawal {
    /// Key of the requesting user, who signs the call.
    pub user: u64,
    pub vault_state: VaultState,
    /// The vault's receipt asset, whose units are burned here.
    pub receipt_mint: MintAccount,
    /// Source of the burn; must belong to the caller and hold the receipt
    /// asset.
    pub user_receipt_account: TokenAccount,
    /// Content of the derived ticket address for (caller, vault): the request
    /// creates the ticket there and fails if one is already present.
    pub withdrawal_ticket: Option<WithdrawalTicket>,
    /// The time oracle's reading, stamped into the new ticket.
    pub clock: i64,
}

/// The structural checks on a withdrawal request's records.
pub open spec fn withdraw_accounts_ok(ctx: RequestWithdrawal) -> bool {
    let vs = ctx.vault_state;
    &&& vs.bump == pda::spec_vault_state_bump(vs.admin)
    &&& ctx.receipt_mint.addr == vs.receipt_mint
    &&& ctx.user_receipt_account.owner == AccountId::Key(ctx.user)
    &&& ctx.user_receipt_account.mint == vs.receipt_mint
}

/// What a withdrawal request does. On success, `receipt_amount` receipts are
/// burned out of the caller's holding at once — the entitlement is locked in
/// now, so nothing that changes later can be gamed by delaying — and a ticket
/// recording the caller, the amount and the clock reading appears in the
/// empty slot; on any error nothing changes. Errors, in the order they are
/// detected: a structural mismatch, an occupied ticket slot, the paused gate,
/// a receipt balance below `receipt_amount`, and the burn itself.
pub open spec fn spec_handle_withdraw(ctx: RequestWithdrawal, receipt_amount: u64) -> (
    RequestWithdrawal,
    Result<(), VaultError>,
) {
    let vs = ctx.vault_state;
    let br = spec_burn_result(
        ctx.receipt_mint,
        ctx.user_receipt_account,
        AccountId::Key(ctx.user),
        receipt_amount,
    );
    if !withdraw_accounts_ok(ctx) {
        (ctx, Err(VaultError::Unauthorized))
    } else if ctx.withdrawal_ticket is Some {
        (ctx, Err(VaultError::AccountAlreadyExists))
    } else if vs.is_paused {
        (ctx, Err(VaultError::VaultPaused))
    } else if ctx.user_receipt_account.amount < receipt_amount {
        (ctx, Err(VaultError::InsufficientBalance))
    } else if br is Err {
        (ctx, br)
    } else {
        (
            RequestWithdrawal {
                receipt_mint: MintAccount {
                    supply: (ctx.receipt_mint.supply - receipt_amount) as u64,
                    ..ctx.receipt_mint
                },
                user_receipt_account: TokenAccount {
                    amount: (ctx.user_receipt_account.amount - receipt_amount) as u64,
                    ..ctx.user_receipt_account
                },
                withdrawal_ticket: Some(
                    WithdrawalTicket {
                        user: ctx.user,
                        receipt_amount,
                        requested_at: ctx.clock,
                        bump: pda::spec_ticket_bump(ctx.user, vs.admin),
                    },
                ),
                ..ctx
            },
            Ok(()),
        )
    }
}

/// Checks the structural constraints on a withdrawal request's records.
fn accounts_valid(ctx: &RequestWithdrawal) -> (b: bool)
    ensures
        b == withdraw_accounts_ok(*ctx),
{
    let vs = &ctx.vault_state;
    vs.bump == pda::vault_state_bump(vs.admin) && ctx.receipt_mint.addr == vs.receipt_mint
        && ctx.user_receipt_account.owner == AccountId::Key(ctx.user)
        && ctx.user_receipt_account.mint == vs.receipt_mint
}

/// Requests a withdrawal: burns `receipt_amount` of the caller's receipts and
/// opens the cooldown-gated ticket that locks in the entitlement — both
/// effects or none. A ticket the request creates always carries a
/// nonnegative timestamp whose cooldown deadline is representable.
pub fn handle_withdraw(ctx: &mut RequestWithdrawal, receipt_amount: u64) -> (r: Result<
    (),
    VaultError,
>)
    requires
        0 <= old(ctx).clock <= i64::MAX - COOLDOWN_SECONDS,
    ensures
        (*final(ctx), r) == spec_handle_withdraw(*old(ctx), receipt_amount),
        r is Err ==> *final(ctx) == *old(ctx),
        r is Ok ==> (final(ctx).withdrawal_ticket matches Some(t) && ticket_wf(t)),
        final(ctx).vault_state == old(ctx).vault_state,
{
    if !accounts_valid(ctx) {
        return Err(VaultError::Unauthorized);
    }
    if ctx.withdrawal_ticket.is_some() {
        return Err(VaultError::AccountAlreadyExists);
    }
    if ctx.vault_state.is_paused {
        return Err(VaultError::VaultPaused);
    }
    if ctx.user_receipt_account.amount < receipt_amount {
        return Err(VaultError::InsufficientBalance);
    }
    let mut receipt_mint = ctx.receipt_mint;
    let mut user_receipt = ctx.user_receipt_account;
    match token::burn(&mut receipt_mint, &mut user_receipt, AccountId::Key(ctx.user), receipt_amount) {
        Ok(()) => {},
        Err(e) => {
            return Err(e);
        },
    }
    let bump = pda::ticket_bump(ctx.user, ctx.vault_state.admin);
    ctx.receipt_mint = receipt_mint;
    ctx.user_receipt_account = user_receipt;
    ctx.withdrawal_ticket = Some(
        WithdrawalTicket { user: ctx.user, receipt_amount, requested_at: ctx.clock, bump },
    );
    Ok(())
}

} // verus!
