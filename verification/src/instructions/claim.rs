use vstd::prelude::*;

use crate::errors::VaultError;
use crate::pda;
use crate::pda::AccountId;
use crate::state::COOLDOWN_SECONDS;
use crate::state::VaultState;
use crate::state::WithdrawalTicket;
use crate::state::ticket_wf;
use crate::token;
use crate::token::TokenAccount;

verus! {

/// The records a claim names: the caller, the vault state, the held-balance
/// account, the caller's and the admin's holdings of the accepted asset, the
/// ticket slot at the caller's derived ticket address, and the clock reading.
#[derive(Clone, Copy, Debug, PartialEq, Eq, Structural)]
pub struct Claim {
    /// Key of the claiming user, who signs the call.
    pub user: u64,
    pub vault_state: VaultState,
    /// The vault's held-balance account, at its derived address and under the
    /// vault's own authority.
    pub vault_token_account: TokenAccount,
    /// Destination of the payout; must belong to the caller and hold the
    /// accepted asset.
    pub user_token_account: TokenAccount,
    /// Destination of the fee; must belong to the admin and hold the accepted
    /// asset.
    pub admin_token_account: TokenAccount,
    /// Content of the derived ticket address for (caller, vault): the claim
    /// settles and destroys the ticket found there.
    pub withdrawal_ticket: Option<WithdrawalTicket>,
    /// The time oracle's reading, checked against the cooldown deadline.
    pub clock: i64,
}

/// The claim-time fee: `receipt_amount * fee_bps / 10000`, with truncating
/// division — the fee rounds down, in the user's favor remainder-wise, and
/// for small amounts truncates to zero.
pub open spec fn fee_of(receipt_amount: u64, fee_bps: u16) -> int {
    (receipt_amount * fee_bps) / 10000
}

/// What the user keeps of a settled ticket: the amount minus the fee.
pub open spec fn user_amount_of(receipt_amount: u64, fee_bps: u16) -> int {
    receipt_amount - fee_of(receipt_amount, fee_bps)
}

/// The cooldown gate: a ticket may be settled from the moment a full day has
/// passed since it was requested, and not a second before.
pub open spec fn cooldown_elapsed(now: i64, t: WithdrawalTicket) -> bool {
    now >= t.requested_at + COOLDOWN_SECONDS
}

/// The structural checks on a claim's records. The paused flag is not among
/// the conditions: claims go through while the vault is paused, so users can
/// always exit.
pub open spec fn claim_accounts_ok(ctx: Claim) -> bool {
    let vs = ctx.vault_state;
    &&& vs.bump == pda::spec_vault_state_bump(vs.admin)
    &&& ctx.vault_token_account.addr == AccountId::VaultTokenAccount(vs.admin)
    &&& vs.vault_token_bump == pda::spec_vault_token_bump(vs.admin)
    &&& ctx.vault_token_account.owner == AccountId::VaultStateAccount(vs.admin)
    &&& ctx.vault_token_account.mint == vs.accepted_mint
    &&& ctx.user_token_account.owner == AccountId::Key(ctx.user)
    &&& ctx.user_token_account.mint == vs.accepted_mint
    &&& ctx.admin_token_account.owner == AccountId::Key(vs.admin)
    &&& ctx.admin_token_account.mint == vs.accepted_mint
}

/// The checks a claim's ticket must pass: it belongs to the caller and its
/// salt matches the caller's derivation.
pub open spec fn claim_ticket_ok(ctx: Claim, t: WithdrawalTicket) -> bool {
    &&& t.user == ctx.user
    &&& t.bump == pda::spec_ticket_bump(ctx.user, ctx.vault_state.admin)
}

/// What a claim does. On success the ticket amount leaves the held balance in
/// full — the fee to the admin, the rest to the user — the running total
/// falls by the ticket amount, and the ticket is destroyed; on any error
/// nothing changes. Errors, in the order they are detected: a structural
/// mismatch, an empty ticket slot, a ticket that is not the caller's, the
/// cooldown gate, overflow of the fee product, a fee above the ticket amount
/// (possible only when `fee_bps` exceeds 10000), the two transfers out of the
/// held balance (each skipped when its amount is zero), and the checked fall
/// of the running total.
pub open spec fn spec_handle_claim(ctx: Claim) -> (Claim, Result<(), VaultError>) {
    let vs = ctx.vault_state;
    if !claim_accounts_ok(ctx) {
        (ctx, Err(VaultError::Unauthorized))
    } else {
        match ctx.withdrawal_ticket {
            None => (ctx, Err(VaultError::NoPendingWithdrawal)),
            Some(t) => {
                let ra = t.receipt_amount;
                let fee = fee_of(ra, vs.fee_bps);
                let ua = ra - fee;
                if !claim_ticket_ok(ctx, t) {
                    (ctx, Err(VaultError::Unauthorized))
                } else if !cooldown_elapsed(ctx.clock, t) {
                    (ctx, Err(VaultError::CooldownNotElapsed))
                } else if ra * vs.fee_bps > u64::MAX {
                    (ctx, Err(VaultError::ArithmeticOverflow))
                } else if fee > ra {
                    (ctx, Err(VaultError::ArithmeticOverflow))
                } else if ua > 0 && ctx.vault_token_account.amount < ua {
                    (ctx, Err(VaultError::InsufficientBalance))
                } else if ua > 0 && ctx.user_token_account.amount + ua > u64::MAX {
                    (ctx, Err(VaultError::ArithmeticOverflow))
                } else if fee > 0 && ctx.vault_token_account.amount < ua + fee {
                    (ctx, Err(VaultError::InsufficientBalance))
                } else if fee > 0 && ctx.admin_token_account.amount + fee > u64::MAX {
                    (ctx, Err(VaultError::ArithmeticOverflow))
                } else if vs.total_deposited < ra {
                    (ctx, Err(VaultError::ArithmeticOverflow))
                } else {
                    (
                        Claim {
                            vault_state: VaultState {
                                total_deposited: (vs.total_deposited - ra) as u64,
                                ..vs
                            },
                            vault_token_account: TokenAccount {
                                amount: (ctx.vault_token_account.amount - ra) as u64,
                                ..ctx.vault_token_account
                            },
                            user_token_account: TokenAccount {
                                amount: (ctx.user_token_account.amount + ua) as u64,
                                ..ctx.user_token_account
                            },
                            admin_token_account: TokenAccount {
                                amount: (ctx.admin_token_account.amount + fee) as u64,
                                ..ctx.admin_token_account
                            },
                            withdrawal_ticket: None,
                            ..ctx
                        },
                        Ok(()),
                    )
                }
            },
        }
    }
}

/// Checks the structural constraints on a claim's records.
fn accounts_valid(ctx: &Claim) -> (b: bool)
    ensures
        b == claim_accounts_ok(*ctx),
{
    let vs = &ctx.vault_state;
    vs.bump == pda::vault_state_bump(vs.admin) && ctx.vault_token_account.addr
        == AccountId::VaultTokenAccount(vs.admin) && vs.vault_token_bump == pda::vault_token_bump(
        vs.admin,
    ) && ctx.vault_token_account.owner == AccountId::VaultStateAccount(vs.admin)
        && ctx.vault_token_account.mint == vs.accepted_mint && ctx.user_token_account.owner
        == AccountId::Key(ctx.user) && ctx.user_token_account.mint == vs.accepted_mint
        && ctx.admin_token_account.owner == AccountId::Key(vs.admin)
        && ctx.admin_token_account.mint == vs.accepted_mint
}

/// Settles the caller's withdrawal ticket: enforces the cooldown, splits the
/// ticket amount by the basis-point fee with truncating division, pays the
/// user and the admin out of the held balance under the vault's own
/// authority, lowers the running total with checked subtraction, and destroys
/// the ticket — everything or nothing.
pub fn handle_claim(ctx: &mut Claim) -> (r: Result<(), VaultError>)
    requires
        old(ctx).withdrawal_ticket matches Some(t) ==> ticket_wf(t),
    ensures
        (*final(ctx), r) == spec_handle_claim(*old(ctx)),
        r is Err ==> *final(ctx) == *old(ctx),
        r is Ok ==> final(ctx).withdrawal_ticket is None,
        crate::state::solvent(old(ctx).vault_state, old(ctx).vault_token_account) ==> crate::state::solvent(
            final(ctx).vault_state,
            final(ctx).vault_token_account,
        ),
{
    if !accounts_valid(ctx) {
        return Err(VaultError::Unauthorized);
    }
    let t = match ctx.withdrawal_ticket {
        Some(t) => t,
        None => {
            return Err(VaultError::NoPendingWithdrawal);
        },
    };
    if !(t.user == ctx.user && t.bump == pda::ticket_bump(ctx.user, ctx.vault_state.admin)) {
        return Err(VaultError::Unauthorized);
    }
    if ctx.clock < t.requested_at + COOLDOWN_SECONDS {
        return Err(VaultError::CooldownNotElapsed);
    }
    let ra = t.receipt_amount;
    let bps = ctx.vault_state.fee_bps;
    assert(ra * bps < u128::MAX) by (nonlinear_arith)
        requires
            ra <= u64::MAX,
            bps <= u16::MAX,
    ;
    let product: u128 = (ra as u128) * (bps as u128);
    if product > u64::MAX as u128 {
        return Err(VaultError::ArithmeticOverflow);
    }
    let fee: u64 = (product / 10000) as u64;
    if fee > ra {
        return Err(VaultError::ArithmeticOverflow);
    }
    let user_amount: u64 = ra - fee;
    let mut vault_token = ctx.vault_token_account;
    let mut user_token = ctx.user_token_account;
    let mut admin_token = ctx.admin_token_account;
    let authority = AccountId::VaultStateAccount(ctx.vault_state.admin);
    if user_amount > 0 {
        match token::transfer(&mut vault_token, &mut user_token, authority, user_amount) {
            Ok(()) => {},
            Err(e) => {
                return Err(e);
            },
        }
    }
    if fee > 0 {
        match token::transfer(&mut vault_token, &mut admin_token, authority, fee) {
            Ok(()) => {},
            Err(e) => {
                return Err(e);
            },
        }
    }
    if ctx.vault_state.total_deposited < ra {
        return Err(VaultError::ArithmeticOverflow);
    }
    ctx.vault_token_account = vault_token;
    ctx.user_token_account = user_token;
    ctx.admin_token_account = admin_token;
    ctx.vault_state.total_deposited = ctx.vault_state.total_deposited - ra;
    ctx.withdrawal_ticket = None;
    Ok(())
}

} // verus!
