//! A single-asset custodial vault: users deposit a fungible asset, receive a
//! liquid receipt claim token 1:1, and later redeem receipts for the
//! underlying asset, minus a fee, after a mandatory cooldown. The four
//! operations — initialize, deposit, request withdrawal, claim — are atomic
//! state transitions over fixed-size records, proved to preserve solvency and
//! to use only checked arithmetic.

use vstd::prelude::*;

pub mod errors;
pub mod instructions;
pub mod laws;
pub mod pda;
pub mod state;
pub mod token;

pub use errors::VaultError;
pub use instructions::claim::Claim;
pub use instructions::deposit::Deposit;
pub use instructions::initialize::Initialize;
pub use instructions::withdraw::RequestWithdrawal;
pub use state::VaultState;
pub use state::WithdrawalTicket;

use instructions::claim::spec_handle_claim;
use instructions::deposit::spec_handle_deposit;
use instructions::initialize::spec_handle_initialize;
use instructions::withdraw::spec_handle_withdraw;

verus! {

/// Creates a vault: the state record, the receipt asset under the vault's own
/// authority, and the empty held-balance account, all at addresses derived
/// from the admin's key; fails untouched if any of the three already exists.
pub fn initialize(ctx: &mut Initialize, fee_bps: u16) -> (r: Result<(), VaultError>)
    ensures
        (*final(ctx), r) == spec_handle_initialize(*old(ctx), fee_bps),
{
    instructions::initialize::handle_initialize(ctx, fee_bps)
}

/// Moves `amount` of the accepted asset from the caller into the vault's held
/// balance, mints receipts 1:1 to the caller, and raises the running total —
/// all three or none.
pub fn deposit(ctx: &mut Deposit, amount: u64) -> (r: Result<(), VaultError>)
    ensures
        (*final(ctx), r) == spec_handle_deposit(*old(ctx), amount),
        r is Err ==> *final(ctx) == *old(ctx),
        solvent_deposit(*old(ctx)) ==> solvent_deposit(*final(ctx)),
{
    instructions::deposit::handler(ctx, amount)
}

/// Burns `receipt_amount` of the caller's receipts at once and opens a
/// cooldown-gated withdrawal ticket locking in that entitlement; fails
/// untouched if a ticket is already outstanding.
pub fn request_withdrawal(ctx: &mut RequestWithdrawal, receipt_amount: u64) -> (r: Result<
    (),
    VaultError,
>)
    requires
        0 <= old(ctx).clock <= i64::MAX - state::COOLDOWN_SECONDS,
    ensures
        (*final(ctx), r) == spec_handle_withdraw(*old(ctx), receipt_amount),
        r is Err ==> *final(ctx) == *old(ctx),
{
    instructions::withdraw::handle_withdraw(ctx, receipt_amount)
}

/// Settles the caller's ticket once the cooldown has elapsed: pays the ticket
/// amount minus the basis-point fee to the caller and the fee to the admin,
/// lowers the running total by the full ticket amount, and destroys the
/// ticket — all or none.
pub fn claim(ctx: &mut Claim) -> (r: Result<(), VaultError>)
    requires
        old(ctx).withdrawal_ticket matches Some(t) ==> state::ticket_wf(t),
    ensures
        (*final(ctx), r) == spec_handle_claim(*old(ctx)),
        r is Err ==> *final(ctx) == *old(ctx),
        solvent_claim(*old(ctx)) ==> solvent_claim(*final(ctx)),
{
    instructions::claim::handle_claim(ctx)
}

/// Solvency read off a deposit call's records.
pub open spec fn solvent_deposit(ctx: Deposit) -> bool {
    state::solvent(ctx.vault_state, ctx.vault_token_account)
}

/// Solvency read off a claim call's records.
pub open spec fn solvent_claim(ctx: Claim) -> bool {
    state::solvent(ctx.vault_state, ctx.vault_token_account)
}

} // verus!
