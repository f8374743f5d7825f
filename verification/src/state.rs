use vstd::prelude::*;

use crate::pda::AccountId;
use crate::token::TokenAccount;

verus! {

/// Seconds a withdrawal ticket must age before it can be claimed: a full day.
pub const COOLDOWN_SECONDS: i64 = 86_400;

/// The singleton configuration and accounting record of one vault, stored at
/// the address derived from its admin's key. It is written only by the vault's
/// own operations.
#[derive(Clone, Copy, Debug, PartialEq, Eq, Structural)]
pub struct VaultState {
    /// Key of the controlling principal: may pause the vault and receives fees.
    pub admin: u64,
    /// Address of the asset users deposit.
    pub accepted_mint: AccountId,
    /// Address of the receipt asset minted 1:1 on deposit; its mint and burn
    /// authority is exclusively the vault's own derived identity.
    pub receipt_mint: AccountId,
    /// Running total of asset units held on behalf of users; equals the
    /// held-balance account's balance between operations.
    pub total_deposited: u64,
    /// Claim-time fee in basis points.
    pub fee_bps: u16,
    /// While true, deposits and withdrawal requests are rejected; claims are
    /// not, so users can always exit.
    pub is_paused: bool,
    /// Derivation salt of this record's address, fixed at creation.
    pub bump: u8,
    /// Derivation salt of the held-balance account's address, fixed at creation.
    pub vault_token_bump: u8,
}

/// A pending withdrawal: one per user per vault, created by a withdrawal
/// request, never mutated, destroyed by the claim that settles it.
#[derive(Clone, Copy, Debug, PartialEq, Eq, Structural)]
pub struct WithdrawalTicket {
    /// Key of the user the ticket belongs to; only this user can claim it.
    pub user: u64,
    /// Receipt tokens burned to open the ticket: the amount it entitles the
    /// user to before the fee.
    pub receipt_amount: u64,
    /// Timestamp at creation; the claim is gated on its age.
    pub requested_at: i64,
    /// Derivation salt of the ticket's address.
    pub bump: u8,
}

/// A ticket as the request operation writes it: stamped with a clock reading,
/// which is never negative and leaves the cooldown deadline representable.
pub open spec fn ticket_wf(t: WithdrawalTicket) -> bool {
    0 <= t.requested_at <= i64::MAX - COOLDOWN_SECONDS
}

/// The solvency invariant: the recorded running total equals the balance the
/// vault actually holds. Every operation preserves it, so it holds at every
/// point between operations, whatever sequence of deposits and settled claims
/// led there.
pub open spec fn solvent(vs: VaultState, held: TokenAccount) -> bool {
    vs.total_deposited == held.amount
}

} // verus!
