//! The cross-operation guarantees of the vault, stated and proved over the
//! same specification functions the operations' own contracts use.

use vstd::prelude::*;

use crate::instructions::claim::Claim;
use crate::instructions::claim::fee_of;
use crate::instructions::claim::spec_handle_claim;
use crate::instructions::claim::user_amount_of;
use crate::instructions::deposit::Deposit;
use crate::instructions::deposit::deposit_accounts_ok;
use crate::instructions::deposit::spec_handle_deposit;
use crate::instructions::withdraw::RequestWithdrawal;
use crate::instructions::withdraw::spec_handle_withdraw;
use crate::pda::AccountId;
use crate::state::COOLDOWN_SECONDS;
use crate::state::VaultState;
use crate::state::WithdrawalTicket;
use crate::state::solvent;
use crate::token::MintAccount;
use crate::token::TokenAccount;
use vstd::arithmetic::div_mod::lemma_div_is_ordered;
use vstd::arithmetic::div_mod::lemma_div_multiples_vanish;
use vstd::arithmetic::mul::lemma_mul_inequality;
use vstd::arithmetic::mul::lemma_mul_is_commutative;

verus! {

/// What a ticket slot owes its user: the amount of the ticket it holds, or
/// nothing when it is empty.
pub open spec fn ticket_amount(slot: Option<WithdrawalTicket>) -> int {
    match slot {
        Some(t) => t.receipt_amount as int,
        None => 0,
    }
}

/// What the running total exceeds the vault's liabilities by: liabilities are
/// the receipts in circulation plus the amount locked in the ticket slot in
/// view. The operations keep this difference constant — zero from creation
/// on — so every outstanding claim is backed by the held balance, and the
/// subtraction that settles a genuine ticket can never underflow.
pub open spec fn backing_slack(
    vs: VaultState,
    receipt_mint: MintAccount,
    slot: Option<WithdrawalTicket>,
) -> int {
    vs.total_deposited - receipt_mint.supply - ticket_amount(slot)
}

/// Solvency at every point between operations: a deposit moves the running
/// total and the held balance in step, so it preserves the solvency
/// invariant, whatever its outcome.
pub proof fn lemma_deposit_preserves_solvency(d: Deposit, amount: u64)
    ensures
        solvent(d.vault_state, d.vault_token_account) ==> solvent(
            spec_handle_deposit(d, amount).0.vault_state,
            spec_handle_deposit(d, amount).0.vault_token_account,
        ),
{
}

/// Solvency at every point between operations: a withdrawal request touches
/// neither the running total nor the held balance, so it preserves the
/// solvency invariant against any holding, whatever its outcome.
pub proof fn lemma_withdraw_preserves_solvency(
    w: RequestWithdrawal,
    held: TokenAccount,
    receipt_amount: u64,
)
    ensures
        solvent(w.vault_state, held) ==> solvent(
            spec_handle_withdraw(w, receipt_amount).0.vault_state,
            held,
        ),
{
}

/// Solvency at every point between operations: a claim pays the full ticket
/// amount out of the held balance and lowers the running total by the same
/// amount, so it preserves the solvency invariant, whatever its outcome.
pub proof fn lemma_claim_preserves_solvency(c: Claim)
    ensures
        solvent(c.vault_state, c.vault_token_account) ==> solvent(
            spec_handle_claim(c).0.vault_state,
            spec_handle_claim(c).0.vault_token_account,
        ),
{
}

/// A deposit raises the running total and the receipt supply in step and
/// names no ticket slot, so it leaves the backing slack of every slot
/// unchanged, whatever its outcome.
pub proof fn lemma_deposit_preserves_backing(
    d: Deposit,
    slot: Option<WithdrawalTicket>,
    amount: u64,
)
    ensures
        backing_slack(
            spec_handle_deposit(d, amount).0.vault_state,
            spec_handle_deposit(d, amount).0.receipt_mint,
            slot,
        ) == backing_slack(d.vault_state, d.receipt_mint, slot),
{
}

/// A withdrawal request moves value from the receipt supply into its own
/// ticket slot and leaves the running total alone, so it leaves the backing
/// slack unchanged, whatever its outcome.
pub proof fn lemma_withdraw_preserves_backing(w: RequestWithdrawal, receipt_amount: u64)
    ensures
        backing_slack(
            spec_handle_withdraw(w, receipt_amount).0.vault_state,
            spec_handle_withdraw(w, receipt_amount).0.receipt_mint,
            spec_handle_withdraw(w, receipt_amount).0.withdrawal_ticket,
        ) == backing_slack(w.vault_state, w.receipt_mint, w.withdrawal_ticket),
{
}

/// A claim lowers the running total by exactly the ticket amount it destroys
/// and names no receipt asset, so it leaves the backing slack unchanged,
/// whatever its outcome.
pub proof fn lemma_claim_preserves_backing(c: Claim, receipt_mint: MintAccount)
    ensures
        backing_slack(
            spec_handle_claim(c).0.vault_state,
            receipt_mint,
            spec_handle_claim(c).0.withdrawal_ticket,
        ) == backing_slack(c.vault_state, receipt_mint, c.withdrawal_ticket),
{
}

/// The vault-side records that persist between operations and carry the
/// solvency invariant.
pub struct VaultRecords {
    pub vault_state: VaultState,
    pub vault_token: TokenAccount,
    pub receipt_mint: MintAccount,
}

/// One operation against the vault, together with the caller-side records it
/// names; the caller-side records are arbitrary, so a sequence of events can
/// describe any users doing anything in any order.
pub enum VaultEvent {
    DepositEvent {
        user: u64,
        user_token: TokenAccount,
        user_receipt: TokenAccount,
        amount: u64,
    },
    RequestEvent {
        user: u64,
        user_receipt: TokenAccount,
        slot: Option<WithdrawalTicket>,
        receipt_amount: u64,
        clock: i64,
    },
    ClaimEvent {
        user: u64,
        user_token: TokenAccount,
        admin_token: TokenAccount,
        slot: Option<WithdrawalTicket>,
        clock: i64,
    },
}

/// The vault-side records after one event: the event's operation runs against
/// the current records and the event's caller-side records, and whatever the
/// outcome, the vault-side records it leaves behind are kept.
pub open spec fn apply_event(r: VaultRecords, e: VaultEvent) -> VaultRecords {
    match e {
        VaultEvent::DepositEvent { user, user_token, user_receipt, amount } => {
            let d = Deposit {
                user,
                vault_state: r.vault_state,
                user_token_account: user_token,
                vault_token_account: r.vault_token,
                receipt_mint: r.receipt_mint,
                user_receipt_account: user_receipt,
            };
            let d1 = spec_handle_deposit(d, amount).0;
            VaultRecords {
                vault_state: d1.vault_state,
                vault_token: d1.vault_token_account,
                receipt_mint: d1.receipt_mint,
            }
        },
        VaultEvent::RequestEvent { user, user_receipt, slot, receipt_amount, clock } => {
            let w = RequestWithdrawal {
                user,
                vault_state: r.vault_state,
                receipt_mint: r.receipt_mint,
                user_receipt_account: user_receipt,
                withdrawal_ticket: slot,
                clock,
            };
            let w1 = spec_handle_withdraw(w, receipt_amount).0;
            VaultRecords { vault_state: w1.vault_state, receipt_mint: w1.receipt_mint, ..r }
        },
        VaultEvent::ClaimEvent { user, user_token, admin_token, slot, clock } => {
            let c = Claim {
                user,
                vault_state: r.vault_state,
                vault_token_account: r.vault_token,
                user_token_account: user_token,
                admin_token_account: admin_token,
                withdrawal_ticket: slot,
                clock,
            };
            let c1 = spec_handle_claim(c).0;
            VaultRecords { vault_state: c1.vault_state, vault_token: c1.vault_token_account, ..r }
        },
    }
}

/// The vault-side records after a whole sequence of events, first to last.
pub open spec fn apply_events(r: VaultRecords, es: Seq<VaultEvent>) -> VaultRecords
    decreases es.len(),
{
    if es.len() == 0 {
        r
    } else {
        apply_events(apply_event(r, es[0]), es.skip(1))
    }
}

/// No single event, whatever its operation, caller or outcome, breaks the
/// solvency invariant.
pub proof fn lemma_event_preserves_solvency(r: VaultRecords, e: VaultEvent)
    requires
        solvent(r.vault_state, r.vault_token),
    ensures
        solvent(apply_event(r, e).vault_state, apply_event(r, e).vault_token),
{
}

/// The solvency invariant for all sequences: start solvent — as a freshly
/// created vault is, with a zero total and an empty held balance — and after
/// any sequence of deposits, withdrawal requests and claims, by any users
/// with any holdings, in any order, succeeding or failing, the running total
/// still equals the held balance. Applied to every prefix of a sequence, it
/// holds at every point between operations.
pub proof fn lemma_solvency_for_all_sequences(r: VaultRecords, es: Seq<VaultEvent>)
    requires
        solvent(r.vault_state, r.vault_token),
    ensures
        solvent(apply_events(r, es).vault_state, apply_events(r, es).vault_token),
    decreases es.len(),
{
    if es.len() > 0 {
        lemma_event_preserves_solvency(r, es[0]);
        lemma_solvency_for_all_sequences(apply_event(r, es[0]), es.skip(1));
    }
}

/// As long as the fee rate stays within the full range of 10000 basis
/// points, the fee never exceeds the amount it is charged on, so the user's
/// share never underflows.
pub proof fn lemma_fee_le_amount(receipt_amount: u64, fee_bps: u16)
    requires
        fee_bps <= 10000,
    ensures
        0 <= fee_of(receipt_amount, fee_bps) <= receipt_amount,
        0 <= user_amount_of(receipt_amount, fee_bps) <= receipt_amount,
{
    let ra = receipt_amount as int;
    let bps = fee_bps as int;
    lemma_mul_inequality(bps, 10000, ra);
    lemma_mul_is_commutative(bps, ra);
    lemma_mul_is_commutative(10000, ra);
    lemma_div_is_ordered(ra * bps, ra * 10000, 10000);
    lemma_div_multiples_vanish(ra, 10000);
    assert(ra * 10000 == 10000 * ra);
}

/// A zero fee rate charges nothing: the user's share is the whole ticket
/// amount and the admin's share is zero.
pub proof fn lemma_fee_bps_zero(receipt_amount: u64)
    ensures
        fee_of(receipt_amount, 0) == 0,
        user_amount_of(receipt_amount, 0) == receipt_amount,
{
    assert(receipt_amount * 0 == 0);
}

/// A fee rate of 10000 basis points charges everything: the fee is the whole
/// ticket amount and the user's share is zero.
pub proof fn lemma_fee_bps_full(receipt_amount: u64)
    ensures
        fee_of(receipt_amount, 10000) == receipt_amount,
        user_amount_of(receipt_amount, 10000) == 0,
{
    let ra = receipt_amount as int;
    lemma_div_multiples_vanish(ra, 10000);
    assert(ra * 10000 == 10000 * ra);
}

/// The full life of a deposit: depositing, at once requesting withdrawal of
/// the whole minted receipt amount, and claiming after the cooldown, all
/// succeed, pay `amount - floor(amount * fee_bps / 10000)` to the user and
/// the fee to the admin, and leave the running total, the held balance, the
/// receipt supply and the user's receipt balance at their pre-deposit
/// values, with no ticket outstanding.
///
/// The hypotheses are the world the story needs: the deposit's records pass
/// their structural checks and the deposit itself succeeds, the held balance
/// is under the vault's own authority, the admin's fee destination is the
/// admin's holding of the accepted asset, no ticket is outstanding, the fee
/// rate is within range, the fee product and the admin's balance stay
/// representable, and the claim comes no earlier than a full day after the
/// request.
pub proof fn lemma_deposit_request_claim_round_trip(
    d: Deposit,
    admin_token: TokenAccount,
    request_clock: i64,
    claim_clock: i64,
    amount: u64,
)
    requires
        spec_handle_deposit(d, amount).1 is Ok,
        d.vault_token_account.owner == AccountId::VaultStateAccount(d.vault_state.admin),
        admin_token.owner == AccountId::Key(d.vault_state.admin),
        admin_token.mint == d.vault_state.accepted_mint,
        d.vault_state.fee_bps <= 10000,
        amount * d.vault_state.fee_bps <= u64::MAX,
        admin_token.amount + fee_of(amount, d.vault_state.fee_bps) <= u64::MAX,
        0 <= request_clock <= i64::MAX - COOLDOWN_SECONDS,
        claim_clock >= request_clock + COOLDOWN_SECONDS,
    ensures
        ({
            let (d1, r1) = spec_handle_deposit(d, amount);
            let w = RequestWithdrawal {
                user: d.user,
                vault_state: d1.vault_state,
                receipt_mint: d1.receipt_mint,
                user_receipt_account: d1.user_receipt_account,
                withdrawal_ticket: None,
                clock: request_clock,
            };
            let (w1, r2) = spec_handle_withdraw(w, amount);
            let c = Claim {
                user: d.user,
                vault_state: w1.vault_state,
                vault_token_account: d1.vault_token_account,
                user_token_account: d1.user_token_account,
                admin_token_account: admin_token,
                withdrawal_ticket: w1.withdrawal_ticket,
                clock: claim_clock,
            };
            let (c1, r3) = spec_handle_claim(c);
            let fee = fee_of(amount, d.vault_state.fee_bps);
            &&& r2 is Ok
            &&& r3 is Ok
            &&& c1.user_token_account.amount == d1.user_token_account.amount + user_amount_of(
                amount,
                d.vault_state.fee_bps,
            )
            &&& c1.user_token_account.amount == d.user_token_account.amount - fee
            &&& c1.admin_token_account.amount == admin_token.amount + fee
            &&& c1.vault_state.total_deposited == d.vault_state.total_deposited
            &&& c1.vault_token_account.amount == d.vault_token_account.amount
            &&& w1.receipt_mint.supply == d.receipt_mint.supply
            &&& w1.user_receipt_account.amount == d.user_receipt_account.amount
            &&& c1.withdrawal_ticket is None
        }),
{
    let (d1, r1) = spec_handle_deposit(d, amount);
    assert(deposit_accounts_ok(d));
    let w = RequestWithdrawal {
        user: d.user,
        vault_state: d1.vault_state,
        receipt_mint: d1.receipt_mint,
        user_receipt_account: d1.user_receipt_account,
        withdrawal_ticket: None,
        clock: request_clock,
    };
    let (w1, r2) = spec_handle_withdraw(w, amount);
    assert(r2 is Ok);
    let c = Claim {
        user: d.user,
        vault_state: w1.vault_state,
        vault_token_account: d1.vault_token_account,
        user_token_account: d1.user_token_account,
        admin_token_account: admin_token,
        withdrawal_ticket: w1.withdrawal_ticket,
        clock: claim_clock,
    };
    let (c1, r3) = spec_handle_claim(c);
    lemma_fee_le_amount(amount, d.vault_state.fee_bps);
    assert(r3 is Ok);
}

} // verus!
