use spl_token_vault::claim;
use spl_token_vault::deposit;
use spl_token_vault::initialize;
use spl_token_vault::request_withdrawal;
use spl_token_vault::Claim;
use spl_token_vault::Deposit;
use spl_token_vault::Initialize;
use spl_token_vault::RequestWithdrawal;
use spl_token_vault::VaultError;
use spl_token_vault::VaultState;
use spl_token_vault::WithdrawalTicket;
use spl_token_vault::pda::AccountId;
use spl_token_vault::state::COOLDOWN_SECONDS;
use spl_token_vault::token::MintAccount;
use spl_token_vault::token::TokenAccount;

const ADMIN: u64 = 7;
const USER: u64 = 9;
const OTHER_USER: u64 = 11;
const ACCEPTED_KEY: u64 = 100;
const RECEIPT_KEY: u64 = 101;

struct World {
    accepted: MintAccount,
    receipt: MintAccount,
    vault_state: VaultState,
    vault_token: TokenAccount,
}

fn setup(fee_bps: u16) -> World {
    let mut ctx = Initialize {
        admin: ADMIN,
        accepted_mint: MintAccount {
            addr: AccountId::Key(ACCEPTED_KEY),
            authority: AccountId::Key(1),
            supply: 1_000_000,
            decimals: 6,
        },
        receipt_mint_key: RECEIPT_KEY,
        receipt_mint: None,
        vault_state: None,
        vault_token_account: None,
    };
    let r = initialize(&mut ctx, fee_bps);
    assert!(r.is_ok());
    World {
        accepted: ctx.accepted_mint,
        receipt: ctx.receipt_mint.unwrap(),
        vault_state: ctx.vault_state.unwrap(),
        vault_token: ctx.vault_token_account.unwrap(),
    }
}

fn accepted_holding(addr: u64, owner: u64, amount: u64) -> TokenAccount {
    TokenAccount {
        addr: AccountId::Key(addr),
        owner: AccountId::Key(owner),
        mint: AccountId::Key(ACCEPTED_KEY),
        amount,
    }
}

fn receipt_holding(addr: u64, owner: u64) -> TokenAccount {
    TokenAccount {
        addr: AccountId::Key(addr),
        owner: AccountId::Key(owner),
        mint: AccountId::Key(RECEIPT_KEY),
        amount: 0,
    }
}

fn do_deposit(
    w: &mut World,
    user: u64,
    user_token: &mut TokenAccount,
    user_receipt: &mut TokenAccount,
    amount: u64,
) -> Result<(), VaultError> {
    let mut ctx = Deposit {
        user,
        vault_state: w.vault_state,
        user_token_account: *user_token,
        vault_token_account: w.vault_token,
        receipt_mint: w.receipt,
        user_receipt_account: *user_receipt,
    };
    let r = deposit(&mut ctx, amount);
    w.vault_state = ctx.vault_state;
    w.vault_token = ctx.vault_token_account;
    w.receipt = ctx.receipt_mint;
    *user_token = ctx.user_token_account;
    *user_receipt = ctx.user_receipt_account;
    r
}

fn do_request(
    w: &mut World,
    user: u64,
    user_receipt: &mut TokenAccount,
    slot: &mut Option<WithdrawalTicket>,
    receipt_amount: u64,
    clock: i64,
) -> Result<(), VaultError> {
    let mut ctx = RequestWithdrawal {
        user,
        vault_state: w.vault_state,
        receipt_mint: w.receipt,
        user_receipt_account: *user_receipt,
        withdrawal_ticket: *slot,
        clock,
    };
    let r = request_withdrawal(&mut ctx, receipt_amount);
    w.vault_state = ctx.vault_state;
    w.receipt = ctx.receipt_mint;
    *user_receipt = ctx.user_receipt_account;
    *slot = ctx.withdrawal_ticket;
    r
}

fn do_claim(
    w: &mut World,
    user: u64,
    user_token: &mut TokenAccount,
    admin_token: &mut TokenAccount,
    slot: &mut Option<WithdrawalTicket>,
    clock: i64,
) -> Result<(), VaultError> {
    let mut ctx = Claim {
        user,
        vault_state: w.vault_state,
        vault_token_account: w.vault_token,
        user_token_account: *user_token,
        admin_token_account: *admin_token,
        withdrawal_ticket: *slot,
        clock,
    };
    let r = claim(&mut ctx);
    w.vault_state = ctx.vault_state;
    w.vault_token = ctx.vault_token_account;
    *user_token = ctx.user_token_account;
    *admin_token = ctx.admin_token_account;
    *slot = ctx.withdrawal_ticket;
    r
}

#[test]
fn initialize_creates_vault() {
    let w = setup(250);
    assert_eq!(w.vault_state.admin, ADMIN);
    assert_eq!(w.vault_state.accepted_mint, AccountId::Key(ACCEPTED_KEY));
    assert_eq!(w.vault_state.receipt_mint, AccountId::Key(RECEIPT_KEY));
    assert_eq!(w.vault_state.total_deposited, 0);
    assert_eq!(w.vault_state.fee_bps, 250);
    assert!(!w.vault_state.is_paused);
    assert_eq!(w.receipt.supply, 0);
    assert_eq!(w.receipt.authority, AccountId::VaultStateAccount(ADMIN));
    assert_eq!(w.receipt.decimals, 6);
    assert_eq!(w.vault_token.amount, 0);
    assert_eq!(w.vault_token.owner, AccountId::VaultStateAccount(ADMIN));
    assert_eq!(w.vault_token.addr, AccountId::VaultTokenAccount(ADMIN));
}

#[test]
fn initialize_fails_when_vault_exists() {
    let w = setup(250);
    let mut ctx = Initialize {
        admin: ADMIN,
        accepted_mint: w.accepted,
        receipt_mint_key: RECEIPT_KEY,
        receipt_mint: Some(w.receipt),
        vault_state: Some(w.vault_state),
        vault_token_account: Some(w.vault_token),
    };
    let before = ctx;
    let r = initialize(&mut ctx, 0);
    assert_eq!(r, Err(VaultError::AccountAlreadyExists));
    assert_eq!(ctx, before);
}

#[test]
fn deposit_moves_funds_and_mints_receipts() {
    let mut w = setup(250);
    let mut ut = accepted_holding(200, USER, 5_000);
    let mut ur = receipt_holding(201, USER);
    let r = do_deposit(&mut w, USER, &mut ut, &mut ur, 1_000);
    assert_eq!(r, Ok(()));
    assert_eq!(ut.amount, 4_000);
    assert_eq!(w.vault_token.amount, 1_000);
    assert_eq!(ur.amount, 1_000);
    assert_eq!(w.receipt.supply, 1_000);
    assert_eq!(w.vault_state.total_deposited, 1_000);
}

#[test]
fn deposit_zero_amount_changes_nothing_but_succeeds() {
    let mut w = setup(250);
    let mut ut = accepted_holding(200, USER, 5_000);
    let mut ur = receipt_holding(201, USER);
    let r = do_deposit(&mut w, USER, &mut ut, &mut ur, 0);
    assert_eq!(r, Ok(()));
    assert_eq!(ut.amount, 5_000);
    assert_eq!(w.vault_token.amount, 0);
    assert_eq!(ur.amount, 0);
    assert_eq!(w.vault_state.total_deposited, 0);
}

#[test]
fn deposit_rejected_while_paused() {
    let mut w = setup(250);
    w.vault_state.is_paused = true;
    let mut ut = accepted_holding(200, USER, 5_000);
    let mut ur = receipt_holding(201, USER);
    let before_ut = ut;
    let r = do_deposit(&mut w, USER, &mut ut, &mut ur, 1_000);
    assert_eq!(r, Err(VaultError::VaultPaused));
    assert_eq!(ut, before_ut);
    assert_eq!(w.vault_token.amount, 0);
    assert_eq!(w.vault_state.total_deposited, 0);
}

#[test]
fn deposit_insufficient_source_balance() {
    let mut w = setup(250);
    let mut ut = accepted_holding(200, USER, 500);
    let mut ur = receipt_holding(201, USER);
    let r = do_deposit(&mut w, USER, &mut ut, &mut ur, 1_000);
    assert_eq!(r, Err(VaultError::InsufficientBalance));
    assert_eq!(ut.amount, 500);
    assert_eq!(ur.amount, 0);
    assert_eq!(w.vault_state.total_deposited, 0);
}

#[test]
fn deposit_overflowing_running_total_fails_unchanged() {
    let mut w = setup(250);
    w.vault_state.total_deposited = u64::MAX;
    let mut ut = accepted_holding(200, USER, 5_000);
    let mut ur = receipt_holding(201, USER);
    let before_state = w.vault_state;
    let before_ut = ut;
    let before_ur = ur;
    let r = do_deposit(&mut w, USER, &mut ut, &mut ur, 1);
    assert_eq!(r, Err(VaultError::ArithmeticOverflow));
    assert_eq!(w.vault_state, before_state);
    assert_eq!(ut, before_ut);
    assert_eq!(ur, before_ur);
    assert_eq!(w.vault_token.amount, 0);
    assert_eq!(w.receipt.supply, 0);
}

#[test]
fn deposit_from_foreign_account_rejected() {
    let mut w = setup(250);
    let mut ut = accepted_holding(200, OTHER_USER, 5_000);
    let mut ur = receipt_holding(201, USER);
    let r = do_deposit(&mut w, USER, &mut ut, &mut ur, 1_000);
    assert_eq!(r, Err(VaultError::Unauthorized));
    assert_eq!(ut.amount, 5_000);
    assert_eq!(w.vault_state.total_deposited, 0);
}

#[test]
fn request_burns_receipts_and_opens_ticket() {
    let mut w = setup(250);
    let mut ut = accepted_holding(200, USER, 5_000);
    let mut ur = receipt_holding(201, USER);
    do_deposit(&mut w, USER, &mut ut, &mut ur, 1_000).unwrap();
    let mut slot: Option<WithdrawalTicket> = None;
    let r = do_request(&mut w, USER, &mut ur, &mut slot, 400, 10_000);
    assert_eq!(r, Ok(()));
    assert_eq!(ur.amount, 600);
    assert_eq!(w.receipt.supply, 600);
    let t = slot.unwrap();
    assert_eq!(t.user, USER);
    assert_eq!(t.receipt_amount, 400);
    assert_eq!(t.requested_at, 10_000);
    assert_eq!(w.vault_state.total_deposited, 1_000);
    assert_eq!(w.vault_token.amount, 1_000);
}

#[test]
fn request_exceeding_receipt_balance_creates_no_ticket() {
    let mut w = setup(250);
    let mut ut = accepted_holding(200, USER, 5_000);
    let mut ur = receipt_holding(201, USER);
    do_deposit(&mut w, USER, &mut ut, &mut ur, 1_000).unwrap();
    let mut slot: Option<WithdrawalTicket> = None;
    let r = do_request(&mut w, USER, &mut ur, &mut slot, 1_001, 10_000);
    assert_eq!(r, Err(VaultError::InsufficientBalance));
    assert!(slot.is_none());
    assert_eq!(ur.amount, 1_000);
    assert_eq!(w.receipt.supply, 1_000);
}

#[test]
fn request_rejected_while_paused() {
    let mut w = setup(250);
    let mut ut = accepted_holding(200, USER, 5_000);
    let mut ur = receipt_holding(201, USER);
    do_deposit(&mut w, USER, &mut ut, &mut ur, 1_000).unwrap();
    w.vault_state.is_paused = true;
    let mut slot: Option<WithdrawalTicket> = None;
    let r = do_request(&mut w, USER, &mut ur, &mut slot, 400, 10_000);
    assert_eq!(r, Err(VaultError::VaultPaused));
    assert!(slot.is_none());
    assert_eq!(ur.amount, 1_000);
}

#[test]
fn second_request_with_ticket_outstanding_fails() {
    let mut w = setup(250);
    let mut ut = accepted_holding(200, USER, 5_000);
    let mut ur = receipt_holding(201, USER);
    do_deposit(&mut w, USER, &mut ut, &mut ur, 1_000).unwrap();
    let mut slot: Option<WithdrawalTicket> = None;
    do_request(&mut w, USER, &mut ur, &mut slot, 400, 10_000).unwrap();
    let ticket_a = slot.unwrap();
    let r = do_request(&mut w, USER, &mut ur, &mut slot, 200, 11_000);
    assert_eq!(r, Err(VaultError::AccountAlreadyExists));
    assert_eq!(slot, Some(ticket_a));
    assert_eq!(ticket_a.receipt_amount, 400);
    assert_eq!(ur.amount, 600);
    assert_eq!(w.receipt.supply, 600);
}

#[test]
fn claim_before_cooldown_fails() {
    let mut w = setup(250);
    let mut ut = accepted_holding(200, USER, 5_000);
    let mut ur = receipt_holding(201, USER);
    do_deposit(&mut w, USER, &mut ut, &mut ur, 1_000).unwrap();
    let mut slot: Option<WithdrawalTicket> = None;
    do_request(&mut w, USER, &mut ur, &mut slot, 400, 10_000).unwrap();
    let mut admin_token = accepted_holding(300, ADMIN, 0);
    let before_state = w.vault_state;
    let r = do_claim(
        &mut w,
        USER,
        &mut ut,
        &mut admin_token,
        &mut slot,
        10_000 + COOLDOWN_SECONDS - 1,
    );
    assert_eq!(r, Err(VaultError::CooldownNotElapsed));
    assert!(slot.is_some());
    assert_eq!(w.vault_state, before_state);
    assert_eq!(w.vault_token.amount, 1_000);
}

#[test]
fn claim_at_exact_cooldown_boundary_succeeds() {
    let mut w = setup(250);
    let mut ut = accepted_holding(200, USER, 5_000);
    let mut ur = receipt_holding(201, USER);
    do_deposit(&mut w, USER, &mut ut, &mut ur, 1_000).unwrap();
    let mut slot: Option<WithdrawalTicket> = None;
    do_request(&mut w, USER, &mut ur, &mut slot, 400, 10_000).unwrap();
    let mut admin_token = accepted_holding(300, ADMIN, 0);
    let r = do_claim(&mut w, USER, &mut ut, &mut admin_token, &mut slot, 10_000 + COOLDOWN_SECONDS);
    assert_eq!(r, Ok(()));
    assert!(slot.is_none());
}

#[test]
fn claim_pays_fee_split_and_restores_total() {
    let mut w = setup(250);
    let mut ut = accepted_holding(200, USER, 5_000);
    let mut ur = receipt_holding(201, USER);
    do_deposit(&mut w, USER, &mut ut, &mut ur, 1_000).unwrap();
    let mut slot: Option<WithdrawalTicket> = None;
    do_request(&mut w, USER, &mut ur, &mut slot, 1_000, 10_000).unwrap();
    let mut admin_token = accepted_holding(300, ADMIN, 50);
    let r = do_claim(&mut w, USER, &mut ut, &mut admin_token, &mut slot, 10_000 + COOLDOWN_SECONDS);
    assert_eq!(r, Ok(()));
    assert_eq!(ut.amount, 4_000 + 975);
    assert_eq!(admin_token.amount, 50 + 25);
    assert_eq!(w.vault_token.amount, 0);
    assert_eq!(w.vault_state.total_deposited, 0);
    assert!(slot.is_none());
}

#[test]
fn claim_fee_rounds_down_in_vault_favor() {
    let mut w = setup(250);
    let mut ut = accepted_holding(200, USER, 5_000);
    let mut ur = receipt_holding(201, USER);
    do_deposit(&mut w, USER, &mut ut, &mut ur, 999).unwrap();
    let mut slot: Option<WithdrawalTicket> = None;
    do_request(&mut w, USER, &mut ur, &mut slot, 999, 10_000).unwrap();
    let mut admin_token = accepted_holding(300, ADMIN, 0);
    let r = do_claim(&mut w, USER, &mut ut, &mut admin_token, &mut slot, 10_000 + COOLDOWN_SECONDS);
    assert_eq!(r, Ok(()));
    assert_eq!(admin_token.amount, 24);
    assert_eq!(ut.amount, 5_000 - 999 + 975);
}

#[test]
fn claim_with_zero_fee_pays_user_everything() {
    let mut w = setup(0);
    let mut ut = accepted_holding(200, USER, 5_000);
    let mut ur = receipt_holding(201, USER);
    do_deposit(&mut w, USER, &mut ut, &mut ur, 1_000).unwrap();
    let mut slot: Option<WithdrawalTicket> = None;
    do_request(&mut w, USER, &mut ur, &mut slot, 1_000, 10_000).unwrap();
    let mut admin_token = accepted_holding(300, ADMIN, 0);
    let r = do_claim(&mut w, USER, &mut ut, &mut admin_token, &mut slot, 10_000 + COOLDOWN_SECONDS);
    assert_eq!(r, Ok(()));
    assert_eq!(ut.amount, 5_000);
    assert_eq!(admin_token.amount, 0);
    assert_eq!(w.vault_state.total_deposited, 0);
}

#[test]
fn claim_with_full_fee_pays_admin_everything() {
    let mut w = setup(10_000);
    let mut ut = accepted_holding(200, USER, 5_000);
    let mut ur = receipt_holding(201, USER);
    do_deposit(&mut w, USER, &mut ut, &mut ur, 1_000).unwrap();
    let mut slot: Option<WithdrawalTicket> = None;
    do_request(&mut w, USER, &mut ur, &mut slot, 1_000, 10_000).unwrap();
    let mut admin_token = accepted_holding(300, ADMIN, 0);
    let r = do_claim(&mut w, USER, &mut ut, &mut admin_token, &mut slot, 10_000 + COOLDOWN_SECONDS);
    assert_eq!(r, Ok(()));
    assert_eq!(ut.amount, 4_000);
    assert_eq!(admin_token.amount, 1_000);
    assert_eq!(w.vault_state.total_deposited, 0);
}

#[test]
fn claim_still_succeeds_while_paused() {
    let mut w = setup(250);
    let mut ut = accepted_holding(200, USER, 5_000);
    let mut ur = receipt_holding(201, USER);
    do_deposit(&mut w, USER, &mut ut, &mut ur, 1_000).unwrap();
    let mut slot: Option<WithdrawalTicket> = None;
    do_request(&mut w, USER, &mut ur, &mut slot, 400, 10_000).unwrap();
    w.vault_state.is_paused = true;
    let mut admin_token = accepted_holding(300, ADMIN, 0);
    let r = do_claim(&mut w, USER, &mut ut, &mut admin_token, &mut slot, 10_000 + COOLDOWN_SECONDS);
    assert_eq!(r, Ok(()));
    assert!(slot.is_none());
}

#[test]
fn claim_without_ticket_fails() {
    let mut w = setup(250);
    let mut ut = accepted_holding(200, USER, 5_000);
    let mut admin_token = accepted_holding(300, ADMIN, 0);
    let mut slot: Option<WithdrawalTicket> = None;
    let r = do_claim(&mut w, USER, &mut ut, &mut admin_token, &mut slot, 1_000_000);
    assert_eq!(r, Err(VaultError::NoPendingWithdrawal));
}

#[test]
fn claim_by_wrong_user_fails() {
    let mut w = setup(250);
    let mut ut = accepted_holding(200, USER, 5_000);
    let mut ur = receipt_holding(201, USER);
    do_deposit(&mut w, USER, &mut ut, &mut ur, 1_000).unwrap();
    let mut slot: Option<WithdrawalTicket> = None;
    do_request(&mut w, USER, &mut ur, &mut slot, 400, 10_000).unwrap();
    let mut other_token = accepted_holding(400, OTHER_USER, 0);
    let mut admin_token = accepted_holding(300, ADMIN, 0);
    let r = do_claim(
        &mut w,
        OTHER_USER,
        &mut other_token,
        &mut admin_token,
        &mut slot,
        10_000 + COOLDOWN_SECONDS,
    );
    assert_eq!(r, Err(VaultError::Unauthorized));
    assert!(slot.is_some());
    assert_eq!(other_token.amount, 0);
    assert_eq!(w.vault_token.amount, 1_000);
}

#[test]
fn zero_amount_ticket_settles_and_closes() {
    let mut w = setup(250);
    let mut ut = accepted_holding(200, USER, 5_000);
    let mut ur = receipt_holding(201, USER);
    let mut slot: Option<WithdrawalTicket> = None;
    let r = do_request(&mut w, USER, &mut ur, &mut slot, 0, 10_000);
    assert_eq!(r, Ok(()));
    assert_eq!(slot.unwrap().receipt_amount, 0);
    let mut admin_token = accepted_holding(300, ADMIN, 0);
    let r = do_claim(&mut w, USER, &mut ut, &mut admin_token, &mut slot, 10_000 + COOLDOWN_SECONDS);
    assert_eq!(r, Ok(()));
    assert!(slot.is_none());
    assert_eq!(ut.amount, 5_000);
    assert_eq!(admin_token.amount, 0);
}

#[test]
fn solvency_holds_across_a_sequence_of_operations() {
    let mut w = setup(250);
    let mut ut_a = accepted_holding(200, USER, 5_000);
    let mut ur_a = receipt_holding(201, USER);
    let mut ut_b = accepted_holding(400, OTHER_USER, 3_000);
    let mut ur_b = receipt_holding(401, OTHER_USER);
    let mut admin_token = accepted_holding(300, ADMIN, 0);
    assert_eq!(w.vault_state.total_deposited, w.vault_token.amount);
    do_deposit(&mut w, USER, &mut ut_a, &mut ur_a, 1_000).unwrap();
    assert_eq!(w.vault_state.total_deposited, w.vault_token.amount);
    do_deposit(&mut w, OTHER_USER, &mut ut_b, &mut ur_b, 2_500).unwrap();
    assert_eq!(w.vault_state.total_deposited, w.vault_token.amount);
    let mut slot_a: Option<WithdrawalTicket> = None;
    do_request(&mut w, USER, &mut ur_a, &mut slot_a, 1_000, 10_000).unwrap();
    assert_eq!(w.vault_state.total_deposited, w.vault_token.amount);
    let mut slot_b: Option<WithdrawalTicket> = None;
    do_request(&mut w, OTHER_USER, &mut ur_b, &mut slot_b, 500, 11_000).unwrap();
    assert_eq!(w.vault_state.total_deposited, w.vault_token.amount);
    do_claim(&mut w, USER, &mut ut_a, &mut admin_token, &mut slot_a, 10_000 + COOLDOWN_SECONDS)
        .unwrap();
    assert_eq!(w.vault_state.total_deposited, w.vault_token.amount);
    do_deposit(&mut w, USER, &mut ut_a, &mut ur_a, 200).unwrap();
    assert_eq!(w.vault_state.total_deposited, w.vault_token.amount);
    do_claim(
        &mut w,
        OTHER_USER,
        &mut ut_b,
        &mut admin_token,
        &mut slot_b,
        11_000 + COOLDOWN_SECONDS,
    )
    .unwrap();
    assert_eq!(w.vault_state.total_deposited, w.vault_token.amount);
    assert_eq!(w.vault_state.total_deposited, 2_200);
}

#[test]
fn round_trip_restores_pre_deposit_accounting() {
    let mut w = setup(125);
    let mut ut = accepted_holding(200, USER, 5_000);
    let mut ur = receipt_holding(201, USER);
    let total_before = w.vault_state.total_deposited;
    let held_before = w.vault_token.amount;
    let supply_before = w.receipt.supply;
    do_deposit(&mut w, USER, &mut ut, &mut ur, 4_000).unwrap();
    let mut slot: Option<WithdrawalTicket> = None;
    do_request(&mut w, USER, &mut ur, &mut slot, 4_000, 10_000).unwrap();
    let mut admin_token = accepted_holding(300, ADMIN, 0);
    do_claim(&mut w, USER, &mut ut, &mut admin_token, &mut slot, 10_000 + COOLDOWN_SECONDS)
        .unwrap();
    let fee = 4_000 * 125 / 10_000;
    assert_eq!(fee, 50);
    assert_eq!(ut.amount, 5_000 - fee);
    assert_eq!(admin_token.amount, fee);
    assert_eq!(w.vault_state.total_deposited, total_before);
    assert_eq!(w.vault_token.amount, held_before);
    assert_eq!(w.receipt.supply, supply_before);
    assert_eq!(ur.amount, 0);
}

#[test]
fn derived_addresses_are_deterministic_and_distinct() {
    let a1 = spl_token_vault::pda::vault_state_address(ADMIN);
    let a2 = spl_token_vault::pda::vault_state_address(ADMIN);
    assert_eq!(a1, a2);
    assert_eq!(a1, AccountId::VaultStateAccount(ADMIN));
    let held = spl_token_vault::pda::vault_token_address(ADMIN);
    assert_ne!(a1, held);
    let t_a = spl_token_vault::pda::ticket_address(USER, ADMIN);
    let t_b = spl_token_vault::pda::ticket_address(OTHER_USER, ADMIN);
    assert_ne!(t_a, t_b);
    assert_ne!(a1, AccountId::Key(ADMIN));
    assert_eq!(
        spl_token_vault::pda::vault_state_bump(ADMIN),
        spl_token_vault::pda::vault_state_bump(ADMIN)
    );
    assert_eq!(
        spl_token_vault::pda::ticket_bump(USER, ADMIN),
        spl_token_vault::pda::ticket_bump(USER, ADMIN)
    );
}
