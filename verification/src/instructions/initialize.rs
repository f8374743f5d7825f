use vstd::prelude::*;

use crate::errors::VaultError;
use crate::pda;
use crate::pda::AccountId;
use crate::state::VaultState;
use crate::token::MintAccount;
use crate::token::TokenAccount;

verus! {

/// The records an initialization names: the admin, the accepted asset, a
/// fresh key for the new receipt asset, and the three slots — receipt asset,
/// vault state, held-balance account — that the operation fills.
#[derive(Clone, Copy, Debug, PartialEq, Eq, Structural)]
pub struct Initialize {
    /// Key of the admin, who signs the call, may later pause the vault, and
    /// receives fees.
    pub admin: u64,
    /// The asset this vault accepts for deposit.
    pub accepted_mint: MintAccount,
    /// A fresh key the caller supplies for the new receipt asset.
    pub receipt_mint_key: u64,
    /// Slot for the new receipt asset; must be empty.
    pub receipt_mint: Option<MintAccount>,
    /// Slot at the derived vault state address; must be empty, so at most one
    /// vault per admin can ever exist.
    pub vault_state: Option<VaultState>,
    /// Slot at the derived held-balance address; must be empty.
    pub vault_token_account: Option<TokenAccount>,
}

/// What an initialization does. On success the three slots fill: a vault
/// state with a zero running total, the admin's key, the given fee, the
/// paused flag off and both derivation salts recorded; a receipt asset with
/// zero supply, the accepted asset's decimals, and the vault's own derived
/// identity as its only mint and burn authority; and an empty held-balance
/// account owned by that same identity. If any slot is already occupied the
/// storage substrate refuses the creation and nothing changes.
pub open spec fn spec_handle_initialize(ctx: Initialize, fee_bps: u16) -> (Initialize, Result<
    (),
    VaultError,
>) {
    if ctx.receipt_mint is Some || ctx.vault_state is Some || ctx.vault_token_account is Some {
        (ctx, Err(VaultError::AccountAlreadyExists))
    } else {
        (
            Initialize {
                receipt_mint: Some(
                    MintAccount {
                        addr: AccountId::Key(ctx.receipt_mint_key),
                        authority: AccountId::VaultStateAccount(ctx.admin),
                        supply: 0,
                        decimals: ctx.accepted_mint.decimals,
                    },
                ),
                vault_state: Some(
                    VaultState {
                        admin: ctx.admin,
                        accepted_mint: ctx.accepted_mint.addr,
                        receipt_mint: AccountId::Key(ctx.receipt_mint_key),
                        total_deposited: 0,
                        fee_bps,
                        is_paused: false,
                        bump: pda::spec_vault_state_bump(ctx.admin),
                        vault_token_bump: pda::spec_vault_token_bump(ctx.admin),
                    },
                ),
                vault_token_account: Some(
                    TokenAccount {
                        addr: AccountId::VaultTokenAccount(ctx.admin),
                        owner: AccountId::VaultStateAccount(ctx.admin),
                        mint: ctx.accepted_mint.addr,
                        amount: 0,
                    },
                ),
                ..ctx
            },
            Ok(()),
        )
    }
}

/// Creates the vault: fills the three empty slots with the state record, the
/// receipt asset under the vault's own derived authority, and the empty
/// held-balance account. The caller's key is bound as admin and the fee in
/// basis points is recorded as given — the range is not validated here, which
/// preserves the permissive behavior of accepting any 16-bit value.
pub fn handle_initialize(ctx: &mut Initialize, fee_bps: u16) -> (r: Result<(), VaultError>)
    ensures
        (*final(ctx), r) == spec_handle_initialize(*old(ctx), fee_bps),
        r is Err ==> *final(ctx) == *old(ctx),
        r is Ok ==> (final(ctx).vault_state matches Some(vs) && vs.total_deposited == 0
            && !vs.is_paused && vs.admin == old(ctx).admin && vs.fee_bps == fee_bps),
        r is Ok ==> (final(ctx).vault_state matches Some(vs)
            && final(ctx).vault_token_account matches Some(held) && crate::state::solvent(
            vs,
            held,
        ) && held.amount == 0),
        r is Ok ==> (final(ctx).receipt_mint matches Some(rm) && rm.supply == 0 && rm.authority
            == AccountId::VaultStateAccount(old(ctx).admin)),
{
    if ctx.receipt_mint.is_some() || ctx.vault_state.is_some() || ctx.vault_token_account.is_some()
    {
        return Err(VaultError::AccountAlreadyExists);
    }
    let authority = AccountId::VaultStateAccount(ctx.admin);
    ctx.receipt_mint = Some(
        MintAccount {
            addr: AccountId::Key(ctx.receipt_mint_key),
            authority,
            supply: 0,
            decimals: ctx.accepted_mint.decimals,
        },
    );
    ctx.vault_state = Some(
        VaultState {
            admin: ctx.admin,
            accepted_mint: ctx.accepted_mint.addr,
            receipt_mint: AccountId::Key(ctx.receipt_mint_key),
            total_deposited: 0,
            fee_bps,
            is_paused: false,
            bump: pda::vault_state_bump(ctx.admin),
            vault_token_bump: pda::vault_token_bump(ctx.admin),
        },
    );
    ctx.vault_token_account = Some(
        TokenAccount {
            addr: AccountId::VaultTokenAccount(ctx.admin),
            owner: authority,
            mint: ctx.accepted_mint.addr,
            amount: 0,
        },
    );
    Ok(())
}

} // verus!
