use vstd::prelude::*;

use crate::errors::VaultError;
use crate::pda::AccountId;

verus! {

/// A holding of one asset: the balance an owner has in one mint. The ledger
/// moves value between holdings only through the checked, all-or-nothing
/// primitives below, which are the collaborator contract the vault relies on.
#[derive(Clone, Copy, Debug, PartialEq, Eq, Structural)]
pub struct TokenAccount {
    /// Address of this holding.
    pub addr: AccountId,
    /// Identity that must authorize debits from this holding.
    pub owner: AccountId,
    /// Address of the asset this holding is denominated in.
    pub mint: AccountId,
    /// Units held.
    pub amount: u64,
}

/// An asset: its issuing record. Whoever holds the authority may mint new
/// units and burn existing ones; the supply tracks every unit in circulation.
#[derive(Clone, Copy, Debug, PartialEq, Eq, Structural)]
pub struct MintAccount {
    /// Address of the asset.
    pub addr: AccountId,
    /// Identity that must authorize minting and burning.
    pub authority: AccountId,
    /// Units in circulation.
    pub supply: u64,
    /// Decimal places of the asset's unit.
    pub decimals: u8,
}

/// Outcome of moving `amount` from `from` to `to` under `authority`: rejected
/// when the authority is not the source's owner, the source balance is short,
/// or the destination balance would overflow — in that order.
pub open spec fn spec_transfer_result(
    from: TokenAccount,
    to: TokenAccount,
    authority: AccountId,
    amount: u64,
) -> Result<(), VaultError> {
    if from.owner != authority {
        Err(VaultError::Unauthorized)
    } else if from.amount < amount {
        Err(VaultError::InsufficientBalance)
    } else if to.amount + amount > u64::MAX {
        Err(VaultError::ArithmeticOverflow)
    } else {
        Ok(())
    }
}

/// Outcome of minting `amount` of `mint` to `to` under `authority`.
pub open spec fn spec_mint_to_result(
    mint: MintAccount,
    to: TokenAccount,
    authority: AccountId,
    amount: u64,
) -> Result<(), VaultError> {
    if mint.authority != authority {
        Err(VaultError::Unauthorized)
    } else if mint.supply + amount > u64::MAX {
        Err(VaultError::ArithmeticOverflow)
    } else if to.amount + amount > u64::MAX {
        Err(VaultError::ArithmeticOverflow)
    } else {
        Ok(())
    }
}

/// Outcome of burning `amount` of `mint` out of `from` under `authority`:
/// the owner of the holding authorizes the burn.
pub open spec fn spec_burn_result(
    mint: MintAccount,
    from: TokenAccount,
    authority: AccountId,
    amount: u64,
) -> Result<(), VaultError> {
    if from.owner != authority {
        Err(VaultError::Unauthorized)
    } else if from.amount < amount {
        Err(VaultError::InsufficientBalance)
    } else if mint.supply < amount {
        Err(VaultError::ArithmeticOverflow)
    } else {
        Ok(())
    }
}

/// Moves `amount` between two holdings of the same asset, atomically: on any
/// error both holdings are untouched.
pub fn transfer(
    from: &mut TokenAccount,
    to: &mut TokenAccount,
    authority: AccountId,
    amount: u64,
) -> (r: Result<(), VaultError>)
    requires
        old(from).mint == old(to).mint,
    ensures
        r == spec_transfer_result(*old(from), *old(to), authority, amount),
        r is Ok ==> *final(from) == (TokenAccount {
            amount: (old(from).amount - amount) as u64,
            ..*old(from)
        }),
        r is Ok ==> *final(to) == (TokenAccount {
            amount: (old(to).amount + amount) as u64,
            ..*old(to)
        }),
        r is Err ==> *final(from) == *old(from) && *final(to) == *old(to),
{
    if from.owner != authority {
        return Err(VaultError::Unauthorized);
    }
    if from.amount < amount {
        return Err(VaultError::InsufficientBalance);
    }
    if to.amount > u64::MAX - amount {
        return Err(VaultError::ArithmeticOverflow);
    }
    from.amount = from.amount - amount;
    to.amount = to.amount + amount;
    Ok(())
}

/// Creates `amount` new units of an asset in a holding, raising the supply in
/// step, atomically.
pub fn mint_to(
    mint: &mut MintAccount,
    to: &mut TokenAccount,
    authority: AccountId,
    amount: u64,
) -> (r: Result<(), VaultError>)
    requires
        old(to).mint == old(mint).addr,
    ensures
        r == spec_mint_to_result(*old(mint), *old(to), authority, amount),
        r is Ok ==> *final(mint) == (MintAccount {
            supply: (old(mint).supply + amount) as u64,
            ..*old(mint)
        }),
        r is Ok ==> *final(to) == (TokenAccount {
            amount: (old(to).amount + amount) as u64,
            ..*old(to)
        }),
        r is Err ==> *final(mint) == *old(mint) && *final(to) == *old(to),
{
    if mint.authority != authority {
        return Err(VaultError::Unauthorized);
    }
    if mint.supply > u64::MAX - amount {
        return Err(VaultError::ArithmeticOverflow);
    }
    if to.amount > u64::MAX - amount {
        return Err(VaultError::ArithmeticOverflow);
    }
    mint.supply = mint.supply + amount;
    to.amount = to.amount + amount;
    Ok(())
}

/// Destroys `amount` units held in `from`, lowering the supply in step,
/// atomically.
pub fn burn(
    mint: &mut MintAccount,
    from: &mut TokenAccount,
    authority: AccountId,
    amount: u64,
) -> (r: Result<(), VaultError>)
    requires
        old(from).mint == old(mint).addr,
    ensures
        r == spec_burn_result(*old(mint), *old(from), authority, amount),
        r is Ok ==> *final(mint) == (MintAccount {
            supply: (old(mint).supply - amount) as u64,
            ..*old(mint)
        }),
        r is Ok ==> *final(from) == (TokenAccount {
            amount: (old(from).amount - amount) as u64,
            ..*old(from)
        }),
        r is Err ==> *final(mint) == *old(mint) && *final(from) == *old(from),
{
    if from.owner != authority {
        return Err(VaultError::Unauthorized);
    }
    if from.amount < amount {
        return Err(VaultError::InsufficientBalance);
    }
    if mint.supply < amount {
        return Err(VaultError::ArithmeticOverflow);
    }
    mint.supply = mint.supply - amount;
    from.amount = from.amount - amount;
    Ok(())
}

} // verus!
