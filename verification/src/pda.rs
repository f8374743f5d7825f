use vstd::prelude::*;

verus! {

/// An account address. Wallet keys are opaque identifiers; the vault's own
/// accounts live at addresses derived deterministically from those keys, so
/// any principal can recompute them, and two distinct seed tuples can never
/// yield the same derived address.
#[derive(Clone, Copy, Debug, PartialEq, Eq, Structural)]
pub enum AccountId {
    /// An ordinary keypair account, named by its key.
    Key(u64),
    /// The vault state record of the given admin, derived from
    /// ("vault_state", admin). It doubles as the vault's control identity:
    /// transfers out of the held balance and receipt mint/burn are authorized
    /// by this identity, never by a private key.
    VaultStateAccount(u64),
    /// The vault's held-balance token account, derived from
    /// ("vault_token", vault state address); the admin key determines the
    /// vault state address, which in turn determines this one.
    VaultTokenAccount(u64),
    /// The withdrawal ticket of (user, vault), derived from
    /// ("withdrawal", user, vault state address).
    TicketAccount(u64, u64),
}

/// Derivation salt recorded alongside the vault state address.
pub open spec fn spec_vault_state_bump(admin: u64) -> u8 {
    (admin % 251) as u8
}

/// Derivation salt recorded alongside the held-balance account address.
pub open spec fn spec_vault_token_bump(admin: u64) -> u8 {
    (admin % 241) as u8
}

/// Derivation salt recorded alongside a withdrawal ticket address.
pub open spec fn spec_ticket_bump(user: u64, admin: u64) -> u8 {
    ((user % 128) + (admin % 127)) as u8
}

/// Recomputes the vault state address of an admin; pure, so any principal can
/// derive it and at most one vault state record per admin can ever exist.
pub fn vault_state_address(admin: u64) -> (a: AccountId)
    ensures
        a == AccountId::VaultStateAccount(admin),
{
    AccountId::VaultStateAccount(admin)
}

/// Recomputes the held-balance account address of an admin's vault.
pub fn vault_token_address(admin: u64) -> (a: AccountId)
    ensures
        a == AccountId::VaultTokenAccount(admin),
{
    AccountId::VaultTokenAccount(admin)
}

/// Recomputes the withdrawal ticket address of a user of an admin's vault.
pub fn ticket_address(user: u64, admin: u64) -> (a: AccountId)
    ensures
        a == AccountId::TicketAccount(user, admin),
{
    AccountId::TicketAccount(user, admin)
}

/// The salt that goes with the vault state address.
pub fn vault_state_bump(admin: u64) -> (b: u8)
    ensures
        b == spec_vault_state_bump(admin),
{
    (admin % 251) as u8
}

/// The salt that goes with the held-balance account address.
pub fn vault_token_bump(admin: u64) -> (b: u8)
    ensures
        b == spec_vault_token_bump(admin),
{
    (admin % 241) as u8
}

/// The salt that goes with a withdrawal ticket address.
pub fn ticket_bump(user: u64, admin: u64) -> (b: u8)
    ensures
        b == spec_ticket_bump(user, admin),
{
    ((user % 128) + (admin % 127)) as u8
}

/// Address derivation is injective: the vault state addresses of two admins
/// coincide only if the admins do, and likewise for held-balance accounts and
/// for tickets; a derived address is never an ordinary key.
pub proof fn lemma_derived_addresses_injective(a1: u64, a2: u64, u1: u64, u2: u64, k: u64)
    ensures
        AccountId::VaultStateAccount(a1) == AccountId::VaultStateAccount(a2) ==> a1 == a2,
        AccountId::VaultTokenAccount(a1) == AccountId::VaultTokenAccount(a2) ==> a1 == a2,
        AccountId::TicketAccount(u1, a1) == AccountId::TicketAccount(u2, a2) ==> u1 == u2 && a1
            == a2,
        AccountId::VaultStateAccount(a1) != AccountId::Key(k),
        AccountId::VaultTokenAccount(a1) != AccountId::Key(k),
        AccountId::TicketAccount(u1, a1) != AccountId::Key(k),
{
}

} // verus!
