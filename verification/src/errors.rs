use vstd::prelude::*;

verus! {

/// Every failure of a vault operation surfaces one of these kinds; no error is
/// silently swallowed, and an operation that returns an error leaves every
/// record it names unchanged.
#[derive(Clone, Copy, Debug, PartialEq, Eq, Structural)]
pub enum VaultError {
    /// The cooldown period has not elapsed: a claim must wait a full day after
    /// the withdrawal was requested.
    CooldownNotElapsed,
    /// No pending withdrawal ticket exists for this user and vault.
    NoPendingWithdrawal,
    /// A transfer or burn asked for more than the source account holds.
    InsufficientBalance,
    /// A checked arithmetic step overflowed or underflowed.
    ArithmeticOverflow,
    /// The vault is paused by the admin: deposits and withdrawal requests are
    /// rejected, claims still go through.
    VaultPaused,
    /// An account fails a structural check: wrong owner, wrong asset, wrong
    /// derivation salt, or a signer that does not match the record.
    Unauthorized,
    /// The storage substrate refuses to create an account at an address that
    /// is already occupied; a second withdrawal ticket for the same user and
    /// vault fails this way.
    AccountAlreadyExists,
}

} // verus!
