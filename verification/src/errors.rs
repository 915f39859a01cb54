use vstd::prelude::*;

verus! {

/// Every way a vault operation can be rejected. Each operation reports the
/// first failing check and changes nothing when it fails.
#[derive(Clone, Copy, Debug, PartialEq, Eq, Structural)]
pub enum VaultError {
    /// The exchange rate is zero, so no conversion is possible.
    InvalidExchangeRate,
    /// A user-supplied amount, or a computed amount, is zero.
    InvalidAmount,
    /// An arithmetic step left the representable range.
    MathOverflow,
    /// The withdrawal ticket slot is occupied by a pending request, or the
    /// ticket being claimed was already paid out.
    TicketAlreadyClaimed,
    /// The ticket slot does not belong to the caller, or no ticket exists.
    InvalidTicketOwner,
    /// The ticket's unlock epoch has not been reached yet.
    WithdrawalNotReady,
    /// An administrator-only operation was attempted by someone else.
    UnauthorizedAdmin,
    /// The vault's custody balance cannot cover the computed payout.
    InsufficientVaultBalance,
}

} // verus!
