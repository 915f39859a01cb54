use vstd::prelude::*;

verus! {

/// The identity of a participant (an administrator or a user) or of an asset
/// kind. The engine only ever compares identities for equality; resolving
/// them to real accounts is the surrounding system's concern.
#[derive(Clone, Copy, Debug, PartialEq, Eq, Structural)]
pub struct AccountId(pub u64);

/// The configuration and mutable state of one vault: who administers it,
/// which two assets it relates, the scaled exchange rate, and the epoch
/// counter that gates withdrawals.
#[derive(Clone, Copy, Debug, PartialEq, Eq, Structural)]
pub struct VaultState {
    /// The only identity allowed to update the rate or deposit yield.
    pub admin: AccountId,
    /// The asset users deposit into the vault.
    pub deposit_mint: AccountId,
    /// The share ("IOU") asset minted against deposits.
    pub iou_mint: AccountId,
    /// Deposit-asset units per share unit, scaled by `EXCHANGE_RATE_SCALE`.
    pub exchange_rate: u64,
    /// Counts administrator rate updates; tickets unlock one epoch after
    /// their request.
    pub current_epoch: u64,
}

impl VaultState {
    /// An initialized vault always carries a positive exchange rate.
    pub open spec fn well_formed(self) -> bool {
        self.exchange_rate > 0
    }
}

/// One user's withdrawal record. A slot holding a claimed ticket is inert
/// and may be overwritten by that user's next request.
#[derive(Clone, Copy, Debug, PartialEq, Eq, Structural)]
pub struct WithdrawalTicket {
    /// The user who requested the withdrawal.
    pub user: AccountId,
    /// The share amount burned when the request was made.
    pub iou_amount: u64,
    /// The first epoch at which the ticket may be claimed.
    pub unlock_epoch: u64,
    /// Whether the payout already happened.
    pub claimed: bool,
}

/// One balance movement the engine asks the external ledger to perform.
/// An operation either returns all of its intents or none: a rejected
/// operation moves nothing.
#[derive(Clone, Copy, Debug, PartialEq, Eq, Structural)]
pub enum LedgerIntent {
    /// Move `amount` of `asset` from `from` into the vault's custody.
    TransferToVault { asset: AccountId, from: AccountId, amount: u64 },
    /// Move `amount` of `asset` out of the vault's custody to `to`.
    TransferFromVault { asset: AccountId, to: AccountId, amount: u64 },
    /// Create `amount` of `asset` in `to`'s balance.
    Mint { asset: AccountId, to: AccountId, amount: u64 },
    /// Destroy `amount` of `asset` from `from`'s balance.
    Burn { asset: AccountId, from: AccountId, amount: u64 },
}

} // verus!
