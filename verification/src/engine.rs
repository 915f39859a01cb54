use vstd::prelude::*;

use crate::errors::VaultError;
use crate::rate::deposit_conversion;
use crate::rate::deposit_value_of;
use crate::rate::deposit_for_shares;
use crate::rate::shares_conversion;
use crate::rate::shares_for_deposit;
use crate::rate::EXCHANGE_RATE_SCALE;
use crate::state::AccountId;
use crate::state::LedgerIntent;
use crate::state::VaultState;
use crate::state::WithdrawalTicket;

verus! {

/// Create a vault for one deposit asset, at a one-to-one rate and epoch
/// zero. The surrounding store is responsible for rejecting a second
/// initialization of the same deposit asset.
pub fn initialize(admin: AccountId, deposit_mint: AccountId, iou_mint: AccountId) -> (vault: VaultState)
    ensures
        vault == (VaultState {
            admin,
            deposit_mint,
            iou_mint,
            exchange_rate: EXCHANGE_RATE_SCALE,
            current_epoch: 0,
        }),
        vault.well_formed(),
{
    VaultState {
        admin,
        deposit_mint,
        iou_mint,
        exchange_rate: EXCHANGE_RATE_SCALE,
        current_epoch: 0,
    }
}

/// Exchange deposit units for freshly minted shares at the current rate.
/// On success the returned intents move the deposit into custody and mint
/// the shares; the vault state itself is not touched.
pub fn deposit(vault: &VaultState, user: AccountId, deposit_amount: u64) -> (r: Result<
    Vec<LedgerIntent>,
    VaultError,
>)
    ensures
        match shares_conversion(deposit_amount, vault.exchange_rate) {
            Ok(iou_amount) => r matches Ok(intents) && intents@.len() == 2 && intents@[0] == (
            LedgerIntent::TransferToVault {
                asset: vault.deposit_mint,
                from: user,
                amount: deposit_amount,
            }) && intents@[1] == (LedgerIntent::Mint {
                asset: vault.iou_mint,
                to: user,
                amount: iou_amount,
            }),
            Err(e) => r == Err::<Vec<LedgerIntent>, VaultError>(e),
        },
{
    let iou_amount: u64 = match shares_for_deposit(deposit_amount, vault.exchange_rate) {
        Ok(s) => s,
        Err(e) => {
            return Err(e);
        },
    };
    let mut intents: Vec<LedgerIntent> = Vec::new();
    intents.push(
        LedgerIntent::TransferToVault {
            asset: vault.deposit_mint,
            from: user,
            amount: deposit_amount,
        },
    );
    intents.push(LedgerIntent::Mint { asset: vault.iou_mint, to: user, amount: iou_amount });
    Ok(intents)
}

/// What a withdrawal request does to the caller's ticket slot: the first
/// failing check decides the error, and a successful request writes a fresh
/// unclaimed ticket that unlocks one epoch later.
pub open spec fn request_outcome(
    vault: VaultState,
    slot: Option<WithdrawalTicket>,
    user: AccountId,
    iou_amount: u64,
) -> Result<WithdrawalTicket, VaultError> {
    if iou_amount == 0 {
        Err(VaultError::InvalidAmount)
    } else if slot matches Some(t) && t.user != user {
        Err(VaultError::InvalidTicketOwner)
    } else if slot matches Some(t) && !t.claimed {
        Err(VaultError::TicketAlreadyClaimed)
    } else if vault.current_epoch == u64::MAX {
        Err(VaultError::MathOverflow)
    } else {
        Ok(
            WithdrawalTicket {
                user,
                iou_amount,
                unlock_epoch: (vault.current_epoch + 1) as u64,
                claimed: false,
            },
        )
    }
}

/// Burn shares now in exchange for a ticket claimable one epoch later. The
/// slot may be empty or hold the caller's already-claimed ticket; a pending
/// ticket, or one owned by someone else, blocks the request. All checks
/// happen before the burn intent is produced, so a failure changes nothing.
pub fn request_withdraw(
    vault: &VaultState,
    ticket: &mut Option<WithdrawalTicket>,
    user: AccountId,
    iou_amount: u64,
) -> (r: Result<Vec<LedgerIntent>, VaultError>)
    ensures
        match request_outcome(*vault, *old(ticket), user, iou_amount) {
            Ok(t) => r matches Ok(intents) && intents@.len() == 1 && intents@[0] == (
            LedgerIntent::Burn { asset: vault.iou_mint, from: user, amount: iou_amount })
                && *final(ticket) == Some(t),
            Err(e) => r == Err::<Vec<LedgerIntent>, VaultError>(e) && *final(ticket) == *old(ticket),
        },
{
    if iou_amount == 0 {
        return Err(VaultError::InvalidAmount);
    }
    match ticket {
        Option::Some(t) => {
            if t.user != user {
                return Err(VaultError::InvalidTicketOwner);
            }
            if !t.claimed {
                return Err(VaultError::TicketAlreadyClaimed);
            }
        },
        Option::None => {},
    }
    if vault.current_epoch == u64::MAX {
        return Err(VaultError::MathOverflow);
    }
    let unlock_epoch: u64 = vault.current_epoch + 1;
    *ticket = Some(WithdrawalTicket { user, iou_amount, unlock_epoch, claimed: false });
    let mut intents: Vec<LedgerIntent> = Vec::new();
    intents.push(LedgerIntent::Burn { asset: vault.iou_mint, from: user, amount: iou_amount });
    Ok(intents)
}

/// What a claim does to the ticket slot: the first failing check decides
/// the error; a successful claim pays out at the rate current at claim time
/// and marks the ticket claimed.
pub open spec fn claim_outcome(
    vault: VaultState,
    slot: Option<WithdrawalTicket>,
    user: AccountId,
    vault_balance: u64,
) -> Result<(WithdrawalTicket, u64), VaultError> {
    match slot {
        None => Err(VaultError::InvalidTicketOwner),
        Some(t) => if t.user != user {
            Err(VaultError::InvalidTicketOwner)
        } else if t.claimed {
            Err(VaultError::TicketAlreadyClaimed)
        } else if vault.current_epoch < t.unlock_epoch {
            Err(VaultError::WithdrawalNotReady)
        } else {
            match deposit_conversion(t.iou_amount, vault.exchange_rate) {
                Err(e) => Err(e),
                Ok(amount) => if vault_balance < amount {
                    Err(VaultError::InsufficientVaultBalance)
                } else {
                    Ok((WithdrawalTicket { claimed: true, ..t }, amount))
                },
            }
        },
    }
}

/// Pay out a ticket once its unlock epoch has been reached, at the rate
/// current now (not the rate at request time), provided the vault's custody
/// balance covers the payout. Any failure leaves the ticket untouched; in
/// particular a ticket stays unclaimed after a solvency failure and can be
/// retried.
pub fn claim_withdraw(
    vault: &VaultState,
    ticket: &mut Option<WithdrawalTicket>,
    user: AccountId,
    vault_balance: u64,
) -> (r: Result<Vec<LedgerIntent>, VaultError>)
    ensures
        match claim_outcome(*vault, *old(ticket), user, vault_balance) {
            Ok(p) => r matches Ok(intents) && intents@.len() == 1 && intents@[0] == (
            LedgerIntent::TransferFromVault {
                asset: vault.deposit_mint,
                to: user,
                amount: p.1,
            }) && *final(ticket) == Some(p.0),
            Err(e) => r == Err::<Vec<LedgerIntent>, VaultError>(e) && *final(ticket) == *old(ticket),
        },
{
    let (t_user, t_iou, t_unlock): (AccountId, u64, u64) = match ticket {
        Option::None => {
            return Err(VaultError::InvalidTicketOwner);
        },
        Option::Some(t) => {
            if t.user != user {
                return Err(VaultError::InvalidTicketOwner);
            }
            if t.claimed {
                return Err(VaultError::TicketAlreadyClaimed);
            }
            (t.user, t.iou_amount, t.unlock_epoch)
        },
    };
    if vault.current_epoch < t_unlock {
        return Err(VaultError::WithdrawalNotReady);
    }
    let amount: u64 = match deposit_for_shares(t_iou, vault.exchange_rate) {
        Ok(a) => a,
        Err(e) => {
            return Err(e);
        },
    };
    if vault_balance < amount {
        return Err(VaultError::InsufficientVaultBalance);
    }
    *ticket = Some(
        WithdrawalTicket { user: t_user, iou_amount: t_iou, unlock_epoch: t_unlock, claimed: true },
    );
    let mut intents: Vec<LedgerIntent> = Vec::new();
    intents.push(
        LedgerIntent::TransferFromVault { asset: vault.deposit_mint, to: user, amount },
    );
    Ok(intents)
}

/// What an administrator rate update does to the vault: only the stored
/// administrator may call it, the new rate must be positive, and every
/// successful update advances the epoch by one.
pub open spec fn rate_update_outcome(
    vault: VaultState,
    caller: AccountId,
    new_exchange_rate: u64,
) -> Result<VaultState, VaultError> {
    if caller != vault.admin {
        Err(VaultError::UnauthorizedAdmin)
    } else if new_exchange_rate == 0 {
        Err(VaultError::InvalidExchangeRate)
    } else if vault.current_epoch == u64::MAX {
        Err(VaultError::MathOverflow)
    } else {
        Ok(
            VaultState {
                exchange_rate: new_exchange_rate,
                current_epoch: (vault.current_epoch + 1) as u64,
                ..vault
            },
        )
    }
}

/// Set a new positive exchange rate and advance the epoch, which is the
/// sole trigger that makes pending tickets claimable. A failure leaves the
/// vault exactly as it was.
pub fn increase_rate(vault: &mut VaultState, caller: AccountId, new_exchange_rate: u64) -> (r:
    Result<(), VaultError>)
    ensures
        match rate_update_outcome(*old(vault), caller, new_exchange_rate) {
            Ok(updated) => r == Ok::<(), VaultError>(()) && *final(vault) == updated,
            Err(e) => r == Err::<(), VaultError>(e) && *final(vault) == *old(vault),
        },
        r matches Ok(_) ==> final(vault).exchange_rate == new_exchange_rate
            && final(vault).current_epoch == old(vault).current_epoch + 1
            && final(vault).well_formed(),
{
    if caller != vault.admin {
        return Err(VaultError::UnauthorizedAdmin);
    }
    if new_exchange_rate == 0 {
        return Err(VaultError::InvalidExchangeRate);
    }
    if vault.current_epoch == u64::MAX {
        return Err(VaultError::MathOverflow);
    }
    vault.exchange_rate = new_exchange_rate;
    vault.current_epoch = vault.current_epoch + 1;
    Ok(())
}

/// What a yield deposit amounts to: only the administrator may fund the
/// vault, with a positive amount; on success exactly that amount moves into
/// custody.
pub open spec fn yield_outcome(vault: VaultState, caller: AccountId, yield_amount: u64) -> Result<
    u64,
    VaultError,
> {
    if caller != vault.admin {
        Err(VaultError::UnauthorizedAdmin)
    } else if yield_amount == 0 {
        Err(VaultError::InvalidAmount)
    } else {
        Ok(yield_amount)
    }
}

/// Move deposit units from the administrator into the vault's custody
/// without minting shares, so existing shares gain backing. The rate and
/// epoch are deliberately left alone: reflecting the new backing in the
/// rate is a separate, explicit administrator action.
pub fn deposit_yield(vault: &VaultState, caller: AccountId, yield_amount: u64) -> (r: Result<
    Vec<LedgerIntent>,
    VaultError,
>)
    ensures
        match yield_outcome(*vault, caller, yield_amount) {
            Ok(amount) => r matches Ok(intents) && intents@.len() == 1 && intents@[0] == (
            LedgerIntent::TransferToVault {
                asset: vault.deposit_mint,
                from: caller,
                amount,
            }),
            Err(e) => r == Err::<Vec<LedgerIntent>, VaultError>(e),
        },
{
    if caller != vault.admin {
        return Err(VaultError::UnauthorizedAdmin);
    }
    if yield_amount == 0 {
        return Err(VaultError::InvalidAmount);
    }
    let mut intents: Vec<LedgerIntent> = Vec::new();
    intents.push(
        LedgerIntent::TransferToVault {
            asset: vault.deposit_mint,
            from: caller,
            amount: yield_amount,
        },
    );
    Ok(intents)
}

/// Law: no double claim. Once a claim has succeeded, the stored ticket is
/// marked claimed, and any later claim of it by its owner fails with
/// `TicketAlreadyClaimed`, whatever the vault state or custody balance has
/// become in the meantime.
pub proof fn lemma_no_double_claim(
    vault: VaultState,
    slot: Option<WithdrawalTicket>,
    user: AccountId,
    vault_balance: u64,
    claimed_ticket: WithdrawalTicket,
    paid: u64,
    later_vault: VaultState,
    later_balance: u64,
)
    requires
        claim_outcome(vault, slot, user, vault_balance) == Ok::<(WithdrawalTicket, u64), VaultError>(
            (claimed_ticket, paid),
        ),
    ensures
        claim_outcome(later_vault, Some(claimed_ticket), user, later_balance) == Err::<
            (WithdrawalTicket, u64),
            VaultError,
        >(VaultError::TicketAlreadyClaimed),
{
}

/// Law: the epoch gate. An unclaimed ticket claimed by its owner fails with
/// `WithdrawalNotReady` exactly while the vault's epoch is below the
/// ticket's unlock epoch; once the epoch is reached that error can no
/// longer occur, and only overflow, a zero payout, or insolvency remain.
pub proof fn lemma_epoch_gate(
    vault: VaultState,
    t: WithdrawalTicket,
    user: AccountId,
    vault_balance: u64,
)
    requires
        t.user == user,
        !t.claimed,
    ensures
        vault.current_epoch < t.unlock_epoch ==> claim_outcome(vault, Some(t), user, vault_balance)
            == Err::<(WithdrawalTicket, u64), VaultError>(VaultError::WithdrawalNotReady),
        vault.current_epoch >= t.unlock_epoch ==> claim_outcome(
            vault,
            Some(t),
            user,
            vault_balance,
        ) != Err::<(WithdrawalTicket, u64), VaultError>(VaultError::WithdrawalNotReady),
{
}

/// Law: exactly when a claim succeeds — the caller owns an unclaimed ticket
/// whose unlock epoch has been reached, the payout multiplies without
/// overflow to a positive amount, and the custody balance covers it.
pub proof fn lemma_claim_success(
    vault: VaultState,
    t: WithdrawalTicket,
    user: AccountId,
    vault_balance: u64,
)
    ensures
        (claim_outcome(vault, Some(t), user, vault_balance) matches Ok(_)) <==> (t.user == user
            && !t.claimed && vault.current_epoch >= t.unlock_epoch && t.iou_amount
            * vault.exchange_rate <= u64::MAX && deposit_value_of(
            t.iou_amount as int,
            vault.exchange_rate as int,
        ) > 0 && vault_balance >= deposit_value_of(
            t.iou_amount as int,
            vault.exchange_rate as int,
        )),
{
}

/// Law: the solvency gate. A due, correctly owned, unclaimed ticket whose
/// payout computes to a positive amount is rejected with
/// `InsufficientVaultBalance` whenever the custody balance falls short.
/// `claim_withdraw` leaves the ticket unclaimed on every failure, so such a
/// claim can simply be retried once the vault has been funded.
pub proof fn lemma_solvency_gate(
    vault: VaultState,
    t: WithdrawalTicket,
    user: AccountId,
    vault_balance: u64,
)
    requires
        t.user == user,
        !t.claimed,
        vault.current_epoch >= t.unlock_epoch,
        t.iou_amount * vault.exchange_rate <= u64::MAX,
        deposit_value_of(t.iou_amount as int, vault.exchange_rate as int) > 0,
        vault_balance < deposit_value_of(t.iou_amount as int, vault.exchange_rate as int),
    ensures
        claim_outcome(vault, Some(t), user, vault_balance) == Err::<
            (WithdrawalTicket, u64),
            VaultError,
        >(VaultError::InsufficientVaultBalance),
{
}

/// Law: only the administrator moves the vault. Any other caller is
/// rejected with `UnauthorizedAdmin` by both the rate update and the yield
/// deposit; the rejected operations change no state and move no funds.
pub proof fn lemma_admin_only(
    vault: VaultState,
    caller: AccountId,
    new_exchange_rate: u64,
    yield_amount: u64,
)
    requires
        caller != vault.admin,
    ensures
        rate_update_outcome(vault, caller, new_exchange_rate) == Err::<VaultState, VaultError>(
            VaultError::UnauthorizedAdmin,
        ),
        yield_outcome(vault, caller, yield_amount) == Err::<u64, VaultError>(
            VaultError::UnauthorizedAdmin,
        ),
{
}

/// Law: the epoch never moves backwards. A successful rate update advances
/// it by exactly one, and no other operation writes it at all.
pub proof fn lemma_epoch_monotonic(vault: VaultState, caller: AccountId, new_exchange_rate: u64)
    ensures
        rate_update_outcome(vault, caller, new_exchange_rate) matches Ok(updated) ==> (
        updated.current_epoch == vault.current_epoch + 1 && updated.well_formed()),
{
}

} // verus!

