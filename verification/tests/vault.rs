use vault_program::claim_withdraw;
use vault_program::deposit;
use vault_program::deposit_for_shares;
use vault_program::deposit_yield;
use vault_program::increase_rate;
use vault_program::initialize;
use vault_program::request_withdraw;
use vault_program::shares_for_deposit;
use vault_program::AccountId;
use vault_program::LedgerIntent;
use vault_program::VaultError;
use vault_program::VaultState;
use vault_program::WithdrawalTicket;
use vault_program::EXCHANGE_RATE_SCALE;


fn admin() -> AccountId { AccountId(1) }
fn user() -> AccountId { AccountId(2) }
fn other() -> AccountId { AccountId(3) }
fn deposit_mint() -> AccountId { AccountId(10) }
fn iou_mint() -> AccountId { AccountId(11) }

fn vault_with(exchange_rate: u64, current_epoch: u64) -> VaultState {
    VaultState {
        admin: admin(),
        deposit_mint: deposit_mint(),
        iou_mint: iou_mint(),
        exchange_rate,
        current_epoch,
    }
}

fn open_ticket(iou_amount: u64, unlock_epoch: u64) -> WithdrawalTicket {
    WithdrawalTicket { user: user(), iou_amount, unlock_epoch, claimed: false }
}

#[test]
fn initialize_sets_one_to_one_rate_and_epoch_zero() {
    let v = initialize(admin(), deposit_mint(), iou_mint());
    assert_eq!(v.admin, admin());
    assert_eq!(v.deposit_mint, deposit_mint());
    assert_eq!(v.iou_mint, iou_mint());
    assert_eq!(v.exchange_rate, EXCHANGE_RATE_SCALE);
    assert_eq!(v.current_epoch, 0);
}

#[test]
fn shares_for_deposit_exact_value() {
    assert_eq!(shares_for_deposit(1_000_000, 1_100_000), Ok(909_090));
}

#[test]
fn deposit_for_shares_exact_value() {
    assert_eq!(deposit_for_shares(1_000_000, 1_100_000), Ok(1_100_000));
}

#[test]
fn round_trip_never_expands() {
    let cases: Vec<(u64, u64)> = vec![
        (1_000_000, 1_100_000),
        (1_234_567, 1_300_000),
        (999_999, 1_000_001),
        (7, 3_500_000),
        (1_000_000_000_000, 2_718_281),
    ];
    for (deposit_amount, rate) in cases {
        if let Ok(shares) = shares_for_deposit(deposit_amount, rate) {
            if let Ok(back) = deposit_for_shares(shares, rate) {
                assert!(back <= deposit_amount, "{} -> {} -> {}", deposit_amount, shares, back);
            }
        }
    }
}

#[test]
fn deposit_value_strictly_increases_with_rate() {
    let low = deposit_for_shares(1_000, 1_000_000).unwrap();
    let high = deposit_for_shares(1_000, 2_000_000).unwrap();
    assert_eq!(low, 1_000);
    assert_eq!(high, 2_000);
    assert!(low < high);
}

#[test]
fn shares_strictly_decrease_with_rate() {
    let low = shares_for_deposit(1_000_000, 1_000_000).unwrap();
    let high = shares_for_deposit(1_000_000, 2_000_000).unwrap();
    assert_eq!(low, 1_000_000);
    assert_eq!(high, 500_000);
    assert!(high < low);
}

#[test]
fn zero_rate_is_rejected() {
    assert_eq!(shares_for_deposit(5, 0), Err(VaultError::InvalidExchangeRate));
    let v = vault_with(0, 0);
    assert_eq!(deposit(&v, user(), 5), Err(VaultError::InvalidExchangeRate));
}

#[test]
fn conversion_overflow_is_rejected() {
    assert_eq!(shares_for_deposit(u64::MAX, 1_000_000), Err(VaultError::MathOverflow));
    assert_eq!(deposit_for_shares(u64::MAX, 2), Err(VaultError::MathOverflow));
}

#[test]
fn dust_amounts_are_rejected() {
    assert_eq!(shares_for_deposit(1, 2_000_000), Err(VaultError::InvalidAmount));
    assert_eq!(deposit_for_shares(1, 999_999), Err(VaultError::InvalidAmount));
}

#[test]
fn deposit_issues_transfer_and_mint() {
    let v = vault_with(EXCHANGE_RATE_SCALE, 0);
    let intents = deposit(&v, user(), 1_000_000).unwrap();
    assert_eq!(intents.len(), 2);
    assert_eq!(
        intents[0],
        LedgerIntent::TransferToVault { asset: deposit_mint(), from: user(), amount: 1_000_000 }
    );
    assert_eq!(intents[1], LedgerIntent::Mint { asset: iou_mint(), to: user(), amount: 1_000_000 });
}

#[test]
fn request_withdraw_burns_and_writes_ticket() {
    let v = vault_with(EXCHANGE_RATE_SCALE, 5);
    let mut slot: Option<WithdrawalTicket> = None;
    let intents = request_withdraw(&v, &mut slot, user(), 400).unwrap();
    assert_eq!(intents.len(), 1);
    assert_eq!(intents[0], LedgerIntent::Burn { asset: iou_mint(), from: user(), amount: 400 });
    assert_eq!(slot, Some(open_ticket(400, 6)));
}

#[test]
fn request_withdraw_rejects_zero_amount() {
    let v = vault_with(EXCHANGE_RATE_SCALE, 0);
    let mut slot: Option<WithdrawalTicket> = None;
    assert_eq!(request_withdraw(&v, &mut slot, user(), 0), Err(VaultError::InvalidAmount));
    assert_eq!(slot, None);
}

#[test]
fn request_withdraw_rejects_pending_ticket() {
    let v = vault_with(EXCHANGE_RATE_SCALE, 3);
    let mut slot = Some(open_ticket(100, 2));
    assert_eq!(request_withdraw(&v, &mut slot, user(), 50), Err(VaultError::TicketAlreadyClaimed));
    assert_eq!(slot, Some(open_ticket(100, 2)));
}

#[test]
fn request_withdraw_rejects_foreign_ticket() {
    let v = vault_with(EXCHANGE_RATE_SCALE, 3);
    let foreign = WithdrawalTicket { user: other(), iou_amount: 9, unlock_epoch: 1, claimed: false };
    let mut slot = Some(foreign);
    assert_eq!(request_withdraw(&v, &mut slot, user(), 50), Err(VaultError::InvalidTicketOwner));
    assert_eq!(slot, Some(foreign));
    let foreign_claimed = WithdrawalTicket { claimed: true, ..foreign };
    let mut slot2 = Some(foreign_claimed);
    assert_eq!(request_withdraw(&v, &mut slot2, user(), 50), Err(VaultError::InvalidTicketOwner));
}

#[test]
fn request_withdraw_reuses_claimed_slot() {
    let v = vault_with(EXCHANGE_RATE_SCALE, 7);
    let mut slot = Some(WithdrawalTicket { claimed: true, ..open_ticket(100, 2) });
    let intents = request_withdraw(&v, &mut slot, user(), 250).unwrap();
    assert_eq!(intents.len(), 1);
    assert_eq!(slot, Some(open_ticket(250, 8)));
}

#[test]
fn request_withdraw_rejects_epoch_wraparound() {
    let v = vault_with(EXCHANGE_RATE_SCALE, u64::MAX);
    let mut slot: Option<WithdrawalTicket> = None;
    assert_eq!(request_withdraw(&v, &mut slot, user(), 10), Err(VaultError::MathOverflow));
    assert_eq!(slot, None);
}

#[test]
fn claim_requires_existing_own_ticket() {
    let v = vault_with(EXCHANGE_RATE_SCALE, 9);
    let mut empty: Option<WithdrawalTicket> = None;
    assert_eq!(claim_withdraw(&v, &mut empty, user(), 1_000), Err(VaultError::InvalidTicketOwner));
    let mut foreign = Some(WithdrawalTicket {
        user: other(),
        iou_amount: 5,
        unlock_epoch: 1,
        claimed: false,
    });
    assert_eq!(claim_withdraw(&v, &mut foreign, user(), 1_000), Err(VaultError::InvalidTicketOwner));
}

#[test]
fn claim_rejects_already_claimed_ticket() {
    let v = vault_with(EXCHANGE_RATE_SCALE, 9);
    let claimed = WithdrawalTicket { claimed: true, ..open_ticket(5, 1) };
    let mut slot = Some(claimed);
    assert_eq!(
        claim_withdraw(&v, &mut slot, user(), 1_000_000),
        Err(VaultError::TicketAlreadyClaimed)
    );
    assert_eq!(slot, Some(claimed));
}

#[test]
fn claim_respects_epoch_gate() {
    let v = vault_with(EXCHANGE_RATE_SCALE, 1);
    let mut slot = Some(open_ticket(5_000_000, 2));
    assert_eq!(
        claim_withdraw(&v, &mut slot, user(), u64::MAX),
        Err(VaultError::WithdrawalNotReady)
    );
    assert_eq!(slot, Some(open_ticket(5_000_000, 2)));
    let ready = vault_with(EXCHANGE_RATE_SCALE, 2);
    let intents = claim_withdraw(&ready, &mut slot, user(), u64::MAX).unwrap();
    assert_eq!(
        intents[0],
        LedgerIntent::TransferFromVault { asset: deposit_mint(), to: user(), amount: 5_000_000 }
    );
}

#[test]
fn claim_pays_at_the_rate_current_at_claim_time() {
    let v = vault_with(1_100_000, 2);
    let mut slot = Some(open_ticket(1_000_000, 2));
    let intents = claim_withdraw(&v, &mut slot, user(), 2_000_000).unwrap();
    assert_eq!(intents.len(), 1);
    assert_eq!(
        intents[0],
        LedgerIntent::TransferFromVault { asset: deposit_mint(), to: user(), amount: 1_100_000 }
    );
    assert_eq!(slot, Some(WithdrawalTicket { claimed: true, ..open_ticket(1_000_000, 2) }));
}

#[test]
fn claim_rejects_payout_overflow() {
    let v = vault_with(u64::MAX, 1);
    let mut slot = Some(open_ticket(u64::MAX, 1));
    assert_eq!(claim_withdraw(&v, &mut slot, user(), u64::MAX), Err(VaultError::MathOverflow));
    assert_eq!(slot, Some(open_ticket(u64::MAX, 1)));
}

#[test]
fn double_claim_fails() {
    let v = vault_with(EXCHANGE_RATE_SCALE, 3);
    let mut slot = Some(open_ticket(700, 3));
    assert!(claim_withdraw(&v, &mut slot, user(), 1_000).is_ok());
    assert_eq!(claim_withdraw(&v, &mut slot, user(), 1_000), Err(VaultError::TicketAlreadyClaimed));
    let richer = vault_with(9_000_000, 50);
    assert_eq!(
        claim_withdraw(&richer, &mut slot, user(), u64::MAX),
        Err(VaultError::TicketAlreadyClaimed)
    );
}

#[test]
fn increase_rate_updates_rate_and_advances_epoch() {
    let mut v = vault_with(EXCHANGE_RATE_SCALE, 0);
    assert_eq!(increase_rate(&mut v, admin(), 1_250_000), Ok(()));
    assert_eq!(v.exchange_rate, 1_250_000);
    assert_eq!(v.current_epoch, 1);
    assert_eq!(v.admin, admin());
}

#[test]
fn increase_rate_rejects_non_admin_and_changes_nothing() {
    let mut v = vault_with(EXCHANGE_RATE_SCALE, 4);
    assert_eq!(increase_rate(&mut v, other(), 2_000_000), Err(VaultError::UnauthorizedAdmin));
    assert_eq!(v, vault_with(EXCHANGE_RATE_SCALE, 4));
}

#[test]
fn increase_rate_rejects_zero_rate() {
    let mut v = vault_with(EXCHANGE_RATE_SCALE, 4);
    assert_eq!(increase_rate(&mut v, admin(), 0), Err(VaultError::InvalidExchangeRate));
    assert_eq!(v, vault_with(EXCHANGE_RATE_SCALE, 4));
}

#[test]
fn increase_rate_rejects_epoch_wraparound() {
    let mut v = vault_with(EXCHANGE_RATE_SCALE, u64::MAX);
    assert_eq!(increase_rate(&mut v, admin(), 2_000_000), Err(VaultError::MathOverflow));
    assert_eq!(v, vault_with(EXCHANGE_RATE_SCALE, u64::MAX));
}

#[test]
fn deposit_yield_is_admin_only() {
    let v = vault_with(EXCHANGE_RATE_SCALE, 0);
    assert_eq!(deposit_yield(&v, other(), 1_000), Err(VaultError::UnauthorizedAdmin));
    assert_eq!(deposit_yield(&v, admin(), 0), Err(VaultError::InvalidAmount));
    let intents = deposit_yield(&v, admin(), 1_000).unwrap();
    assert_eq!(intents.len(), 1);
    assert_eq!(
        intents[0],
        LedgerIntent::TransferToVault { asset: deposit_mint(), from: admin(), amount: 1_000 }
    );
}

fn custody_after(custody: u64, intents: &[LedgerIntent]) -> u64 {
    let mut balance = custody;
    for intent in intents {
        match intent {
            LedgerIntent::TransferToVault { amount, .. } => balance += *amount,
            LedgerIntent::TransferFromVault { amount, .. } => balance -= *amount,
            LedgerIntent::Mint { .. } | LedgerIntent::Burn { .. } => {}
        }
    }
    balance
}

#[test]
fn scenario_yield_accrual_end_to_end() {
    let mut vault = initialize(admin(), deposit_mint(), iou_mint());
    let mut custody: u64 = 0;

    let intents = deposit(&vault, user(), 1_000_000).unwrap();
    assert_eq!(intents[1], LedgerIntent::Mint { asset: iou_mint(), to: user(), amount: 1_000_000 });
    custody = custody_after(custody, &intents);
    assert_eq!(custody, 1_000_000);

    assert_eq!(increase_rate(&mut vault, admin(), 1_100_000), Ok(()));
    assert_eq!(vault.current_epoch, 1);

    let mut slot: Option<WithdrawalTicket> = None;
    request_withdraw(&vault, &mut slot, user(), 1_000_000).unwrap();
    assert_eq!(slot.unwrap().unlock_epoch, 2);

    assert_eq!(
        claim_withdraw(&vault, &mut slot, user(), custody),
        Err(VaultError::WithdrawalNotReady)
    );

    let yield_intents = deposit_yield(&vault, admin(), 100_000).unwrap();
    custody = custody_after(custody, &yield_intents);
    assert_eq!(custody, 1_100_000);

    assert_eq!(increase_rate(&mut vault, admin(), 1_100_000), Ok(()));
    assert_eq!(vault.current_epoch, 2);

    let payout = claim_withdraw(&vault, &mut slot, user(), custody).unwrap();
    assert_eq!(
        payout[0],
        LedgerIntent::TransferFromVault { asset: deposit_mint(), to: user(), amount: 1_100_000 }
    );
    assert!(slot.unwrap().claimed);
}

#[test]
fn scenario_insolvent_claim_recovers_after_yield() {
    let vault = vault_with(EXCHANGE_RATE_SCALE, 1);
    let mut custody: u64 = 500_000;
    let mut slot = Some(open_ticket(1_000_000, 1));

    assert_eq!(
        claim_withdraw(&vault, &mut slot, user(), custody),
        Err(VaultError::InsufficientVaultBalance)
    );
    assert!(!slot.unwrap().claimed);

    let yield_intents = deposit_yield(&vault, admin(), 600_000).unwrap();
    custody = custody_after(custody, &yield_intents);

    let payout = claim_withdraw(&vault, &mut slot, user(), custody).unwrap();
    assert_eq!(
        payout[0],
        LedgerIntent::TransferFromVault { asset: deposit_mint(), to: user(), amount: 1_000_000 }
    );
    assert!(slot.unwrap().claimed);
}
