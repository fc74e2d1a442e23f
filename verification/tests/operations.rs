use anchor_lang::prelude::Pubkey;
use uei_reconciler::{
    consume_energy, initialize, store_energy, BatteryBank, ConsumeEnergy, EnergyStorageError,
    Initialize, ProducerAccount, StoreEnergy, Transaction, TransactionType, MAX_TRANSACTIONS,
};

fn owner_key() -> Pubkey {
    Pubkey::new_from_array([1u8; 32])
}

fn producer_key() -> Pubkey {
    Pubkey::new_from_array([2u8; 32])
}

fn bank_with_fee(storage_fee: u64) -> BatteryBank {
    BatteryBank { owner: owner_key(), storage_fee }
}

fn withdrawal_from(ledger: ProducerAccount, storage_fee: u64) -> ConsumeEnergy {
    ConsumeEnergy {
        battery_bank: bank_with_fee(storage_fee),
        producer_account: ledger,
        producer: producer_key(),
        owner: owner_key(),
    }
}

#[test]
fn initialize_creates_the_facility() {
    let mut ctx = Initialize { battery_bank: None, owner: owner_key() };
    assert_eq!(initialize(&mut ctx, 10), Ok(()));
    assert_eq!(ctx.battery_bank, Some(BatteryBank { owner: owner_key(), storage_fee: 10 }));
    assert_eq!(ctx.owner, owner_key());
}

#[test]
fn initialize_accepts_a_zero_fee() {
    let mut ctx = Initialize { battery_bank: None, owner: owner_key() };
    assert_eq!(initialize(&mut ctx, 0), Ok(()));
    assert_eq!(ctx.battery_bank.unwrap().storage_fee, 0);
}

#[test]
fn initialize_twice_is_refused() {
    let mut ctx = Initialize { battery_bank: None, owner: owner_key() };
    assert_eq!(initialize(&mut ctx, 10), Ok(()));
    let before = ctx;
    assert_eq!(initialize(&mut ctx, 99), Err(EnergyStorageError::AlreadyExists));
    assert_eq!(ctx, before);
    assert_eq!(ctx.battery_bank.unwrap().storage_fee, 10);
}

#[test]
fn initialize_refuses_another_signer_on_an_existing_facility() {
    let existing = BatteryBank { owner: owner_key(), storage_fee: 7 };
    let mut ctx = Initialize { battery_bank: Some(existing), owner: producer_key() };
    assert_eq!(initialize(&mut ctx, 3), Err(EnergyStorageError::AlreadyExists));
    assert_eq!(ctx.battery_bank, Some(existing));
}

#[test]
fn deposit_withdraw_and_refused_withdrawal() {
    let mut deposit = StoreEnergy {
        battery_bank: bank_with_fee(10),
        producer_account: None,
        producer: producer_key(),
    };
    assert_eq!(store_energy(&mut deposit, 5, 2, 1_000), Ok(()));
    let ledger = deposit.producer_account.unwrap();
    assert_eq!(ledger.stored_amount, 5);
    assert_eq!(ledger.balance, 50);

    let mut withdrawal = withdrawal_from(ledger, 10);
    assert_eq!(consume_energy(&mut withdrawal, 3, 1_001), Ok(()));
    assert_eq!(withdrawal.producer_account.consumed_amount, 3);
    assert_eq!(withdrawal.producer_account.balance, 44);

    let before = withdrawal.clone();
    assert_eq!(
        consume_energy(&mut withdrawal, 10, 1_002),
        Err(EnergyStorageError::InsufficientEnergy)
    );
    assert_eq!(withdrawal, before);
    assert_eq!(withdrawal.producer_account.consumed_amount, 3);
    assert_eq!(withdrawal.producer_account.balance, 44);
    assert_eq!(withdrawal.producer_account.stored_amount, 5);
}

#[test]
fn first_deposit_creates_the_ledger() {
    let mut ctx = StoreEnergy {
        battery_bank: bank_with_fee(4),
        producer_account: None,
        producer: producer_key(),
    };
    assert_eq!(store_energy(&mut ctx, 9, 1, 77), Ok(()));
    let ledger = ctx.producer_account.unwrap();
    assert_eq!(ledger.producer, producer_key());
    assert_eq!(ledger.stored_amount, 9);
    assert_eq!(ledger.consumed_amount, 0);
    assert_eq!(ledger.rate, 1);
    assert_eq!(ledger.balance, 36);
    assert_eq!(ledger.last_reconciled, 77);
    assert_eq!(ledger.max_transactions, MAX_TRANSACTIONS);
    assert_eq!(
        ledger.transactions,
        vec![Transaction { tx_type: TransactionType::Store, amount: 9, timestamp: 77 }]
    );
    assert_eq!(ctx.battery_bank, bank_with_fee(4));
    assert_eq!(ctx.producer, producer_key());
}

#[test]
fn refused_first_deposit_creates_no_ledger() {
    let mut ctx = StoreEnergy {
        battery_bank: bank_with_fee(u64::MAX),
        producer_account: None,
        producer: producer_key(),
    };
    assert_eq!(store_energy(&mut ctx, u64::MAX, 0, 5), Err(EnergyStorageError::Overflow));
    assert_eq!(ctx.producer_account, None);
}

#[test]
fn later_deposit_goes_to_the_existing_ledger() {
    let mut ctx = StoreEnergy {
        battery_bank: bank_with_fee(3),
        producer_account: None,
        producer: producer_key(),
    };
    assert_eq!(store_energy(&mut ctx, 4, 1, 10), Ok(()));
    assert_eq!(store_energy(&mut ctx, 6, 2, 11), Ok(()));
    let ledger = ctx.producer_account.unwrap();
    assert_eq!(ledger.stored_amount, 10);
    assert_eq!(ledger.rate, 2);
    assert_eq!(ledger.balance, 30);
    assert_eq!(ledger.transactions.len(), 2);
    assert_eq!(ledger.last_reconciled, 11);
}

#[test]
fn default_ledger_takes_fifty_operations_and_no_more() {
    assert_eq!(MAX_TRANSACTIONS, 50);
    let mut ctx = StoreEnergy {
        battery_bank: bank_with_fee(1),
        producer_account: None,
        producer: producer_key(),
    };
    let mut done: i64 = 0;
    while done < 50 {
        assert_eq!(store_energy(&mut ctx, 1, 0, done), Ok(()));
        done += 1;
    }
    let before = ctx.clone();
    assert_eq!(store_energy(&mut ctx, 1, 0, 50), Err(EnergyStorageError::CapacityExceeded));
    assert_eq!(ctx, before);
    let ledger = ctx.producer_account.unwrap();
    assert_eq!(ledger.transactions.len(), 50);
    assert_eq!(ledger.stored_amount, 50);

    let mut withdrawal = withdrawal_from(ledger, 1);
    let kept = withdrawal.clone();
    assert_eq!(
        consume_energy(&mut withdrawal, 1, 51),
        Err(EnergyStorageError::CapacityExceeded)
    );
    assert_eq!(withdrawal, kept);
}

#[test]
fn deposit_is_authorized_for_the_ledgers_own_producer() {
    let own = StoreEnergy {
        battery_bank: bank_with_fee(1),
        producer_account: Some(ProducerAccount::new(producer_key(), 5)),
        producer: producer_key(),
    };
    assert!(own.is_authorized());
    let first = StoreEnergy {
        battery_bank: bank_with_fee(1),
        producer_account: None,
        producer: producer_key(),
    };
    assert!(first.is_authorized());
}

#[test]
fn deposit_is_not_authorized_for_another_producer() {
    let other = StoreEnergy {
        battery_bank: bank_with_fee(1),
        producer_account: Some(ProducerAccount::new(producer_key(), 5)),
        producer: Pubkey::new_from_array([3u8; 32]),
    };
    assert!(!other.is_authorized());
}

#[test]
fn deposit_needs_no_owner_signature() {
    let mut ctx = StoreEnergy {
        battery_bank: bank_with_fee(2),
        producer_account: Some(ProducerAccount::new(producer_key(), 5)),
        producer: producer_key(),
    };
    assert!(ctx.is_authorized());
    assert_eq!(store_energy(&mut ctx, 1, 1, 1), Ok(()));
}

#[test]
fn withdrawal_is_authorized_with_both_signers() {
    let ctx = withdrawal_from(ProducerAccount::new(producer_key(), 5), 1);
    assert!(ctx.is_authorized());
}

#[test]
fn withdrawal_is_not_authorized_without_the_facility_owner() {
    let mut ctx = withdrawal_from(ProducerAccount::new(producer_key(), 5), 1);
    ctx.owner = producer_key();
    assert!(!ctx.is_authorized());
}

#[test]
fn withdrawal_is_not_authorized_for_another_producer() {
    let mut ctx = withdrawal_from(ProducerAccount::new(producer_key(), 5), 1);
    ctx.producer = owner_key();
    assert!(!ctx.is_authorized());
}

#[test]
fn withdrawal_keeps_the_facility_and_the_signers() {
    let mut ledger = ProducerAccount::new(producer_key(), 5);
    assert_eq!(ledger.store(8, 1, 6, 1), Ok(()));
    let mut ctx = withdrawal_from(ledger, 6);
    assert_eq!(consume_energy(&mut ctx, 2, 2), Ok(()));
    assert_eq!(ctx.battery_bank, bank_with_fee(6));
    assert_eq!(ctx.producer, producer_key());
    assert_eq!(ctx.owner, owner_key());
    assert_eq!(ctx.producer_account.balance, 8 * 6 - 2);
}

#[test]
fn error_messages_are_distinct() {
    assert_eq!(EnergyStorageError::InsufficientEnergy.message(), "Insufficient energy stored");
    assert_eq!(EnergyStorageError::AlreadyExists.message(), "Facility already exists");
    assert_eq!(EnergyStorageError::CapacityExceeded.message(), "Transaction history is full");
    assert_eq!(EnergyStorageError::Overflow.message(), "Amount out of range");
}
