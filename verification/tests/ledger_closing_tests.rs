use ned_finance_wallet::closing::{close_data_account, ClosedLamports};
use ned_finance_wallet::key::{default_pubkey, keys_equal};
use ned_finance_wallet::ledger::{save_account_balance, save_vault_balance, LedgerStore};

#[test]
fn saving_balances_overwrites_the_ledger() {
    let mut ledger = LedgerStore { amount: 3 };
    save_account_balance(&mut ledger, 1_000);
    assert_eq!(ledger.amount, 1_000);
    save_vault_balance(&mut ledger, 20);
    assert_eq!(ledger, LedgerStore { amount: 20 });
}

#[test]
fn close_moves_lamports_and_marks_data() {
    let mut data: Vec<u8> = (1..=12).collect();
    let r = close_data_account([4; 32], [4; 32], 1_000, 250, &mut data);
    assert_eq!(r, Some(ClosedLamports { destination: 1_250, data_account: 0 }));
    assert_eq!(data, vec![255, 255, 255, 255, 255, 255, 255, 255, 0, 0, 0, 0]);
}

#[test]
fn close_by_other_does_nothing() {
    let mut data: Vec<u8> = (1..=12).collect();
    let r = close_data_account([4; 32], [5; 32], 1_000, 250, &mut data);
    assert_eq!(r, None);
    assert_eq!(data, (1..=12).collect::<Vec<u8>>());
}

#[test]
fn keys_compare_bytewise() {
    assert!(keys_equal(&[3; 32], &[3; 32]));
    let mut k = [3; 32];
    k[31] = 4;
    assert!(!keys_equal(&[3; 32], &k));
    assert_eq!(default_pubkey(), [0; 32]);
}
