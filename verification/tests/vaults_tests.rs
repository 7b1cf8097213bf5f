use ned_finance_wallet::ledger::LedgerStore;
use ned_finance_wallet::vaults::{
    create_vault, delete_vault, deposit_liquidity, deposit_to_vault_with_diff_balance, update_vault,
    withdraw_from_diff_balance, withdraw_from_vault, withdraw_liquidity, withdraw_savings, LiquidityStep,
    SpareType, VaultAccount, VaultManager, VaultOwner, VaultsAccountsError,
};

const OWNER: [u8; 32] = [7; 32];
const OTHER: [u8; 32] = [8; 32];
const MINT: [u8; 32] = [9; 32];

fn key(n: u8) -> [u8; 32] {
    [n; 32]
}

fn empty_slot() -> VaultAccount {
    VaultAccount {
        name: [0; 30],
        name_length: 0,
        pub_key: [0; 32],
        token_pub_key: [0; 32],
        spare_type: 0,
        automatic_days_period: 0,
        identifier: [0; 22],
        earnings_enabled: 0,
    }
}

fn owned_table() -> VaultManager {
    VaultManager { owner: OWNER, accounts: [empty_slot(); 20] }
}

fn with_vault(table: &mut VaultManager, slot: usize, k: u8, spare: u8, ident: u8) {
    table.accounts[slot].pub_key = key(k);
    table.accounts[slot].spare_type = spare;
    table.accounts[slot].identifier = [ident; 22];
}

#[test]
fn vault_sizes_match_the_account_layout() {
    assert_eq!(VaultAccount::SIZE, 120);
    assert_eq!(VaultManager::MAX_ACCOUNTS, 20);
    assert_eq!(VaultManager::LEN, 8 + 32 + 2400);
    assert_eq!(VaultOwner::LEN, 40);
    assert_eq!(LedgerStore::SIZE, 72);
}

#[test]
fn create_vault_fills_first_free_slot() {
    let mut table = VaultManager { owner: [0; 32], accounts: [empty_slot(); 20] };
    with_vault(&mut table, 0, 1, 0, 1);
    table.accounts[1].earnings_enabled = 1;
    let r = create_vault(&mut table, OWNER, key(2), MINT, &b"Trip".to_vec(), [3; 22], SpareType::SPARE);
    assert_eq!(r, Ok(()));
    assert_eq!(table.owner, OWNER);
    let slot = table.accounts[1];
    assert_eq!(slot.pub_key, key(2));
    assert_eq!(slot.token_pub_key, MINT);
    assert_eq!(&slot.name[..4], b"Trip");
    assert_eq!(slot.name_length, 4);
    assert_eq!(slot.spare_type, 1);
    assert_eq!(slot.identifier, [3; 22]);
    assert_eq!(slot.earnings_enabled, 1);
}

#[test]
fn create_vault_refusals() {
    let mut table = owned_table();
    assert_eq!(
        create_vault(&mut table, OWNER, key(2), MINT, &vec![0; 5], [3; 22], SpareType::NONE),
        Err(VaultsAccountsError::AccountNameEmpty)
    );
    for i in 0..20 {
        with_vault(&mut table, i, i as u8 + 1, 0, 0);
    }
    assert_eq!(
        create_vault(&mut table, OTHER, key(90), MINT, &b"a".to_vec(), [3; 22], SpareType::NONE),
        Err(VaultsAccountsError::MaxAccountsReached)
    );
    assert_eq!(table.owner, OWNER);
}

#[test]
fn update_vault_changes_name_kind_and_earnings() {
    let mut table = owned_table();
    with_vault(&mut table, 2, 3, 0, 4);
    let r = update_vault(&mut table, OWNER, key(3), &b"Bike".to_vec(), SpareType::SPARE2X, 1);
    assert_eq!(r, Ok(()));
    let slot = table.accounts[2];
    assert_eq!(&slot.name[..4], b"Bike");
    assert_eq!(slot.name_length, 4);
    assert_eq!(slot.spare_type, 2);
    assert_eq!(slot.earnings_enabled, 1);
    assert_eq!(slot.identifier, [4; 22]);
}

#[test]
fn update_vault_refuses_second_spare_after_it() {
    let mut table = owned_table();
    with_vault(&mut table, 0, 1, 0, 1);
    with_vault(&mut table, 2, 3, 1, 3);
    let r = update_vault(&mut table, OWNER, key(1), &b"a".to_vec(), SpareType::SPARE, 0);
    assert_eq!(r, Err(VaultsAccountsError::VaultWithSpareMaxReached));
    assert_eq!(table.accounts[0].spare_type, 0);
    assert_eq!(table.accounts[0].name_length, 0);
    let r = update_vault(&mut table, OWNER, key(1), &b"a".to_vec(), SpareType::NONE, 0);
    assert_eq!(r, Ok(()));
}

#[test]
fn update_vault_looks_only_after_the_vault() {
    let mut table = owned_table();
    with_vault(&mut table, 0, 1, 1, 1);
    with_vault(&mut table, 1, 2, 0, 2);
    let r = update_vault(&mut table, OWNER, key(2), &b"b".to_vec(), SpareType::SPARE3X, 0);
    assert_eq!(r, Ok(()));
    assert_eq!(table.accounts[0].spare_type, 1);
    assert_eq!(table.accounts[1].spare_type, 3);
}

#[test]
fn update_vault_refusals() {
    let mut table = owned_table();
    with_vault(&mut table, 0, 1, 0, 1);
    assert_eq!(
        update_vault(&mut table, OWNER, key(1), &vec![], SpareType::NONE, 0),
        Err(VaultsAccountsError::AccountNameEmpty)
    );
    assert_eq!(
        update_vault(&mut table, OTHER, key(1), &b"a".to_vec(), SpareType::NONE, 0),
        Err(VaultsAccountsError::ActionNotAllowed)
    );
    assert_eq!(
        update_vault(&mut table, OWNER, key(2), &b"a".to_vec(), SpareType::NONE, 0),
        Err(VaultsAccountsError::AccountNotFound)
    );
}

#[test]
fn delete_vault_releases_slot_and_returns_identifier() {
    let mut table = owned_table();
    with_vault(&mut table, 4, 5, 2, 6);
    table.accounts[4].token_pub_key = MINT;
    table.accounts[4].name = [b'z'; 30];
    table.accounts[4].name_length = 30;
    let r = delete_vault(&mut table, OWNER, key(5));
    assert_eq!(r, Ok([6; 22]));
    let slot = table.accounts[4];
    assert_eq!(slot.pub_key, [0; 32]);
    assert_eq!(slot.name, [0; 30]);
    assert_eq!(slot.name_length, 0);
    assert_eq!(slot.spare_type, 0);
    assert_eq!(slot.identifier, [0; 22]);
    assert_eq!(slot.token_pub_key, MINT);
}

#[test]
fn delete_vault_refusals() {
    let mut table = owned_table();
    with_vault(&mut table, 4, 5, 2, 6);
    assert_eq!(delete_vault(&mut table, OTHER, key(5)), Err(VaultsAccountsError::ActionNotAllowed));
    assert_eq!(delete_vault(&mut table, OWNER, key(6)), Err(VaultsAccountsError::AccountNotFound));
    assert_eq!(table.accounts[4].pub_key, key(5));
}

#[test]
fn created_vault_is_found_and_freed_slot_is_reused() {
    let mut table = owned_table();
    for i in 0..20 {
        with_vault(&mut table, i, i as u8 + 1, 0, i as u8);
    }
    assert_eq!(delete_vault(&mut table, OWNER, key(11)), Ok([10; 22]));
    assert_eq!(
        create_vault(&mut table, OWNER, key(77), MINT, &b"n".to_vec(), [2; 22], SpareType::NONE),
        Ok(())
    );
    assert_eq!(table.accounts[10].pub_key, key(77));
    assert_eq!(delete_vault(&mut table, OWNER, key(77)), Ok([2; 22]));
    assert_eq!(delete_vault(&mut table, OWNER, key(77)), Err(VaultsAccountsError::AccountNotFound));
}

#[test]
fn withdraw_from_vault_needs_owner() {
    let table = owned_table();
    assert_eq!(withdraw_from_vault(&table, OWNER, 40), Ok(40));
    assert_eq!(withdraw_from_vault(&table, OTHER, 40), Err(VaultsAccountsError::ActionNotAllowed));
    assert_eq!(withdraw_savings(&table, OWNER, 12), Some(12));
    assert_eq!(withdraw_savings(&table, OTHER, 12), None);
}

#[test]
fn deposit_difference_above_saved_balance() {
    let mut table = owned_table();
    with_vault(&mut table, 1, 2, 0, 8);
    let mut ledger = LedgerStore { amount: 100 };
    let t = deposit_to_vault_with_diff_balance(&table, &mut ledger, OWNER, key(2), 150).unwrap();
    assert_eq!(t.amount, 50);
    assert_eq!(t.identifier, [8; 22]);
    assert_eq!(ledger.amount, 50);
}

#[test]
fn deposit_difference_below_saved_balance_is_its_size() {
    let mut table = owned_table();
    with_vault(&mut table, 1, 2, 0, 8);
    let mut ledger = LedgerStore { amount: 100 };
    let t = deposit_to_vault_with_diff_balance(&table, &mut ledger, OWNER, key(2), 80).unwrap();
    assert_eq!(t.amount, 20);
    assert_eq!(ledger.amount, 20);
}

#[test]
fn deposit_difference_reads_balances_as_signed() {
    let mut table = owned_table();
    with_vault(&mut table, 0, 2, 0, 8);
    let mut ledger = LedgerStore { amount: 0 };
    let t = deposit_to_vault_with_diff_balance(&table, &mut ledger, OWNER, key(2), u64::MAX).unwrap();
    assert_eq!(t.amount, 1);
}

#[test]
fn deposit_difference_refusals() {
    let mut table = owned_table();
    with_vault(&mut table, 1, 2, 0, 8);
    let mut ledger = LedgerStore { amount: 100 };
    assert_eq!(
        deposit_to_vault_with_diff_balance(&table, &mut ledger, OTHER, key(2), 150).map(|t| t.amount),
        Err(VaultsAccountsError::ActionNotAllowed)
    );
    assert_eq!(
        deposit_to_vault_with_diff_balance(&table, &mut ledger, OWNER, key(3), 150).map(|t| t.amount),
        Err(VaultsAccountsError::AccountNotFound)
    );
    assert_eq!(ledger.amount, 100);
}

#[test]
fn withdraw_difference_pays_growth() {
    let mut table = owned_table();
    with_vault(&mut table, 1, 2, 0, 8);
    let t = withdraw_from_diff_balance(&table, OWNER, key(2), 130, 100).unwrap().unwrap();
    assert_eq!(t.amount, 30);
    assert_eq!(t.identifier, [8; 22]);
    assert!(withdraw_from_diff_balance(&table, OWNER, key(3), 130, 100).unwrap().is_none());
    assert_eq!(
        withdraw_from_diff_balance(&table, OTHER, key(2), 130, 100).map(|o| o.is_some()),
        Err(VaultsAccountsError::ActionNotAllowed)
    );
}

#[test]
fn saved_balance_then_withdraw_moves_nothing() {
    let mut table = owned_table();
    with_vault(&mut table, 0, 2, 0, 8);
    let mut ledger = LedgerStore { amount: 0 };
    ned_finance_wallet::ledger::save_vault_balance(&mut ledger, 500);
    let t = withdraw_from_diff_balance(&table, OWNER, key(2), 500, ledger.amount).unwrap().unwrap();
    assert_eq!(t.amount, 0);
}

#[test]
fn deposit_liquidity_steps() {
    let mut table = owned_table();
    with_vault(&mut table, 0, 2, 0, 8);
    with_vault(&mut table, 1, 3, 0, 9);
    table.accounts[1].earnings_enabled = 1;
    assert_eq!(deposit_liquidity(&table, OTHER, key(2), 0), Ok(LiquidityStep::Skip));
    assert_eq!(deposit_liquidity(&table, OWNER, key(4), 0), Err(VaultsAccountsError::AccountNotFound));
    assert_eq!(deposit_liquidity(&table, OWNER, key(2), 0), Err(VaultsAccountsError::EarningsNotEnabled));
    assert_eq!(deposit_liquidity(&table, OWNER, key(3), 0), Ok(LiquidityStep::InitializeUser));
    assert_eq!(deposit_liquidity(&table, OWNER, key(3), 1_000), Ok(LiquidityStep::UserReady));
}

#[test]
fn withdraw_liquidity_needs_owner_and_vault() {
    let mut table = owned_table();
    with_vault(&mut table, 3, 2, 0, 8);
    let t = withdraw_liquidity(&table, OWNER, key(2), 70).unwrap();
    assert_eq!(t.amount, 70);
    assert_eq!(t.identifier, [8; 22]);
    assert!(withdraw_liquidity(&table, OTHER, key(2), 70).is_none());
    assert!(withdraw_liquidity(&table, OWNER, key(5), 70).is_none());
}
