use vstd::prelude::*;

verus! {

/// A saved token balance, compared later with the live balance.
#[derive(Clone, Copy, Debug, PartialEq, Eq, Structural)]
pub struct LedgerStore {
    pub amount: u64,
}

impl LedgerStore {
    pub const SIZE: usize = 8 + 64;
}

/// Records the balance of the user's token account in the ledger.
pub fn save_account_balance(ledger: &mut LedgerStore, user_token_amount: u64)
    ensures
        final(ledger).amount == user_token_amount,
{
    ledger.amount = user_token_amount;
}

/// Records the balance of a vault's token account in the ledger.
pub fn save_vault_balance(ledger: &mut LedgerStore, vault_amount: u64)
    ensures
        final(ledger).amount == vault_amount,
{
    ledger.amount = vault_amount;
}

} // verus!
