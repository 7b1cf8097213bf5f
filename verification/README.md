# ned_finance_wallet

The bookkeeping of the NED wallet's Solana programs, verified with Verus.

- `src/` is the library. Each owner keeps a table of twenty named vault slots
  (`vaults::VaultManager`, `savings::UserSavingsManager`); the instruction
  functions decide what a create, rename, delete, deposit or withdrawal does to
  the table and which tokens move, and say so in their contracts. `ledger`
  saves balances, `fees` accrues partner fees of the vault protocol, `closing`
  empties a closed account, `laws` proves properties that span calls.
- `app/` holds the Anchor programs: account layouts, account validation,
  signing seeds and the token and protocol calls, around the library.
- `tests/` runs the library on concrete tables and balances.
