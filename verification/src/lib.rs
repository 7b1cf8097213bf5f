//! Account bookkeeping of the NED wallet programs: named vault slots kept in a
//! fixed table per owner, balance ledgers, fee accrual of liquidity partners and
//! the decisions each instruction takes before it moves tokens.
pub mod key;
pub mod names;
pub mod savings;
pub mod ledger;
pub mod vaults;
pub mod fees;
pub mod closing;
pub mod laws;
