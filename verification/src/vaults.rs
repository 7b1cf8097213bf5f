use vstd::prelude::*;
use crate::key::{Key, default_key, default_pubkey, keys_equal, first_index, is_first_index, lemma_first_index_is};
use crate::names::{name_array, is_blank, recorded_length, name_length};
use crate::ledger::LedgerStore;
pub use crate::savings::SpareType;

verus! {

/// Refusals of the vaults program.
#[derive(Clone, Copy, Debug, PartialEq, Eq, Structural)]
pub enum VaultsAccountsError {
    AlreadyInitialized,
    MaxAccountsReached,
    AccountNameEmpty,
    AccountNotFound,
    ActionNotAllowed,
    EarningsNotEnabled,
    DepositSavingsError,
    WithdrawalSavingsError,
    VaultNotFound,
    AccountBalanceOverSlippage,
    VaultWithSpareMaxReached,
}

/// One named vault in an owner's table.
#[derive(Clone, Copy, Debug)]
pub struct VaultAccount {
    pub name: [u8; 30],
    pub name_length: u8,
    pub pub_key: Key,
    pub token_pub_key: Key,
    pub spare_type: u8,
    pub automatic_days_period: u8,
    pub identifier: [u8; 22],
    pub earnings_enabled: u8,
}

impl VaultAccount {
    pub const SIZE: usize = 30 + 1 + 32 + 32 + 1 + 1 + 22 + 1;
}

/// The table of vaults of one owner: twenty slots, a slot whose address is
/// the default key being free.
#[derive(Clone, Copy, Debug)]
pub struct VaultManager {
    pub owner: Key,
    pub accounts: [VaultAccount; 20],
}

impl VaultManager {
    pub const MAX_ACCOUNTS: usize = 20;
    pub const MAX_SIZE_ACCOUNTS_ARRAY: usize = VaultAccount::SIZE * VaultManager::MAX_ACCOUNTS;
    pub const LEN: usize = 8 + 32 + VaultManager::MAX_SIZE_ACCOUNTS_ARRAY;

    /// The addresses of the twenty slots, in order.
    pub open spec fn keys(self) -> Seq<Key> {
        self.accounts@.map_values(|a: VaultAccount| a.pub_key)
    }

    /// The slot an operation on `vault_key` acts on: the first that holds it.
    pub open spec fn slot_of(self, vault_key: Key) -> Option<int> {
        first_index(self.keys(), vault_key)
    }
}

/// The account that owns a vault's token account.
#[derive(Clone, Copy, Debug)]
pub struct VaultOwner {
    pub owner: Key,
}

impl VaultOwner {
    pub const LEN: usize = 8 + 32;
}

/// Tokens to move for a vault, and the identifier its signing seeds use.
#[derive(Clone, Copy, Debug)]
pub struct VaultTransfer {
    pub amount: u64,
    pub identifier: [u8; 22],
}

/// What a liquidity deposit does once the vault passed its checks.
#[derive(Clone, Copy, Debug, PartialEq, Eq, Structural)]
pub enum LiquidityStep {
    /// The signer does not own the table: nothing happens.
    Skip,
    /// The partner-side user account has no lamports yet: create it.
    InitializeUser,
    /// The partner-side user account exists already.
    UserReady,
}

/// Copies the first 30 bytes of `name` into a zero-padded array.
pub fn get_name_array(name: Vec<u8>) -> (fixed: [u8; 30])
    ensures
        fixed@ == name_array(name@),
{
    crate::names::get_name_array(&name)
}

/// Tells whether `name` holds no byte other than zero.
pub fn name_is_empty(name: &Vec<u8>) -> (empty: bool)
    ensures
        empty == is_blank(name@),
{
    crate::names::name_is_empty(name)
}

/// `new_slot` is `old_slot` taken for a new vault.
pub open spec fn is_filled_vault(
    new_slot: VaultAccount,
    old_slot: VaultAccount,
    vault_key: Key,
    mint_key: Key,
    name: Seq<u8>,
    identifier: [u8; 22],
    spare: SpareType,
) -> bool {
    &&& new_slot.name@ == name_array(name)
    &&& new_slot.name_length == recorded_length(name)
    &&& new_slot.pub_key == vault_key
    &&& new_slot.token_pub_key == mint_key
    &&& new_slot.spare_type == spare.code_spec()
    &&& new_slot.automatic_days_period == old_slot.automatic_days_period
    &&& new_slot.identifier == identifier
    &&& new_slot.earnings_enabled == old_slot.earnings_enabled
}

/// `new_slot` is `old_slot` with a new name, kind and earnings flag.
pub open spec fn is_updated_vault(
    new_slot: VaultAccount,
    old_slot: VaultAccount,
    name: Seq<u8>,
    spare: SpareType,
    earnings_enabled: u8,
) -> bool {
    &&& new_slot.name@ == name_array(name)
    &&& new_slot.name_length == recorded_length(name)
    &&& new_slot.pub_key == old_slot.pub_key
    &&& new_slot.token_pub_key == old_slot.token_pub_key
    &&& new_slot.spare_type == spare.code_spec()
    &&& new_slot.automatic_days_period == old_slot.automatic_days_period
    &&& new_slot.identifier == old_slot.identifier
    &&& new_slot.earnings_enabled == earnings_enabled
}

/// `new_slot` is `old_slot` released: zero name, length, kind and identifier,
/// default address; mint, period and earnings flag kept.
pub open spec fn is_released_vault(new_slot: VaultAccount, old_slot: VaultAccount) -> bool {
    &&& forall|j: int| 0 <= j < 30 ==> new_slot.name@[j] == 0u8
    &&& new_slot.name_length == 0
    &&& new_slot.pub_key == default_key()
    &&& new_slot.token_pub_key == old_slot.token_pub_key
    &&& new_slot.spare_type == 0
    &&& new_slot.automatic_days_period == old_slot.automatic_days_period
    &&& forall|j: int| 0 <= j < 22 ==> new_slot.identifier@[j] == 0u8
    &&& new_slot.earnings_enabled == old_slot.earnings_enabled
}

/// `new` is `old` with only slot `i` changed.
pub open spec fn only_vault_changed(new: Seq<VaultAccount>, old: Seq<VaultAccount>, i: int) -> bool {
    &&& new.len() == old.len()
    &&& forall|j: int| 0 <= j < old.len() && j != i ==> new[j] == old[j]
}

/// `j` is the first slot after `i` whose kind is not zero.
pub open spec fn is_first_spare_after(accounts: Seq<VaultAccount>, i: int, j: int) -> bool {
    &&& i < j < accounts.len()
    &&& accounts[j].spare_type > 0
    &&& forall|k: int| i < k < j ==> accounts[k].spare_type == 0
}

/// Giving slot `i` a nonzero kind clashes with the first later slot of nonzero
/// kind when that slot holds another address.
pub open spec fn spare_conflict(accounts: Seq<VaultAccount>, i: int, spare: SpareType) -> bool {
    &&& spare.code_spec() > 0
    &&& exists|j: int| is_first_spare_after(accounts, i, j) && accounts[j].pub_key != accounts[i].pub_key
}

/// Position of the first slot holding `k`, scanning from the front.
fn find_vault(accounts: &[VaultAccount; 20], k: &Key) -> (r: Option<usize>)
    ensures
        match r {
            Some(i) => first_index(accounts@.map_values(|a: VaultAccount| a.pub_key), *k) == Some(i as int),
            None => first_index(accounts@.map_values(|a: VaultAccount| a.pub_key), *k) is None,
        },
{
    broadcast use vstd::array::group_array_axioms;
    let ghost keys = accounts@.map_values(|a: VaultAccount| a.pub_key);
    let mut i: usize = 0;
    while i < 20
        invariant
            0 <= i <= 20,
            keys == accounts@.map_values(|a: VaultAccount| a.pub_key),
            keys.len() == 20,
            forall|j: int| 0 <= j < i ==> keys[j] != *k,
        decreases 20 - i,
    {
        if keys_equal(&accounts[i].pub_key, k) {
            proof {
                lemma_first_index_is(keys, *k, i as int);
            }
            return Some(i);
        }
        i = i + 1;
    }
    proof {
        if exists|x: int| is_first_index(keys, *k, x) {
            let x = choose|x: int| is_first_index(keys, *k, x);
            assert(keys[x] != *k);
        }
    }
    None
}

/// Position of the first slot after `i` whose kind is not zero.
fn find_spare_after(accounts: &[VaultAccount; 20], i: usize) -> (r: Option<usize>)
    requires
        i < 20,
    ensures
        match r {
            Some(j) => is_first_spare_after(accounts@, i as int, j as int),
            None => forall|k: int| i < k < 20 ==> accounts@[k].spare_type == 0,
        },
{
    broadcast use vstd::array::group_array_axioms;
    let mut j: usize = i + 1;
    while j < 20
        invariant
            i < j <= 20,
            accounts@.len() == 20,
            forall|k: int| i < k < j ==> accounts@[k].spare_type == 0,
        decreases 20 - j,
    {
        if accounts[j].spare_type > 0 {
            return Some(j);
        }
        j = j + 1;
    }
    None
}

/// Opens a vault in the owner's table.
///
/// A blank name is refused first. The signer becomes the table's owner and the
/// first free slot takes the vault, its mint, name, kind and identifier; with
/// no free slot the call is refused. A refused call changes nothing.
pub fn create_vault(
    manager: &mut VaultManager,
    signer: Key,
    vault_key: Key,
    mint_key: Key,
    name: &Vec<u8>,
    identifier: [u8; 22],
    spare_type: SpareType,
) -> (r: Result<(), VaultsAccountsError>)
    ensures
        is_blank(name@) ==> r == Err::<(), _>(VaultsAccountsError::AccountNameEmpty),
        !is_blank(name@) && old(manager).slot_of(default_key()) is None
            ==> r == Err::<(), _>(VaultsAccountsError::MaxAccountsReached),
        r is Err ==> *final(manager) == *old(manager),
        !is_blank(name@) ==> (old(manager).slot_of(default_key()) matches Some(i) ==> {
            &&& r == Ok::<(), VaultsAccountsError>(())
            &&& final(manager).owner == signer
            &&& only_vault_changed(final(manager).accounts@, old(manager).accounts@, i)
            &&& is_filled_vault(
                final(manager).accounts@[i],
                old(manager).accounts@[i],
                vault_key,
                mint_key,
                name@,
                identifier,
                spare_type,
            )
        }),
{
    broadcast use vstd::array::group_array_axioms;
    if crate::names::name_is_empty(name) {
        return Err(VaultsAccountsError::AccountNameEmpty);
    }
    let free = default_pubkey();
    match find_vault(&manager.accounts, &free) {
        Some(index) => {
            let mut slot = manager.accounts[index];
            slot.pub_key = vault_key;
            slot.token_pub_key = mint_key;
            slot.name = crate::names::get_name_array(name);
            slot.name_length = name_length(name);
            slot.spare_type = spare_type.code();
            slot.identifier = identifier;
            manager.owner = signer;
            manager.accounts[index] = slot;
            Ok(())
        },
        None => Err(VaultsAccountsError::MaxAccountsReached),
    }
}

/// Renames a vault and sets its kind and earnings flag.
///
/// A blank name is refused first, then a signer who does not own the table,
/// then an address that no slot holds. The first slot `i` holding the address
/// is the one changed. A nonzero kind is refused when the first slot after `i`
/// with a nonzero kind holds another address; slots before `i` are not looked
/// at. A refused call changes nothing.
pub fn update_vault(
    manager: &mut VaultManager,
    signer: Key,
    vault_key: Key,
    new_name: &Vec<u8>,
    spare_type: SpareType,
    earnings_enabled: u8,
) -> (r: Result<(), VaultsAccountsError>)
    ensures
        is_blank(new_name@) ==> r == Err::<(), _>(VaultsAccountsError::AccountNameEmpty),
        !is_blank(new_name@) && old(manager).owner != signer
            ==> r == Err::<(), _>(VaultsAccountsError::ActionNotAllowed),
        !is_blank(new_name@) && old(manager).owner == signer && old(manager).slot_of(vault_key) is None
            ==> r == Err::<(), _>(VaultsAccountsError::AccountNotFound),
        r is Err ==> *final(manager) == *old(manager),
        !is_blank(new_name@) && old(manager).owner == signer ==> (old(manager).slot_of(vault_key) matches Some(i) ==> {
            &&& spare_conflict(old(manager).accounts@, i, spare_type)
                ==> r == Err::<(), _>(VaultsAccountsError::VaultWithSpareMaxReached)
            &&& !spare_conflict(old(manager).accounts@, i, spare_type) ==> {
                &&& r == Ok::<(), VaultsAccountsError>(())
                &&& final(manager).owner == old(manager).owner
                &&& only_vault_changed(final(manager).accounts@, old(manager).accounts@, i)
                &&& is_updated_vault(
                    final(manager).accounts@[i],
                    old(manager).accounts@[i],
                    new_name@,
                    spare_type,
                    earnings_enabled,
                )
            }
        }),
{
    broadcast use vstd::array::group_array_axioms;
    if crate::names::name_is_empty(new_name) {
        return Err(VaultsAccountsError::AccountNameEmpty);
    }
    if !keys_equal(&manager.owner, &signer) {
        return Err(VaultsAccountsError::ActionNotAllowed);
    }
    match find_vault(&manager.accounts, &vault_key) {
        Some(index) => {
            let code = spare_type.code();
            match find_spare_after(&manager.accounts, index) {
                Some(later) => {
                    let same = keys_equal(&manager.accounts[later].pub_key, &manager.accounts[index].pub_key);
                    if !same && code > 0 {
                        return Err(VaultsAccountsError::VaultWithSpareMaxReached);
                    }
                    proof {
                        assert forall|j: int|
                            is_first_spare_after(manager.accounts@, index as int, j) implies
                            manager.accounts@[j].pub_key == manager.accounts@[index as int].pub_key || code == 0
                        by {
                            if j < later {
                                assert(manager.accounts@[j].spare_type == 0);
                            } else if later < j {
                                assert(manager.accounts@[later as int].spare_type == 0);
                            }
                        }
                    }
                },
                None => {},
            }
            let mut slot = manager.accounts[index];
            slot.name_length = name_length(new_name);
            slot.name = crate::names::get_name_array(new_name);
            slot.spare_type = code;
            slot.earnings_enabled = earnings_enabled;
            manager.accounts[index] = slot;
            Ok(())
        },
        None => Err(VaultsAccountsError::AccountNotFound),
    }
}

/// Releases the slot of a vault before its tokens are paid out and its
/// accounts closed; returns the identifier the slot held, which the closing
/// signatures need.
///
/// A signer who does not own the table is refused, then an address that no
/// slot holds. A refused call changes nothing.
pub fn delete_vault(
    manager: &mut VaultManager,
    signer: Key,
    vault_key: Key,
) -> (r: Result<[u8; 22], VaultsAccountsError>)
    ensures
        old(manager).owner != signer ==> r == Err::<[u8; 22], _>(VaultsAccountsError::ActionNotAllowed),
        old(manager).owner == signer && old(manager).slot_of(vault_key) is None
            ==> r == Err::<[u8; 22], _>(VaultsAccountsError::AccountNotFound),
        r is Err ==> *final(manager) == *old(manager),
        old(manager).owner == signer ==> (old(manager).slot_of(vault_key) matches Some(i) ==> {
            &&& r == Ok::<[u8; 22], VaultsAccountsError>(old(manager).accounts@[i].identifier)
            &&& final(manager).owner == old(manager).owner
            &&& only_vault_changed(final(manager).accounts@, old(manager).accounts@, i)
            &&& is_released_vault(final(manager).accounts@[i], old(manager).accounts@[i])
        }),
{
    broadcast use vstd::array::group_array_axioms;
    if !keys_equal(&manager.owner, &signer) {
        return Err(VaultsAccountsError::ActionNotAllowed);
    }
    match find_vault(&manager.accounts, &vault_key) {
        Some(index) => {
            let mut slot = manager.accounts[index];
            let identifier = slot.identifier;
            slot.name = [0u8; 30];
            slot.spare_type = 0;
            slot.pub_key = default_pubkey();
            slot.name_length = 0;
            slot.identifier = [0u8; 22];
            manager.accounts[index] = slot;
            Ok(identifier)
        },
        None => Err(VaultsAccountsError::AccountNotFound),
    }
}

/// Checks a withdrawal from a vault: only the table's owner may move `amount`
/// out; returns the amount to transfer.
pub fn withdraw_from_vault(
    manager: &VaultManager,
    signer: Key,
    amount: u64,
) -> (r: Result<u64, VaultsAccountsError>)
    ensures
        manager.owner == signer ==> r == Ok::<u64, VaultsAccountsError>(amount),
        manager.owner != signer ==> r == Err::<u64, _>(VaultsAccountsError::ActionNotAllowed),
{
    if keys_equal(&manager.owner, &signer) {
        Ok(amount)
    } else {
        Err(VaultsAccountsError::ActionNotAllowed)
    }
}

/// Checks a withdrawal from the savings protocol: the amount to withdraw when
/// the signer owns the table, nothing otherwise (the call then succeeds
/// without effect).
pub fn withdraw_savings(manager: &VaultManager, signer: Key, amount: u64) -> (r: Option<u64>)
    ensures
        manager.owner == signer ==> r == Some(amount),
        manager.owner != signer ==> r is None,
{
    if keys_equal(&manager.owner, &signer) {
        Some(amount)
    } else {
        None
    }
}

/// A balance read as a signed 64-bit number, as the cast `as i64` does.
pub open spec fn as_signed(v: u64) -> int {
    if v <= i64::MAX {
        v as int
    } else {
        v - 0x1_0000_0000_0000_0000
    }
}

/// The signed difference between the live and the saved balance.
pub open spec fn balance_difference(current: u64, saved: u64) -> int {
    as_signed(current) - as_signed(saved)
}

/// The size of that difference, which is deposited.
pub open spec fn difference_size(current: u64, saved: u64) -> int {
    let d = balance_difference(current, saved);
    if d < 0 { -d } else { d }
}

fn signed_balance(v: u64) -> (r: i64)
    ensures
        r == as_signed(v),
{
    if v <= 0x7fff_ffff_ffff_ffff {
        v as i64
    } else {
        let low = (v - 0x8000_0000_0000_0000) as i64;
        low - 0x7fff_ffff_ffff_ffff - 1
    }
}

/// Deposits into a vault the difference between the user's live balance and
/// the balance saved in the ledger, and saves that difference.
///
/// A signer who does not own the table is refused; then the difference is
/// taken (the subtraction and its absolute value must stay inside `i64`, which
/// holds for every balance below 2^63); then an address that no slot holds is
/// refused. On success the ledger holds the size of the difference and the
/// transfer carries it with the slot's identifier. A refused call leaves the
/// ledger as it was.
pub fn deposit_to_vault_with_diff_balance(
    manager: &VaultManager,
    ledger: &mut LedgerStore,
    signer: Key,
    vault_key: Key,
    user_balance: u64,
) -> (r: Result<VaultTransfer, VaultsAccountsError>)
    requires
        manager.owner == signer ==> i64::MIN < balance_difference(user_balance, old(ledger).amount) <= i64::MAX,
    ensures
        manager.owner != signer ==> r == Err::<VaultTransfer, _>(VaultsAccountsError::ActionNotAllowed),
        manager.owner == signer && manager.slot_of(vault_key) is None
            ==> r == Err::<VaultTransfer, _>(VaultsAccountsError::AccountNotFound),
        r is Err ==> *final(ledger) == *old(ledger),
        manager.owner == signer ==> (manager.slot_of(vault_key) matches Some(i) ==> {
            &&& r matches Ok(t)
            &&& t.amount == difference_size(user_balance, old(ledger).amount)
            &&& t.identifier == manager.accounts@[i].identifier
            &&& final(ledger).amount == t.amount
        }),
{
    broadcast use vstd::array::group_array_axioms;
    if !keys_equal(&manager.owner, &signer) {
        return Err(VaultsAccountsError::ActionNotAllowed);
    }
    let saved = ledger.amount;
    let difference: i64 = signed_balance(user_balance) - signed_balance(saved);
    let size: i64 = if difference < 0 { -difference } else { difference };
    match find_vault(&manager.accounts, &vault_key) {
        Some(index) => {
            let amount = size as u64;
            ledger.amount = amount;
            Ok(VaultTransfer { amount, identifier: manager.accounts[index].identifier })
        },
        None => Err(VaultsAccountsError::AccountNotFound),
    }
}

/// Pays out of a vault what it holds above the balance saved in the ledger.
///
/// A signer who does not own the table is refused. When no slot holds the
/// address the call succeeds with nothing to move. Otherwise the transfer is
/// the live vault balance minus the saved one (which must not exceed it), with
/// the slot's identifier.
pub fn withdraw_from_diff_balance(
    manager: &VaultManager,
    signer: Key,
    vault_key: Key,
    vault_balance: u64,
    saved_balance: u64,
) -> (r: Result<Option<VaultTransfer>, VaultsAccountsError>)
    requires
        manager.owner == signer && manager.slot_of(vault_key) is Some ==> saved_balance <= vault_balance,
    ensures
        manager.owner != signer ==> r == Err::<Option<VaultTransfer>, _>(VaultsAccountsError::ActionNotAllowed),
        manager.owner == signer && manager.slot_of(vault_key) is None
            ==> r == Ok::<Option<VaultTransfer>, VaultsAccountsError>(None),
        manager.owner == signer ==> (manager.slot_of(vault_key) matches Some(i) ==> {
            &&& r matches Ok(Some(t))
            &&& t.amount == vault_balance - saved_balance
            &&& t.identifier == manager.accounts@[i].identifier
        }),
{
    broadcast use vstd::array::group_array_axioms;
    if !keys_equal(&manager.owner, &signer) {
        return Err(VaultsAccountsError::ActionNotAllowed);
    }
    match find_vault(&manager.accounts, &vault_key) {
        Some(index) => Ok(
            Some(VaultTransfer { amount: vault_balance - saved_balance, identifier: manager.accounts[index].identifier }),
        ),
        None => Ok(None),
    }
}

/// Checks a deposit into the savings protocol.
///
/// When the signer does not own the table nothing happens and the call
/// succeeds. Otherwise an address that no slot holds is refused, then a vault
/// whose earnings flag is not 1. A vault that passes asks to create the
/// partner-side user account when that account has no lamports.
pub fn deposit_liquidity(
    manager: &VaultManager,
    signer: Key,
    vault_key: Key,
    user_lamports: u64,
) -> (r: Result<LiquidityStep, VaultsAccountsError>)
    ensures
        manager.owner != signer ==> r == Ok::<LiquidityStep, VaultsAccountsError>(LiquidityStep::Skip),
        manager.owner == signer && manager.slot_of(vault_key) is None
            ==> r == Err::<LiquidityStep, _>(VaultsAccountsError::AccountNotFound),
        manager.owner == signer ==> (manager.slot_of(vault_key) matches Some(i) ==> {
            &&& manager.accounts@[i].earnings_enabled != 1
                ==> r == Err::<LiquidityStep, _>(VaultsAccountsError::EarningsNotEnabled)
            &&& manager.accounts@[i].earnings_enabled == 1 && user_lamports == 0
                ==> r == Ok::<LiquidityStep, VaultsAccountsError>(LiquidityStep::InitializeUser)
            &&& manager.accounts@[i].earnings_enabled == 1 && user_lamports != 0
                ==> r == Ok::<LiquidityStep, VaultsAccountsError>(LiquidityStep::UserReady)
        }),
{
    broadcast use vstd::array::group_array_axioms;
    if !keys_equal(&manager.owner, &signer) {
        return Ok(LiquidityStep::Skip);
    }
    match find_vault(&manager.accounts, &vault_key) {
        Some(index) => {
            if manager.accounts[index].earnings_enabled == 1 {
                if user_lamports == 0 {
                    Ok(LiquidityStep::InitializeUser)
                } else {
                    Ok(LiquidityStep::UserReady)
                }
            } else {
                Err(VaultsAccountsError::EarningsNotEnabled)
            }
        },
        None => Err(VaultsAccountsError::AccountNotFound),
    }
}

/// Checks a withdrawal of liquidity from the partner protocol: the amount and
/// the slot's identifier when the signer owns the table and a slot holds the
/// address; nothing otherwise (the call then succeeds without effect).
pub fn withdraw_liquidity(
    manager: &VaultManager,
    signer: Key,
    vault_key: Key,
    amount: u64,
) -> (r: Option<VaultTransfer>)
    ensures
        manager.owner != signer ==> r is None,
        manager.owner == signer && manager.slot_of(vault_key) is None ==> r is None,
        manager.owner == signer ==> (manager.slot_of(vault_key) matches Some(i) ==> {
            &&& r matches Some(t)
            &&& t.amount == amount
            &&& t.identifier == manager.accounts@[i].identifier
        }),
{
    broadcast use vstd::array::group_array_axioms;
    if !keys_equal(&manager.owner, &signer) {
        return None;
    }
    match find_vault(&manager.accounts, &vault_key) {
        Some(index) => Some(VaultTransfer { amount, identifier: manager.accounts[index].identifier }),
        None => None,
    }
}

} // verus!
