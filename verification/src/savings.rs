use vstd::prelude::*;
use crate::key::{Key, default_key, default_pubkey, keys_equal, first_index, is_first_index, lemma_first_index_is};
use crate::names::{name_array, is_blank, recorded_length, get_name_array, name_is_empty, name_length};

verus! {

/// How often a vault rounds up purchases into savings.
#[derive(Clone, Copy, Debug, PartialEq, Eq, Structural)]
pub enum SpareType {
    NONE,
    SPARE,
    SPARE2X,
    SPARE3X,
}

impl SpareType {
    /// The byte a slot stores for this kind.
    pub open spec fn code_spec(self) -> u8 {
        match self {
            SpareType::NONE => 0u8,
            SpareType::SPARE => 1u8,
            SpareType::SPARE2X => 2u8,
            SpareType::SPARE3X => 3u8,
        }
    }

    /// The byte a slot stores for this kind.
    pub fn code(&self) -> (c: u8)
        ensures
            c == self.code_spec(),
    {
        match self {
            SpareType::NONE => 0,
            SpareType::SPARE => 1,
            SpareType::SPARE2X => 2,
            SpareType::SPARE3X => 3,
        }
    }
}

/// Refusals of the savings program.
#[derive(Clone, Copy, Debug, PartialEq, Eq, Structural)]
pub enum VaultsAccountsError {
    AlreadyInitialized,
    MaxAccountsReached,
    AccountNameEmpty,
    AccountNotFound,
    ActionNotAllowed,
}

/// One named savings account in an owner's table.
#[derive(Clone, Copy, Debug)]
pub struct SavingAccount {
    pub name: [u8; 30],
    pub name_length: u8,
    pub pub_key: Key,
    pub spare_type: u8,
    pub automatic_days_period: u8,
    pub identifier: [u8; 22],
}

impl SavingAccount {
    pub const SIZE: usize = 30 + 1 + 32 + 1 + 1 + 22;
}

/// The table of savings accounts of one owner: twenty slots, a slot whose
/// address is the default key being free.
#[derive(Clone, Copy, Debug)]
pub struct UserSavingsManager {
    pub owner: Key,
    pub accounts: [SavingAccount; 20],
}

impl UserSavingsManager {
    pub const MAX_ACCOUNTS: usize = 20;
    pub const MAX_SIZE_ACCOUNTS_ARRAY: usize = SavingAccount::SIZE * UserSavingsManager::MAX_ACCOUNTS;
    pub const LEN: usize = 8 + 32 + UserSavingsManager::MAX_SIZE_ACCOUNTS_ARRAY;

    /// The addresses of the twenty slots, in order.
    pub open spec fn keys(self) -> Seq<Key> {
        self.accounts@.map_values(|a: SavingAccount| a.pub_key)
    }
}

/// `new_slot` is `old_slot` taken for a new savings account: it holds the
/// vault's address, the name, its length byte, the kind and the identifier, and
/// keeps its period.
pub open spec fn is_filled_saving(
    new_slot: SavingAccount,
    old_slot: SavingAccount,
    vault_key: Key,
    name: Seq<u8>,
    identifier: [u8; 22],
    spare: SpareType,
) -> bool {
    &&& new_slot.name@ == name_array(name)
    &&& new_slot.name_length == recorded_length(name)
    &&& new_slot.pub_key == vault_key
    &&& new_slot.spare_type == spare.code_spec()
    &&& new_slot.automatic_days_period == old_slot.automatic_days_period
    &&& new_slot.identifier == identifier
}

/// `new_slot` is `old_slot` renamed: new name, length byte and kind, the rest kept.
pub open spec fn is_renamed_saving(
    new_slot: SavingAccount,
    old_slot: SavingAccount,
    name: Seq<u8>,
    spare: SpareType,
) -> bool {
    &&& new_slot.name@ == name_array(name)
    &&& new_slot.name_length == recorded_length(name)
    &&& new_slot.pub_key == old_slot.pub_key
    &&& new_slot.spare_type == spare.code_spec()
    &&& new_slot.automatic_days_period == old_slot.automatic_days_period
    &&& new_slot.identifier == old_slot.identifier
}

/// `new_slot` is `old_slot` released: zero name, length and kind, default
/// address, the period and identifier kept.
pub open spec fn is_released_saving(new_slot: SavingAccount, old_slot: SavingAccount) -> bool {
    &&& forall|j: int| 0 <= j < 30 ==> new_slot.name@[j] == 0u8
    &&& new_slot.name_length == 0
    &&& new_slot.pub_key == default_key()
    &&& new_slot.spare_type == 0
    &&& new_slot.automatic_days_period == old_slot.automatic_days_period
    &&& new_slot.identifier == old_slot.identifier
}

/// `new` is `old` with only slot `i` changed.
pub open spec fn only_slot_changed(new: Seq<SavingAccount>, old: Seq<SavingAccount>, i: int) -> bool {
    &&& new.len() == old.len()
    &&& forall|j: int| 0 <= j < old.len() && j != i ==> new[j] == old[j]
}

/// Position of the first slot holding `k`, scanning from the front.
fn find_slot(accounts: &[SavingAccount; 20], k: &Key) -> (r: Option<usize>)
    ensures
        match r {
            Some(i) => first_index(accounts@.map_values(|a: SavingAccount| a.pub_key), *k) == Some(i as int),
            None => first_index(accounts@.map_values(|a: SavingAccount| a.pub_key), *k) is None,
        },
{
    broadcast use vstd::array::group_array_axioms;
    let ghost keys = accounts@.map_values(|a: SavingAccount| a.pub_key);
    let mut i: usize = 0;
    while i < 20
        invariant
            0 <= i <= 20,
            keys == accounts@.map_values(|a: SavingAccount| a.pub_key),
            keys.len() == 20,
            forall|j: int| 0 <= j < i ==> keys[j] != *k,
        decreases 20 - i,
    {
        if keys_equal(&accounts[i].pub_key, k) {
            proof {
                lemma_first_index_is(keys, *k, i as int);
            }
            return Some(i);
        }
        i = i + 1;
    }
    proof {
        if exists|x: int| is_first_index(keys, *k, x) {
            let x = choose|x: int| is_first_index(keys, *k, x);
            assert(keys[x] != *k);
        }
    }
    None
}

/// Opens a savings account in the owner's table.
///
/// A blank name is refused first. The table must have been created by this
/// call (`is_new`); an existing table is refused. The signer becomes the
/// table's owner and the first free slot takes the account; with no free slot
/// the call is refused. A refused call changes nothing.
pub fn create_savings_vault(
    manager: &mut UserSavingsManager,
    is_new: bool,
    signer: Key,
    vault_key: Key,
    name: &Vec<u8>,
    identifier: [u8; 22],
    spare_type: SpareType,
) -> (r: Result<(), VaultsAccountsError>)
    ensures
        is_blank(name@) ==> r == Err::<(), _>(VaultsAccountsError::AccountNameEmpty),
        !is_blank(name@) && !is_new ==> r == Err::<(), _>(VaultsAccountsError::AlreadyInitialized),
        !is_blank(name@) && is_new && first_index(old(manager).keys(), default_key()) is None
            ==> r == Err::<(), _>(VaultsAccountsError::MaxAccountsReached),
        r is Err ==> *final(manager) == *old(manager),
        !is_blank(name@) && is_new ==> (first_index(old(manager).keys(), default_key()) matches Some(i)
            ==> {
            &&& r == Ok::<(), VaultsAccountsError>(())
            &&& final(manager).owner == signer
            &&& only_slot_changed(final(manager).accounts@, old(manager).accounts@, i)
            &&& is_filled_saving(
                final(manager).accounts@[i],
                old(manager).accounts@[i],
                vault_key,
                name@,
                identifier,
                spare_type,
            )
        }),
{
    broadcast use vstd::array::group_array_axioms;
    if name_is_empty(name) {
        return Err(VaultsAccountsError::AccountNameEmpty);
    }
    if !is_new {
        return Err(VaultsAccountsError::AlreadyInitialized);
    }
    let free = default_pubkey();
    match find_slot(&manager.accounts, &free) {
        Some(index) => {
            let mut slot = manager.accounts[index];
            slot.pub_key = vault_key;
            slot.name = get_name_array(name);
            slot.name_length = name_length(name);
            slot.spare_type = spare_type.code();
            slot.identifier = identifier;
            manager.owner = signer;
            manager.accounts[index] = slot;
            Ok(())
        },
        None => Err(VaultsAccountsError::MaxAccountsReached),
    }
}

/// Renames a savings account and sets its kind.
///
/// A blank name is refused first, then a signer who does not own the table,
/// then an address that no slot holds. The first slot holding the address is
/// changed. A refused call changes nothing.
pub fn update_savings_vault(
    manager: &mut UserSavingsManager,
    signer: Key,
    vault_key: Key,
    new_name: &Vec<u8>,
    spare_type: SpareType,
) -> (r: Result<(), VaultsAccountsError>)
    ensures
        is_blank(new_name@) ==> r == Err::<(), _>(VaultsAccountsError::AccountNameEmpty),
        !is_blank(new_name@) && old(manager).owner != signer
            ==> r == Err::<(), _>(VaultsAccountsError::ActionNotAllowed),
        !is_blank(new_name@) && old(manager).owner == signer
            && first_index(old(manager).keys(), vault_key) is None
            ==> r == Err::<(), _>(VaultsAccountsError::AccountNotFound),
        r is Err ==> *final(manager) == *old(manager),
        !is_blank(new_name@) && old(manager).owner == signer
            ==> (first_index(old(manager).keys(), vault_key) matches Some(i) ==> {
            &&& r == Ok::<(), VaultsAccountsError>(())
            &&& final(manager).owner == old(manager).owner
            &&& only_slot_changed(final(manager).accounts@, old(manager).accounts@, i)
            &&& is_renamed_saving(final(manager).accounts@[i], old(manager).accounts@[i], new_name@, spare_type)
        }),
{
    broadcast use vstd::array::group_array_axioms;
    if name_is_empty(new_name) {
        return Err(VaultsAccountsError::AccountNameEmpty);
    }
    if !keys_equal(&manager.owner, &signer) {
        return Err(VaultsAccountsError::ActionNotAllowed);
    }
    match find_slot(&manager.accounts, &vault_key) {
        Some(index) => {
            let mut slot = manager.accounts[index];
            slot.name = get_name_array(new_name);
            slot.name_length = name_length(new_name);
            slot.spare_type = spare_type.code();
            manager.accounts[index] = slot;
            Ok(())
        },
        None => Err(VaultsAccountsError::AccountNotFound),
    }
}

/// Releases the slot of a savings account before the account is closed.
///
/// A signer who does not own the table is refused, then an address that no
/// slot holds. The first slot holding the address gets a zero name, length and
/// kind and the default address; its identifier stays. A refused call changes
/// nothing.
pub fn delete_savings_vault(
    manager: &mut UserSavingsManager,
    signer: Key,
    vault_key: Key,
) -> (r: Result<(), VaultsAccountsError>)
    ensures
        old(manager).owner != signer ==> r == Err::<(), _>(VaultsAccountsError::ActionNotAllowed),
        old(manager).owner == signer && first_index(old(manager).keys(), vault_key) is None
            ==> r == Err::<(), _>(VaultsAccountsError::AccountNotFound),
        r is Err ==> *final(manager) == *old(manager),
        old(manager).owner == signer ==> (first_index(old(manager).keys(), vault_key) matches Some(i)
            ==> {
            &&& r == Ok::<(), VaultsAccountsError>(())
            &&& final(manager).owner == old(manager).owner
            &&& only_slot_changed(final(manager).accounts@, old(manager).accounts@, i)
            &&& is_released_saving(final(manager).accounts@[i], old(manager).accounts@[i])
        }),
{
    broadcast use vstd::array::group_array_axioms;
    if !keys_equal(&manager.owner, &signer) {
        return Err(VaultsAccountsError::ActionNotAllowed);
    }
    match find_slot(&manager.accounts, &vault_key) {
        Some(index) => {
            let mut slot = manager.accounts[index];
            slot.name = [0u8; 30];
            slot.spare_type = 0;
            slot.pub_key = default_pubkey();
            slot.name_length = 0;
            manager.accounts[index] = slot;
            Ok(())
        },
        None => Err(VaultsAccountsError::AccountNotFound),
    }
}

} // verus!
