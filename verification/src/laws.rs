use vstd::prelude::*;
use crate::key::{Key, default_key, first_index, is_first_index, lemma_first_index_is, lemma_first_index_exists};
use crate::vaults::{
    VaultManager, SpareType, only_vault_changed, is_filled_vault, is_updated_vault, is_released_vault,
    balance_difference, difference_size,
};
use crate::savings::{UserSavingsManager, only_slot_changed, is_renamed_saving, is_released_saving};
use crate::fees::{fee_share, performance_fee, yield_earned, FEE_DENOMINATOR};
use crate::closing::ClosedLamports;
use crate::savings::{is_filled_saving, SavingAccount};
use crate::vaults::{VaultAccount, spare_conflict};

verus! {

/// A vault opened where none held its address is the one later lookups find,
/// and the signer who opened it owns the table.
pub proof fn lemma_created_vault_is_found(
    pre: VaultManager,
    post: VaultManager,
    i: int,
    signer: Key,
    vault_key: Key,
    mint_key: Key,
    name: Seq<u8>,
    identifier: [u8; 22],
    spare: SpareType,
)
    requires
        pre.slot_of(default_key()) == Some(i),
        post.owner == signer,
        only_vault_changed(post.accounts@, pre.accounts@, i),
        is_filled_vault(post.accounts@[i], pre.accounts@[i], vault_key, mint_key, name, identifier, spare),
        !pre.keys().contains(vault_key),
    ensures
        post.slot_of(vault_key) == Some(i),
        post.owner == signer,
{
    broadcast use vstd::array::group_array_axioms;
    let keys = post.keys();
    assert(is_first_index(pre.keys(), default_key(), i)) by {
        lemma_first_index_exists(pre.keys(), default_key());
    }
    assert forall|j: int| 0 <= j < i implies keys[j] != vault_key by {
        assert(keys[j] == pre.keys()[j]);
    }
    lemma_first_index_is(keys, vault_key, i);
}

/// After a vault's slot is released the table has a free slot, so a create
/// with a name that is not blank no longer fails for want of room.
pub proof fn lemma_release_makes_room(pre: VaultManager, post: VaultManager, i: int)
    requires
        0 <= i < 20,
        only_vault_changed(post.accounts@, pre.accounts@, i),
        is_released_vault(post.accounts@[i], pre.accounts@[i]),
    ensures
        post.slot_of(default_key()) is Some,
{
    broadcast use vstd::array::group_array_axioms;
    assert(post.keys()[i] == default_key());
    lemma_first_index_exists(post.keys(), default_key());
}

/// A released address that no other slot held is found no more.
pub proof fn lemma_released_vault_is_gone(pre: VaultManager, post: VaultManager, i: int, vault_key: Key)
    requires
        0 <= i < 20,
        vault_key != default_key(),
        only_vault_changed(post.accounts@, pre.accounts@, i),
        is_released_vault(post.accounts@[i], pre.accounts@[i]),
        forall|j: int| 0 <= j < 20 && j != i ==> pre.keys()[j] != vault_key,
    ensures
        post.slot_of(vault_key) is None,
{
    broadcast use vstd::array::group_array_axioms;
    assert forall|j: int| 0 <= j < post.keys().len() implies post.keys()[j] != vault_key by {
        if j != i {
            assert(post.keys()[j] == pre.keys()[j]);
        }
    }
    lemma_first_index_exists(post.keys(), vault_key);
}

/// Renaming a vault moves no address: every lookup finds the slot it found
/// before, and the owner stays.
pub proof fn lemma_update_keeps_lookups(
    pre: VaultManager,
    post: VaultManager,
    i: int,
    name: Seq<u8>,
    spare: SpareType,
    earnings_enabled: u8,
    k: Key,
)
    requires
        0 <= i < 20,
        post.owner == pre.owner,
        only_vault_changed(post.accounts@, pre.accounts@, i),
        is_updated_vault(post.accounts@[i], pre.accounts@[i], name, spare, earnings_enabled),
    ensures
        post.keys() == pre.keys(),
        post.slot_of(k) == pre.slot_of(k),
{
    broadcast use vstd::array::group_array_axioms;
    assert(post.keys() =~= pre.keys());
}

/// Renaming a savings account moves no address.
pub proof fn lemma_savings_update_keeps_lookups(
    pre: UserSavingsManager,
    post: UserSavingsManager,
    i: int,
    name: Seq<u8>,
    spare: SpareType,
    k: Key,
)
    requires
        0 <= i < 20,
        only_slot_changed(post.accounts@, pre.accounts@, i),
        is_renamed_saving(post.accounts@[i], pre.accounts@[i], name, spare),
    ensures
        post.keys() == pre.keys(),
        first_index(post.keys(), k) == first_index(pre.keys(), k),
{
    broadcast use vstd::array::group_array_axioms;
    assert(post.keys() =~= pre.keys());
}

/// After a savings account's slot is released the table has a free slot.
pub proof fn lemma_savings_release_makes_room(pre: UserSavingsManager, post: UserSavingsManager, i: int)
    requires
        0 <= i < 20,
        only_slot_changed(post.accounts@, pre.accounts@, i),
        is_released_saving(post.accounts@[i], pre.accounts@[i]),
    ensures
        first_index(post.keys(), default_key()) is Some,
{
    broadcast use vstd::array::group_array_axioms;
    assert(post.keys()[i] == default_key());
    lemma_first_index_exists(post.keys(), default_key());
}

/// Saving a balance and then depositing from a balance `delta` above it moves
/// exactly `delta`, for balances below 2^63; the difference is symmetric.
pub proof fn lemma_deposit_moves_growth(saved: u64, delta: u64)
    requires
        saved + delta <= i64::MAX,
    ensures
        difference_size((saved + delta) as u64, saved) == delta,
        difference_size(saved, (saved + delta) as u64) == delta,
{
}

/// The deposited size does not depend on which balance is the larger.
pub proof fn lemma_difference_size_symmetric(a: u64, b: u64)
    ensures
        difference_size(a, b) == difference_size(b, a),
        balance_difference(a, b) == -balance_difference(b, a),
{
}

/// A user settled at a price owes the partner nothing until the price rises.
pub proof fn lemma_no_fee_without_rise(lp_token: u64, settled_price: u64, price: u64, fee_ratio: u64)
    requires
        price <= settled_price,
    ensures
        fee_share(lp_token, settled_price, price, fee_ratio) == Some(0u64),
{
}

/// With a fee ratio of at most 100%, the partner's share never exceeds the
/// vault's performance fee.
pub proof fn lemma_share_within_performance_fee(lp_token: u64, from_price: u64, to_price: u64, fee_ratio: u64)
    requires
        from_price < to_price,
        fee_ratio <= FEE_DENOMINATOR,
    ensures
        fee_share(lp_token, from_price, to_price, fee_ratio) matches Some(f)
            ==> f <= performance_fee(yield_earned(lp_token, from_price, to_price)),
{
    crate::fees::lemma_fee_steps_fit(lp_token, from_price, to_price);
    let p = performance_fee(yield_earned(lp_token, from_price, to_price));
    let s = p * fee_ratio;
    assert(s / 10000 <= p) by (nonlinear_arith)
        requires
            0 <= p,
            0 <= fee_ratio <= 10000,
            s == p * fee_ratio,
    ;
}

/// A savings account opened where none held its address is the one later
/// lookups find.
pub proof fn lemma_created_saving_is_found(
    pre: UserSavingsManager,
    post: UserSavingsManager,
    i: int,
    vault_key: Key,
    name: Seq<u8>,
    identifier: [u8; 22],
    spare: SpareType,
)
    requires
        first_index(pre.keys(), default_key()) == Some(i),
        only_slot_changed(post.accounts@, pre.accounts@, i),
        is_filled_saving(post.accounts@[i], pre.accounts@[i], vault_key, name, identifier, spare),
        !pre.keys().contains(vault_key),
    ensures
        first_index(post.keys(), vault_key) == Some(i),
{
    broadcast use vstd::array::group_array_axioms;
    let keys = post.keys();
    assert(is_first_index(pre.keys(), default_key(), i)) by {
        lemma_first_index_exists(pre.keys(), default_key());
    }
    assert forall|j: int| 0 <= j < i implies keys[j] != vault_key by {
        assert(keys[j] == pre.keys()[j]);
    }
    lemma_first_index_is(keys, vault_key, i);
}

/// Saving a vault's balance and then paying out what it holds above it moves
/// exactly what the vault gained since.
pub proof fn lemma_withdraw_moves_growth(saved: u64, gained: u64)
    requires
        saved + gained <= u64::MAX,
    ensures
        ((saved + gained) as u64) - saved == gained,
{
}

/// Closing an account moves its lamports and creates none.
pub proof fn lemma_close_conserves_lamports(destination: u64, data: u64, closed: ClosedLamports)
    requires
        destination + data <= u64::MAX,
        closed == (ClosedLamports { destination: (destination + data) as u64, data_account: 0 }),
    ensures
        closed.destination + closed.data_account == destination + data,
{
}

/// The byte a slot stores for a round-up kind: NONE 0, SPARE 1, SPARE2X 2,
/// SPARE3X 3.
pub open spec fn kind_byte(spare: SpareType) -> u8 {
    match spare {
        SpareType::NONE => 0u8,
        SpareType::SPARE => 1u8,
        SpareType::SPARE2X => 2u8,
        SpareType::SPARE3X => 3u8,
    }
}

/// Each round-up kind has its own byte.
pub proof fn lemma_spare_codes(spare: SpareType)
    ensures
        spare.code_spec() == kind_byte(spare),
        SpareType::NONE.code_spec() == 0u8,
        SpareType::SPARE.code_spec() == 1u8,
        SpareType::SPARE2X.code_spec() == 2u8,
        SpareType::SPARE3X.code_spec() == 3u8,
{
}

/// A created vault stores the requested kind's own byte, whatever the slot
/// held before, and the requested address, mint and identifier.
pub proof fn lemma_created_vault_stores_kind(
    new_slot: VaultAccount,
    old_slot: VaultAccount,
    vault_key: Key,
    mint_key: Key,
    name: Seq<u8>,
    identifier: [u8; 22],
    spare: SpareType,
)
    requires
        is_filled_vault(new_slot, old_slot, vault_key, mint_key, name, identifier, spare),
    ensures
        new_slot.spare_type == kind_byte(spare),
        spare == SpareType::SPARE2X ==> new_slot.spare_type == 2u8,
        spare == SpareType::SPARE3X ==> new_slot.spare_type == 3u8,
        new_slot.pub_key == vault_key,
        new_slot.token_pub_key == mint_key,
        new_slot.identifier == identifier,
        new_slot.name_length as int == name.len() % 256,
        forall|k: int| 0 <= k < 30 && k < name.len() ==> new_slot.name@[k] == name[k],
        forall|k: int| name.len() <= k < 30 ==> new_slot.name@[k] == 0u8,
        new_slot.automatic_days_period == old_slot.automatic_days_period,
        new_slot.earnings_enabled == old_slot.earnings_enabled,
{
}

/// A created savings account stores the requested kind's own byte.
pub proof fn lemma_created_saving_stores_kind(
    new_slot: SavingAccount,
    old_slot: SavingAccount,
    vault_key: Key,
    name: Seq<u8>,
    identifier: [u8; 22],
    spare: SpareType,
)
    requires
        is_filled_saving(new_slot, old_slot, vault_key, name, identifier, spare),
    ensures
        new_slot.spare_type == kind_byte(spare),
        new_slot.pub_key == vault_key,
        new_slot.identifier == identifier,
        new_slot.name_length as int == name.len() % 256,
        forall|k: int| 0 <= k < 30 && k < name.len() ==> new_slot.name@[k] == name[k],
        forall|k: int| name.len() <= k < 30 ==> new_slot.name@[k] == 0u8,
        new_slot.automatic_days_period == old_slot.automatic_days_period,
{
}

/// A renamed savings account takes the requested kind's byte whatever its old
/// kind was: renaming with NONE turns round-ups off.
pub proof fn lemma_savings_update_sets_kind(
    new_slot: SavingAccount,
    old_slot: SavingAccount,
    name: Seq<u8>,
    spare: SpareType,
)
    requires
        is_renamed_saving(new_slot, old_slot, name, spare),
    ensures
        new_slot.spare_type == kind_byte(spare),
        spare == SpareType::NONE ==> new_slot.spare_type == 0u8,
        new_slot.pub_key == old_slot.pub_key,
        new_slot.identifier == old_slot.identifier,
        new_slot.name_length as int == name.len() % 256,
        forall|k: int| 0 <= k < 30 && k < name.len() ==> new_slot.name@[k] == name[k],
        forall|k: int| name.len() <= k < 30 ==> new_slot.name@[k] == 0u8,
{
}

/// An updated vault takes the requested kind's byte and exactly the earnings
/// flag passed, whatever it held before: passing 0 turns earnings off.
pub proof fn lemma_vault_update_sets_kind_and_flag(
    new_slot: VaultAccount,
    old_slot: VaultAccount,
    name: Seq<u8>,
    spare: SpareType,
    earnings_enabled: u8,
)
    requires
        is_updated_vault(new_slot, old_slot, name, spare, earnings_enabled),
    ensures
        new_slot.spare_type == kind_byte(spare),
        new_slot.earnings_enabled == earnings_enabled,
        earnings_enabled == 0 ==> new_slot.earnings_enabled == 0u8,
        new_slot.pub_key == old_slot.pub_key,
        new_slot.token_pub_key == old_slot.token_pub_key,
        new_slot.identifier == old_slot.identifier,
        new_slot.name_length as int == name.len() % 256,
        forall|k: int| 0 <= k < 30 && k < name.len() ==> new_slot.name@[k] == name[k],
        forall|k: int| name.len() <= k < 30 ==> new_slot.name@[k] == 0u8,
{
}

/// An operation on slot `i` leaves every other slot as it was.
pub proof fn lemma_other_slots_kept(new: Seq<VaultAccount>, old: Seq<VaultAccount>, i: int, j: int)
    requires
        only_vault_changed(new, old, i),
        0 <= j < old.len(),
        j != i,
    ensures
        new[j] == old[j],
        new.len() == old.len(),
{
}

/// An operation on savings slot `i` leaves every other slot as it was.
pub proof fn lemma_other_savings_slots_kept(new: Seq<SavingAccount>, old: Seq<SavingAccount>, i: int, j: int)
    requires
        only_slot_changed(new, old, i),
        0 <= j < old.len(),
        j != i,
    ensures
        new[j] == old[j],
        new.len() == old.len(),
{
}

/// Asking slot `i` for a nonzero kind clashes exactly when the first later
/// slot of nonzero kind, whatever that kind, holds another address.
pub proof fn lemma_spare_conflict_exactly(accounts: Seq<VaultAccount>, i: int, spare: SpareType)
    requires
        0 <= i < accounts.len(),
    ensures
        (forall|j: int|
            #![trigger accounts[j]]
            i < j < accounts.len() && accounts[j].spare_type > 0
                && (forall|k: int| i < k < j ==> accounts[k].spare_type == 0)
                && accounts[j].pub_key != accounts[i].pub_key
                && spare != SpareType::NONE
                ==> spare_conflict(accounts, i, spare)),
        spare == SpareType::NONE ==> !spare_conflict(accounts, i, spare),
        (forall|j: int| i < j < accounts.len() ==> accounts[j].spare_type == 0)
            ==> !spare_conflict(accounts, i, spare),
{
    assert forall|j: int|
        #![trigger accounts[j]]
        i < j < accounts.len() && accounts[j].spare_type > 0
            && (forall|k: int| i < k < j ==> accounts[k].spare_type == 0)
            && accounts[j].pub_key != accounts[i].pub_key
            && spare != SpareType::NONE
        implies spare_conflict(accounts, i, spare) by {
        assert(crate::vaults::is_first_spare_after(accounts, i, j));
    }
}

/// For a rising price the partner's share is the performance fee times the
/// fee ratio over 10000, rounded down, where the performance fee is 5% of
/// the yield `lp * rise / 10^12`, each step rounded down: the share times
/// 10000 is at most that product and less than 10000 below it. The share is
/// given exactly when the product fits in `u128` and the share in `u64`.
pub proof fn lemma_share_is_ratio_of_fee(lp_token: u64, from_price: u64, to_price: u64, fee_ratio: u64)
    requires
        from_price < to_price,
    ensures
        ({
            let p: int = ((lp_token * (to_price - from_price)) / 1_000_000_000_000 * 500) / 10000;
            &&& fee_share(lp_token, from_price, to_price, fee_ratio) matches Some(f)
                ==> f * 10000 <= p * fee_ratio < f * 10000 + 10000
            &&& fee_share(lp_token, from_price, to_price, fee_ratio) is Some
                <==> (p * fee_ratio <= u128::MAX && (p * fee_ratio) / 10000 <= u64::MAX)
        }),
{
    crate::fees::lemma_fee_steps_fit(lp_token, from_price, to_price);
    let p: int = ((lp_token * (to_price - from_price)) / 1_000_000_000_000 * 500) / 10000;
    assert(p == performance_fee(yield_earned(lp_token, from_price, to_price)));
    let s: int = p * fee_ratio;
    assert(0 <= s) by (nonlinear_arith)
        requires
            0 <= p,
            0 <= fee_ratio,
            s == p * fee_ratio,
    ;
    let f: int = s / 10000;
    assert(f * 10000 <= s < f * 10000 + 10000) by (nonlinear_arith)
        requires
            0 <= s,
            f == s / 10000,
    ;
}

} // verus!
