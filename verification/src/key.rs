use vstd::prelude::*;

verus! {

/// The 32 bytes of an account address.
pub type Key = [u8; 32];

/// The address that marks an empty slot: the system program, all bytes zero.
pub open spec fn default_key() -> Key {
    spec_fill_key(0u8)
}

pub open spec fn spec_fill_key(b: u8) -> Key {
    vstd::array::spec_array_fill_for_copy_type::<u8, 32>(b)
}

/// The empty-slot address, as a value.
pub fn default_pubkey() -> (k: Key)
    ensures
        k == default_key(),
        forall|i: int| 0 <= i < 32 ==> k@[i] == 0u8,
{
    broadcast use vstd::array::group_array_axioms;
    [0u8; 32]
}

/// Byte-wise comparison of two addresses.
pub fn keys_equal(a: &Key, b: &Key) -> (r: bool)
    ensures
        r == (*a == *b),
{
    broadcast use vstd::array::group_array_axioms;
    let mut i: usize = 0;
    while i < 32
        invariant
            0 <= i <= 32,
            forall|j: int| 0 <= j < i ==> a@[j] == b@[j],
        decreases 32 - i,
    {
        if a[i] != b[i] {
            assert(a@[i as int] != b@[i as int]);
            return false;
        }
        i = i + 1;
    }
    assert(a@ =~= b@);
    assert(*a =~= *b);
    true
}

/// `i` is the first position of `k` in `keys`.
pub open spec fn is_first_index(keys: Seq<Key>, k: Key, i: int) -> bool {
    &&& 0 <= i < keys.len()
    &&& keys[i] == k
    &&& forall|j: int| 0 <= j < i ==> keys[j] != k
}

/// The first position of `k` in `keys`, if it occurs.
pub open spec fn first_index(keys: Seq<Key>, k: Key) -> Option<int> {
    if exists|i: int| is_first_index(keys, k, i) {
        Some(choose|i: int| is_first_index(keys, k, i))
    } else {
        None
    }
}

/// The first position is unique, so `first_index` names the position a scan finds.
pub proof fn lemma_first_index_is(keys: Seq<Key>, k: Key, i: int)
    requires
        is_first_index(keys, k, i),
    ensures
        first_index(keys, k) == Some(i),
{
    let c = choose|x: int| is_first_index(keys, k, x);
    assert(is_first_index(keys, k, c));
    if c < i {
        assert(keys[c] != k);
    } else if i < c {
        assert(keys[i] != k);
    }
}

/// `k` occurs in `keys` exactly when it has a first position.
pub proof fn lemma_first_index_exists(keys: Seq<Key>, k: Key)
    ensures
        first_index(keys, k) is Some <==> keys.contains(k),
        first_index(keys, k) matches Some(i) ==> is_first_index(keys, k, i),
    decreases keys.len(),
{
    if keys.contains(k) {
        if keys[0] == k {
            lemma_first_index_is(keys, k, 0);
        } else {
            let w = choose|x: int| 0 <= x < keys.len() && keys[x] == k;
            let rest = keys.drop_first();
            assert(rest[w - 1] == k);
            lemma_first_index_exists(rest, k);
            let j = first_index(rest, k)->0;
            assert forall|x: int| 0 <= x < j + 1 implies keys[x] != k by {
                if x > 0 {
                    assert(keys[x] == rest[x - 1]);
                }
            }
            lemma_first_index_is(keys, k, j + 1);
        }
    } else {
        if exists|i: int| is_first_index(keys, k, i) {
            let i = choose|i: int| is_first_index(keys, k, i);
            assert(keys.contains(k));
        }
    }
}

} // verus!
