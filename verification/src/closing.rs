use vstd::prelude::*;
use crate::key::{Key, keys_equal};

verus! {

/// The eight bytes that mark a closed account.
pub open spec fn closed_discriminator() -> Seq<u8> {
    Seq::new(8, |i: int| 255u8)
}

/// Reads `anchor_lang::__private::CLOSED_ACCOUNT_DISCRIMINATOR`, which the
/// crate's source sets to eight bytes of 255.
#[verifier::external_body]
fn closed_account_discriminator() -> (d: [u8; 8])
    ensures
        d@ == closed_discriminator(),
{
    anchor_lang::__private::CLOSED_ACCOUNT_DISCRIMINATOR
}

/// The data of a closed account of `len` bytes: the closed mark, then zeros.
pub open spec fn closed_data(len: nat) -> Seq<u8> {
    Seq::new(len, |i: int| if i < 8 { closed_discriminator()[i] } else { 0u8 })
}

/// Lamport balances after a data account is closed.
#[derive(Clone, Copy, Debug, PartialEq, Eq, Structural)]
pub struct ClosedLamports {
    pub destination: u64,
    pub data_account: u64,
}

/// Closes a data account into `destination` when the account's owning
/// program is the signer: its lamports move to the destination, its data is
/// zeroed and starts with the closed mark. Otherwise nothing changes.
pub fn close_data_account(
    account_owner: Key,
    signer: Key,
    destination_lamports: u64,
    data_lamports: u64,
    data: &mut Vec<u8>,
) -> (r: Option<ClosedLamports>)
    requires
        account_owner == signer ==> destination_lamports + data_lamports <= u64::MAX,
        account_owner == signer ==> old(data)@.len() >= 8,
    ensures
        account_owner != signer ==> r is None && final(data)@ == old(data)@,
        account_owner == signer ==> {
            &&& r == Some(ClosedLamports {
                destination: (destination_lamports + data_lamports) as u64,
                data_account: 0,
            })
            &&& final(data)@ == closed_data(old(data)@.len())
        },
{
    broadcast use vstd::array::group_array_axioms;
    if !keys_equal(&account_owner, &signer) {
        return None;
    }
    let destination = destination_lamports + data_lamports;
    let len = data.len();
    let mut i: usize = 0;
    while i < len
        invariant
            0 <= i <= len,
            data@.len() == len,
            forall|j: int| 0 <= j < i ==> data@[j] == 0u8,
        decreases len - i,
    {
        data.set(i, 0);
        i = i + 1;
    }
    let mark = closed_account_discriminator();
    let mut k: usize = 0;
    while k < 8
        invariant
            0 <= k <= 8,
            8 <= len,
            data@.len() == len,
            mark@ == closed_discriminator(),
            forall|j: int| 0 <= j < k ==> data@[j] == 255u8,
            forall|j: int| 8 <= j < len ==> data@[j] == 0u8,
        decreases 8 - k,
    {
        data.set(k, mark[k]);
        k = k + 1;
    }
    assert(data@ =~= closed_data(len as nat));
    Some(ClosedLamports { destination, data_account: 0 })
}

} // verus!
