use vstd::prelude::*;

verus! {

/// Number of bytes a slot keeps of a name.
pub const NAME_LEN: usize = 30;

/// The fixed-width form of a name: its first 30 bytes, padded with zeros.
pub open spec fn name_array(name: Seq<u8>) -> Seq<u8> {
    Seq::new(30, |i: int| if i < name.len() { name[i] } else { 0u8 })
}

/// A name is empty when it holds no byte other than zero.
pub open spec fn is_blank(name: Seq<u8>) -> bool {
    forall|i: int| 0 <= i < name.len() ==> name[i] == 0u8
}

/// The length a slot records for a name: its length cut to one byte.
pub open spec fn recorded_length(name: Seq<u8>) -> u8 {
    (name.len() % 256) as u8
}

/// Copies the first 30 bytes of `name` into a zero-padded array.
pub fn get_name_array(name: &Vec<u8>) -> (fixed: [u8; 30])
    ensures
        fixed@ == name_array(name@),
{
    broadcast use vstd::array::group_array_axioms;
    let mut fixed: [u8; 30] = [0u8; 30];
    let mut index: usize = 0;
    while index < NAME_LEN
        invariant
            0 <= index <= 30,
            fixed@.len() == 30,
            forall|j: int| 0 <= j < index ==> fixed@[j] == name_array(name@)[j],
            forall|j: int| index <= j < 30 ==> fixed@[j] == 0u8,
        decreases 30 - index,
    {
        if index < name.len() {
            fixed[index] = name[index];
        }
        index = index + 1;
    }
    assert(fixed@ =~= name_array(name@));
    fixed
}

/// Tells whether `name` holds no byte other than zero.
pub fn name_is_empty(name: &Vec<u8>) -> (empty: bool)
    ensures
        empty == is_blank(name@),
{
    let mut i: usize = 0;
    while i < name.len()
        invariant
            0 <= i <= name@.len(),
            forall|j: int| 0 <= j < i ==> name@[j] == 0u8,
        decreases name@.len() - i,
    {
        if name[i] != 0 {
            return false;
        }
        i = i + 1;
    }
    true
}

/// The length byte a slot stores for `name`.
pub fn name_length(name: &Vec<u8>) -> (len: u8)
    ensures
        len == recorded_length(name@),
{
    (name.len() % 256) as u8
}

/// A name of at most 30 bytes is kept whole: the array starts with it and is
/// zero after it.
pub proof fn lemma_short_name_kept(name: Seq<u8>)
    requires
        name.len() <= 30,
    ensures
        name_array(name).take(name.len() as int) == name,
        forall|i: int| name.len() <= i < 30 ==> name_array(name)[i] == 0u8,
{
    assert(name_array(name).take(name.len() as int) =~= name);
}

/// A blank name gives the all-zero array.
pub proof fn lemma_blank_name_zero_array(name: Seq<u8>)
    requires
        is_blank(name),
    ensures
        forall|i: int| 0 <= i < 30 ==> name_array(name)[i] == 0u8,
{
}

} // verus!
