use ned_finance_wallet::names::{get_name_array, name_is_empty, name_length, NAME_LEN};
use ned_finance_wallet::vaults;

#[test]
fn short_name_is_zero_padded() {
    let fixed = get_name_array(&b"Trip".to_vec());
    assert_eq!(&fixed[..4], b"Trip");
    assert!(fixed[4..].iter().all(|b| *b == 0));
    assert_eq!(fixed.len(), NAME_LEN);
}

#[test]
fn long_name_is_cut_to_thirty_bytes() {
    let name: Vec<u8> = (1..=40).collect();
    let fixed = get_name_array(&name);
    let expected: Vec<u8> = (1..=30).collect();
    assert_eq!(fixed.to_vec(), expected);
}

#[test]
fn vault_name_array_takes_ownership() {
    let fixed = vaults::get_name_array(b"Holiday".to_vec());
    assert_eq!(&fixed[..7], b"Holiday");
    assert_eq!(fixed[7], 0);
}

#[test]
fn blank_names_are_empty() {
    assert!(name_is_empty(&vec![]));
    assert!(name_is_empty(&vec![0, 0, 0]));
    assert!(!name_is_empty(&vec![0, 0, 7]));
    assert!(!name_is_empty(&b"a".to_vec()));
    assert!(vaults::name_is_empty(&vec![0]));
    assert!(!vaults::name_is_empty(&vec![0, 1]));
}

#[test]
fn name_length_keeps_one_byte() {
    assert_eq!(name_length(&vec![1; 12]), 12);
    assert_eq!(name_length(&vec![1; 255]), 255);
    assert_eq!(name_length(&vec![1; 300]), 44);
}
