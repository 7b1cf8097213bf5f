use ned_finance_wallet::fees::{Partner, User, DEFAULT_FEE_RATIO, FEE_DENOMINATOR, PRICE_PRECISION};

fn partner(outstanding: u64, cumulative: u128) -> Partner {
    Partner { partner_token: [1; 32], vault: [2; 32], outstanding_fee: outstanding, fee_ratio: 5000, cumulative_fee: cumulative }
}

#[test]
fn constants() {
    assert_eq!(FEE_DENOMINATOR, 10_000);
    assert_eq!(DEFAULT_FEE_RATIO, 5_000);
    assert_eq!(PRICE_PRECISION, 1_000_000_000_000);
}

#[test]
fn accrue_fee_adds_to_both_totals() {
    let mut p = partner(10, 100);
    assert_eq!(p.accrue_fee(5), Some(()));
    assert_eq!(p.outstanding_fee, 15);
    assert_eq!(p.cumulative_fee, 105);
    assert_eq!(p.fee_ratio, 5000);
}

#[test]
fn accrue_fee_fails_when_outstanding_overflows() {
    let mut p = partner(u64::MAX - 1, 100);
    assert_eq!(p.accrue_fee(2), None);
    assert_eq!(p.outstanding_fee, u64::MAX - 1);
    assert_eq!(p.cumulative_fee, 100);
}

#[test]
fn accrue_fee_keeps_cumulative_when_no_room() {
    let mut p = partner(0, u128::MAX - 3);
    assert_eq!(p.accrue_fee(7), Some(()));
    assert_eq!(p.outstanding_fee, 7);
    assert_eq!(p.cumulative_fee, u128::MAX - 3);
    let mut q = partner(0, u128::MAX - 7);
    assert_eq!(q.accrue_fee(7), Some(()));
    assert_eq!(q.cumulative_fee, u128::MAX);
}

#[test]
fn get_fee_shares_performance_fee() {
    let mut u = User::default();
    u.set_new_state(1_000_000_000_000, 2_000_000);
    // yield 2e6 * 5e11 / 1e12 = 1e6; 5% of it = 50_000; half of that = 25_000
    assert_eq!(u.get_fee(1_500_000_000_000, 5_000), Some(25_000));
    assert_eq!(u.get_fee(1_500_000_000_000, 10_000), Some(50_000));
    assert_eq!(u.get_fee(1_500_000_000_000, 0), Some(0));
}

#[test]
fn get_fee_rounds_each_step_down() {
    let mut u = User::default();
    u.set_new_state(0, 1_000_000_000_000);
    assert_eq!(u.get_fee(1_000_000_000_000, 5000), Some(25_000_000_000));
    let mut v = User::default();
    v.set_new_state(0, 3);
    // yield 3 * 999_999_999_999 / 1e12 = 2; 2 * 500 / 10000 = 0
    assert_eq!(v.get_fee(999_999_999_999, 10_000), Some(0));
}

#[test]
fn get_fee_is_zero_without_price_rise() {
    let mut u = User::default();
    u.set_new_state(700, 1_000_000);
    assert_eq!(u.get_fee(700, 5000), Some(0));
    assert_eq!(u.get_fee(10, 5000), Some(0));
}

#[test]
fn get_fee_fails_when_share_leaves_u64() {
    let mut u = User::default();
    u.set_new_state(0, u64::MAX);
    assert_eq!(u.get_fee(u64::MAX, 10_000), None);
    assert_eq!(u.get_fee(u64::MAX, u64::MAX), None);
}
