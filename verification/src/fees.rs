use vstd::prelude::*;
use crate::key::Key;

verus! {

/// Denominator of a partner's fee ratio.
pub const FEE_DENOMINATOR: u128 = 10_000;

/// Fee ratio a partner gets when none is set: half.
pub const DEFAULT_FEE_RATIO: u64 = 5_000;

/// Scale of virtual prices.
pub const PRICE_PRECISION: u128 = 1_000_000_000_000u128;

/// The vault protocol's performance fee, as numerator over denominator.
pub open spec fn performance_fee_numerator() -> u128 {
    500u128
}

pub open spec fn performance_fee_denominator() -> u128 {
    10000u128
}

/// Reads `mercurial_vault::PERFORMANCE_FEE_NUMERATOR`, which the crate's
/// source sets to 500 (5% over a denominator of 10000).
#[verifier::external_body]
fn vault_performance_fee_numerator() -> (n: u128)
    ensures
        n == performance_fee_numerator(),
{
    mercurial_vault::PERFORMANCE_FEE_NUMERATOR
}

/// Reads `mercurial_vault::PERFORMANCE_FEE_DENOMINATOR`, which the crate's
/// source sets to 10000.
#[verifier::external_body]
fn vault_performance_fee_denominator() -> (d: u128)
    ensures
        d == performance_fee_denominator(),
{
    mercurial_vault::PERFORMANCE_FEE_DENOMINATOR
}

/// A partner of the vault protocol and the fees owed to it.
#[derive(Clone, Copy, Debug)]
pub struct Partner {
    /// token account the fee is paid to
    pub partner_token: Key,
    /// vault the partner integrates
    pub vault: Key,
    /// fee earned and not yet paid
    pub outstanding_fee: u64,
    /// share of the performance fee the partner gets, over 10000
    pub fee_ratio: u64,
    /// all fee earned since the start
    pub cumulative_fee: u128,
}

/// The running total after adding `fee`: it grows only while it stays
/// inside `u128`.
pub open spec fn accrued_total(cumulative: u128, fee: u64) -> u128 {
    if u128::MAX - cumulative >= fee {
        (cumulative + fee) as u128
    } else {
        cumulative
    }
}

impl Partner {
    /// Adds `fee` to what the partner is owed.
    ///
    /// Fails, changing nothing, when the outstanding fee would leave `u64`.
    /// Otherwise the outstanding fee grows by `fee` and the cumulative fee
    /// grows by `fee` when there is room for it in `u128`, else stays.
    pub fn accrue_fee(&mut self, fee: u64) -> (r: Option<()>)
        ensures
            old(self).outstanding_fee + fee > u64::MAX ==> r is None && *final(self) == *old(self),
            old(self).outstanding_fee + fee <= u64::MAX ==> {
                &&& r == Some(())
                &&& final(self).outstanding_fee == old(self).outstanding_fee + fee
                &&& final(self).cumulative_fee == accrued_total(old(self).cumulative_fee, fee)
                &&& final(self).partner_token == old(self).partner_token
                &&& final(self).vault == old(self).vault
                &&& final(self).fee_ratio == old(self).fee_ratio
            },
    {
        let outstanding = match self.outstanding_fee.checked_add(fee) {
            Some(v) => v,
            None => return None,
        };
        self.outstanding_fee = outstanding;
        let max = u128::MAX;
        let buffer = max - self.cumulative_fee;
        let fee: u128 = fee as u128;
        if buffer >= fee {
            self.cumulative_fee = match self.cumulative_fee.checked_add(fee) {
                Some(v) => v,
                None => return None,
            };
        }
        Some(())
    }
}

/// A depositor of the vault protocol as a partner sees it.
#[derive(Clone, Copy, Debug)]
pub struct User {
    pub owner: Key,
    /// partner the user deposits through
    pub partner: Key,
    /// virtual price at the last settlement
    pub current_virtual_price: u64,
    /// LP tokens the user holds
    pub lp_token: u64,
    pub bump: u8,
}

/// The yield a holding of `lp_token` earned while the virtual price rose from
/// `from_price` to `to_price`.
pub open spec fn yield_earned(lp_token: u64, from_price: u64, to_price: u64) -> int {
    (lp_token * (to_price - from_price)) / (PRICE_PRECISION as int)
}

/// The vault's performance fee on that yield.
pub open spec fn performance_fee(yield_amount: int) -> int {
    (yield_amount * performance_fee_numerator()) / (performance_fee_denominator() as int)
}

/// The partner's share of the performance fee a user generated: zero when the
/// virtual price did not rise; none when `performance fee * fee_ratio` leaves
/// `u128` or the share leaves `u64`.
pub open spec fn fee_share(lp_token: u64, from_price: u64, to_price: u64, fee_ratio: u64) -> Option<u64> {
    if to_price <= from_price {
        Some(0u64)
    } else {
        let scaled = performance_fee(yield_earned(lp_token, from_price, to_price)) * fee_ratio;
        if scaled > u128::MAX {
            None
        } else if scaled / (FEE_DENOMINATOR as int) > u64::MAX {
            None
        } else {
            Some((scaled / (FEE_DENOMINATOR as int)) as u64)
        }
    }
}

/// For a rising price the gross yield and the fee numerator's product fit in
/// `u128`, so only the last two steps of the fee can fail.
pub proof fn lemma_fee_steps_fit(lp_token: u64, from_price: u64, to_price: u64)
    requires
        from_price < to_price,
    ensures
        0 <= lp_token * (to_price - from_price) <= u128::MAX,
        0 <= yield_earned(lp_token, from_price, to_price) * performance_fee_numerator() <= u128::MAX,
        0 <= performance_fee(yield_earned(lp_token, from_price, to_price)),
{
    let d: int = to_price - from_price;
    assert(0 <= lp_token * d <= 0xffff_ffff_ffff_ffff * 0xffff_ffff_ffff_ffff) by (nonlinear_arith)
        requires
            0 <= lp_token <= 0xffff_ffff_ffff_ffff,
            0 < d <= 0xffff_ffff_ffff_ffff,
    ;
    let a: int = lp_token * d;
    let y: int = a / 1_000_000_000_000;
    assert(0 <= y <= a) by (nonlinear_arith)
        requires
            0 <= a,
            y == a / 1_000_000_000_000,
    ;
    assert(0 <= y * 500 <= 0xffff_ffff_ffff_ffff * 0xffff_ffff_ffff_ffff) by (nonlinear_arith)
        requires
            0 <= y <= 0xffff_ffff_ffff_ffff * 0xffff_ffff_ffff_ffff / 1_000_000_000_000 + 1,
    ;
    assert(y <= 0xffff_ffff_ffff_ffff * 0xffff_ffff_ffff_ffff / 1_000_000_000_000 + 1) by (nonlinear_arith)
        requires
            0 <= a <= 0xffff_ffff_ffff_ffff * 0xffff_ffff_ffff_ffff,
            y == a / 1_000_000_000_000,
    ;
    assert(0 <= (y * 500) / 10000) by (nonlinear_arith)
        requires
            0 <= y * 500,
    ;
}

impl User {
    /// The partner's share of the fee this user generated since the last
    /// settlement, when the virtual price is now `virtual_price`.
    pub fn get_fee(&mut self, virtual_price: u64, fee_ratio: u64) -> (r: Option<u64>)
        ensures
            r == fee_share(old(self).lp_token, old(self).current_virtual_price, virtual_price, fee_ratio),
            *final(self) == *old(self),
    {
        if virtual_price <= self.current_virtual_price {
            return Some(0);
        }
        proof {
            lemma_fee_steps_fit(self.lp_token, self.current_virtual_price, virtual_price);
        }
        let rise = virtual_price - self.current_virtual_price;
        let gross = match (self.lp_token as u128).checked_mul(rise as u128) {
            Some(v) => v,
            None => return None,
        };
        let earned = match gross.checked_div(PRICE_PRECISION) {
            Some(v) => v,
            None => return None,
        };
        let fee_base = match earned.checked_mul(vault_performance_fee_numerator()) {
            Some(v) => v,
            None => return None,
        };
        let performance = match fee_base.checked_div(vault_performance_fee_denominator()) {
            Some(v) => v,
            None => return None,
        };
        let scaled = match performance.checked_mul(fee_ratio as u128) {
            Some(v) => v,
            None => return None,
        };
        let sharing = match scaled.checked_div(FEE_DENOMINATOR) {
            Some(v) => v,
            None => return None,
        };
        if sharing <= 0xffff_ffff_ffff_ffffu128 {
            Some(sharing as u64)
        } else {
            None
        }
    }

    /// Settles the user at a new virtual price and LP holding.
    pub fn set_new_state(&mut self, virtual_price: u64, lp_token: u64)
        ensures
            final(self).current_virtual_price == virtual_price,
            final(self).lp_token == lp_token,
            final(self).owner == old(self).owner,
            final(self).partner == old(self).partner,
            final(self).bump == old(self).bump,
    {
        self.current_virtual_price = virtual_price;
        self.lp_token = lp_token;
    }
}

impl Default for User {
    fn default() -> (u: User)
        ensures
            u.owner@ == Seq::new(32, |i: int| 0u8),
            u.partner@ == Seq::new(32, |i: int| 0u8),
            u.current_virtual_price == 0,
            u.lp_token == 0,
            u.bump == 0,
    {
        broadcast use vstd::array::group_array_axioms;
        let u = User {
            owner: [0u8; 32],
            partner: [0u8; 32],
            current_virtual_price: 0,
            lp_token: 0,
            bump: 0,
        };
        assert(u.owner@ =~= Seq::new(32, |i: int| 0u8));
        assert(u.partner@ =~= Seq::new(32, |i: int| 0u8));
        u
    }
}

} // verus!
