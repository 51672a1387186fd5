//! The plain vault: a principal per user that accrues yield by the second.

use vstd::prelude::*;

verus! {

/// The yearly yield in basis points.
pub const APY_BPS: i128 = 1000;

/// Seconds in a year of 365 days.
pub const SECONDS_PER_YEAR: i128 = 31_536_000;

/// The rules of the plain vault.
pub struct CitadelVault;

/// An amount as stored: zero where nothing is stored.
pub open spec fn amount_or_zero(stored: Option<i128>) -> i128 {
    match stored {
        Some(amount) => amount,
        None => 0,
    }
}

/// Yield on `principal` over `elapsed` seconds at the yearly rate, rounded
/// towards zero.
pub open spec fn accrued_yield(principal: int, elapsed: int) -> int {
    if principal >= 0 {
        principal * APY_BPS * elapsed / (10000 * SECONDS_PER_YEAR)
    } else {
        -((-principal) * APY_BPS * elapsed / (10000 * SECONDS_PER_YEAR))
    }
}

/// Whether an accrual at `now` changes anything: there is a principal, and
/// time has passed since the stored timestamp.
pub open spec fn accrual_due(principal: Option<i128>, last_ts: Option<u64>, now: u64) -> bool {
    &&& amount_or_zero(principal) != 0
    &&& last_ts matches Some(last) && last < now
}

/// The yield that an accrual at `now` adds.
pub open spec fn accrual_amount(principal: Option<i128>, last_ts: Option<u64>, now: u64) -> int {
    if accrual_due(principal, last_ts, now) {
        accrued_yield(amount_or_zero(principal) as int, now - last_ts->Some_0)
    } else {
        0
    }
}

/// The machine's limits on an accrual that is due: the product that the
/// yield is a fraction of, and the user's new yield, fit in 128 bits.
pub open spec fn accrual_in_range(
    principal: Option<i128>,
    last_ts: Option<u64>,
    stored_yield: Option<i128>,
    now: u64,
) -> bool {
    accrual_due(principal, last_ts, now) ==> {
        &&& i128::MIN <= amount_or_zero(principal) * APY_BPS * (now - last_ts->Some_0)
            <= i128::MAX
        &&& i128::MIN <= amount_or_zero(stored_yield) + accrual_amount(principal, last_ts, now)
            <= i128::MAX
    }
}

/// The machine's limits on a deposit: the user's new principal and the new
/// total fit in 128 bits.
pub open spec fn deposit_in_range(
    principal: Option<i128>,
    total_principal: Option<i128>,
    amount: i128,
) -> bool {
    &&& i128::MIN <= amount_or_zero(principal) + amount <= i128::MAX
    &&& i128::MIN <= amount_or_zero(total_principal) + amount <= i128::MAX
}

/// A product over the yearly divisor, rounded towards zero.
fn yearly_part(product: i128) -> (part: i128)
    ensures
        product >= 0 ==> part == product as int / (10000 * SECONDS_PER_YEAR),
        product < 0 ==> part == -((-product) / (10000 * SECONDS_PER_YEAR)),
{
    let divisor: i128 = 10000 * SECONDS_PER_YEAR;
    if product >= 0 {
        product / divisor
    } else {
        let below: i128 = -(product + 1);
        if below % divisor == divisor - 1 {
            -(below / divisor) - 1
        } else {
            -(below / divisor)
        }
    }
}

impl CitadelVault {
    /// Tests whether [`CitadelVault::deposit`] may be called: the principal
    /// and the total stay within the machine's limits.
    pub fn deposit_fits(principal: Option<i128>, total_principal: Option<i128>, amount: i128) -> (fits:
        bool)
        ensures
            fits == deposit_in_range(principal, total_principal, amount),
    {
        let current: i128 = match principal {
            Some(current) => current,
            None => 0,
        };
        let total: i128 = match total_principal {
            Some(total) => total,
            None => 0,
        };
        current.checked_add(amount).is_some() && total.checked_add(amount).is_some()
    }

    /// Deposits `amount` for a user at time `now`, given the user's stored
    /// principal and timestamp and the stored total of all principals.
    /// Returns the user's principal and the total to store, and the timestamp
    /// to store where the user had none.
    ///
    /// The amount is added to both, whatever its sign.
    pub fn deposit(
        principal: Option<i128>,
        last_ts: Option<u64>,
        total_principal: Option<i128>,
        amount: i128,
        now: u64,
    ) -> (stored: (i128, Option<u64>, i128))
        requires
            deposit_in_range(principal, total_principal, amount),
        ensures
            stored.0 == amount_or_zero(principal) + amount,
            stored.1 == (if last_ts is None {
                Some(now)
            } else {
                None
            }),
            stored.2 == amount_or_zero(total_principal) + amount,
    {
        let current: i128 = match principal {
            Some(current) => current,
            None => 0,
        };
        let started: Option<u64> = match last_ts {
            Some(_) => None,
            None => Some(now),
        };
        let total: i128 = match total_principal {
            Some(total) => total,
            None => 0,
        };
        (current + amount, started, total + amount)
    }

    /// Tests whether [`CitadelVault::accrue_yield`] may be called: an accrual
    /// that is due stays within the machine's limits.
    pub fn accrual_fits(
        principal: Option<i128>,
        last_ts: Option<u64>,
        stored_yield: Option<i128>,
        now: u64,
    ) -> (fits: bool)
        ensures
            fits == accrual_in_range(principal, last_ts, stored_yield, now),
    {
        let held: i128 = match principal {
            Some(held) => held,
            None => 0,
        };
        let last: u64 = match last_ts {
            Some(last) => last,
            None => now,
        };
        if held == 0 || now <= last {
            return true;
        }
        let elapsed: i128 = (now - last) as i128;
        assert({
            &&& held >= 0 ==> 0 <= held * APY_BPS <= held * APY_BPS * elapsed
            &&& held < 0 ==> held * APY_BPS * elapsed <= held * APY_BPS <= 0
            &&& (-held) * APY_BPS * elapsed == -(held * APY_BPS * elapsed)
        }) by (nonlinear_arith)
            requires
                elapsed >= 1,
        ;
        let product: i128 = match held.checked_mul(APY_BPS) {
            Some(yearly) => match yearly.checked_mul(elapsed) {
                Some(product) => product,
                None => {
                    return false;
                },
            },
            None => {
                return false;
            },
        };
        let current: i128 = match stored_yield {
            Some(current) => current,
            None => 0,
        };
        current.checked_add(yearly_part(product)).is_some()
    }

    /// Accrues a user's yield at time `now`, given the stored principal,
    /// timestamp and yield. Returns the yield added and, where an accrual is
    /// due, the user's yield and the timestamp to store.
    ///
    /// Nothing is due, and nothing is to be stored, without a principal,
    /// without a stored timestamp, or when no time has passed since it.
    pub fn accrue_yield(
        principal: Option<i128>,
        last_ts: Option<u64>,
        stored_yield: Option<i128>,
        now: u64,
    ) -> (accrual: (i128, Option<(i128, u64)>))
        requires
            accrual_in_range(principal, last_ts, stored_yield, now),
        ensures
            accrual.0 == accrual_amount(principal, last_ts, now),
            amount_or_zero(principal) >= 0 ==> accrual.0 >= 0,
            accrual_due(principal, last_ts, now) ==> accrual.1 == Some(
                ((amount_or_zero(stored_yield) + accrual.0) as i128, now),
            ),
            !accrual_due(principal, last_ts, now) ==> accrual.1 is None,
    {
        let held: i128 = match principal {
            Some(held) => held,
            None => 0,
        };
        if held == 0 {
            return (0, None);
        }
        let last: u64 = match last_ts {
            Some(last) => last,
            None => now,
        };
        if now <= last {
            return (0, None);
        }
        let elapsed: i128 = (now - last) as i128;
        assert({
            &&& held >= 0 ==> 0 <= held * APY_BPS <= held * APY_BPS * elapsed
            &&& held < 0 ==> held * APY_BPS * elapsed <= held * APY_BPS <= 0
            &&& (-held) * APY_BPS * elapsed == -(held * APY_BPS * elapsed)
        }) by (nonlinear_arith)
            requires
                elapsed >= 1,
        ;
        let yield_amount: i128 = yearly_part(held * APY_BPS * elapsed);
        let current: i128 = match stored_yield {
            Some(current) => current,
            None => 0,
        };
        (yield_amount, Some((current + yield_amount, now)))
    }
}

} // verus!
