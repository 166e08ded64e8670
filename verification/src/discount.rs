use vstd::prelude::*;

use crate::promotion::{DiscountType, Promotion};

verus! {

/// The discount owed for a transaction amount under a discount rule:
/// - `Percentage(pct)`: `amount * pct / 100` (integer division, no rounding
///   beyond the truncation of the division itself);
/// - `FixedAmount(val)`: `min(val, amount)` — a fixed discount can never
///   exceed the transaction amount.
pub open spec fn discount_of(discount: DiscountType, amount: u64) -> int {
    match discount {
        DiscountType::Percentage(pct) => amount * pct / 100,
        DiscountType::FixedAmount(val) => if val < amount {
            val as int
        } else {
            amount as int
        },
    }
}

/// Calculates the discount amount based on the promotion and the given
/// transaction amount, in minor currency units.
///
/// This function does not check validity, expiration, or usage limits:
/// callers must run the rule engine first if those guarantees are required.
/// The only demand on the inputs is the machine limit that the discount
/// itself fits in a `u64`; for a fixed-amount rule that always holds.
pub fn calculate_discount(promo: &Promotion, amount: u64) -> (r: u64)
    requires
        discount_of(promo.discount, amount) <= u64::MAX,
    ensures
        r == discount_of(promo.discount, amount),
{
    match &promo.discount {
        DiscountType::Percentage(pct) => {
            proof {
                assert((amount as int) * (*pct as int) <= (u64::MAX as int) * (
                u64::MAX as int)) by (nonlinear_arith)
                    requires
                        amount <= u64::MAX,
                        *pct <= u64::MAX,
                ;
            }
            let wide: u128 = (amount as u128) * (*pct as u128) / 100;
            wide as u64
        },
        DiscountType::FixedAmount(val) => {
            if *val < amount {
                *val
            } else {
                amount
            }
        },
    }
}

} // verus!
