use vstd::prelude::*;

use crate::discount::{calculate_discount, discount_of};
use crate::error::PromoError;
use crate::promotion::{DiscountType, Promotion};
use crate::rule_engine::{evaluate, evaluation_of, promo_valid, PromoContext};

verus! {

/// The promotion with its usage counter raised by one and every other field
/// unchanged.
pub open spec fn with_usage_incremented(promo: Promotion) -> Promotion {
    Promotion { used: (promo.used + 1) as u32, ..promo }
}

/// The promotion with its usage counter set to zero and every other field
/// unchanged.
pub open spec fn with_usage_reset(promo: Promotion) -> Promotion {
    Promotion { used: 0, ..promo }
}

/// Applies a promotion to a given transaction, if all conditions are
/// satisfied.
///
/// Runs the rule engine's four checks in order — well-formed period, time
/// window, minimum transaction, usage limit — and returns the first failure
/// without computing a discount. On success, returns the discount owed for
/// the transaction. Never mutates the promotion: usage tracking is a
/// separate, explicit step left to the caller.
///
/// The one demand on the inputs is the machine limit that, where the
/// promotion is applicable, its discount fits in a `u64`.
pub fn apply_promotion(promo: &Promotion, transaction_amount: u64, now: u64) -> (r: Result<
    u64,
    PromoError,
>)
    requires
        promo_valid(*promo, transaction_amount, now) ==> discount_of(
            promo.discount,
            transaction_amount,
        ) <= u64::MAX,
    ensures
        r is Ok <==> promo_valid(*promo, transaction_amount, now),
        r matches Ok(d) ==> d == discount_of(promo.discount, transaction_amount),
        r matches Err(e) ==> Err::<(), PromoError>(e) == evaluation_of(
            *promo,
            transaction_amount,
            now,
        ),
{
    let ctx = PromoContext { current_time: now, transaction_amount, promo };
    match evaluate(ctx.promo, ctx.transaction_amount, ctx.current_time) {
        Err(e) => Err(e),
        // All validations passed: calculate and return the discount
        Ok(()) => Ok(calculate_discount(ctx.promo, ctx.transaction_amount)),
    }
}

/// On every input that passes validation, a percentage promotion discounts
/// exactly `transaction_amount * pct / 100`.
pub proof fn lemma_valid_percentage_application(
    promo: Promotion,
    transaction_amount: u64,
    now: u64,
    pct: u64,
)
    requires
        promo_valid(promo, transaction_amount, now),
        promo.discount == DiscountType::Percentage(pct),
    ensures
        evaluation_of(promo, transaction_amount, now) == Ok::<(), PromoError>(()),
        discount_of(promo.discount, transaction_amount) == transaction_amount * pct / 100,
{
}

/// On every input that passes validation, a fixed-amount promotion discounts
/// `min(val, transaction_amount)`: the discount never exceeds the transaction
/// amount, and where the configured value exceeds the amount the discount is
/// the amount itself.
pub proof fn lemma_valid_fixed_amount_application(
    promo: Promotion,
    transaction_amount: u64,
    now: u64,
    val: u64,
)
    requires
        promo_valid(promo, transaction_amount, now),
        promo.discount == DiscountType::FixedAmount(val),
    ensures
        evaluation_of(promo, transaction_amount, now) == Ok::<(), PromoError>(()),
        discount_of(promo.discount, transaction_amount) == if val < transaction_amount {
            val as int
        } else {
            transaction_amount as int
        },
        discount_of(promo.discount, transaction_amount) <= transaction_amount,
        val > transaction_amount ==> discount_of(promo.discount, transaction_amount)
            == transaction_amount,
{
}

/// Two usage increments in a row raise the counter by exactly two and touch
/// no other field.
pub proof fn lemma_increment_usage_twice(promo: Promotion)
    requires
        promo.used + 2 <= u32::MAX,
    ensures
        with_usage_incremented(with_usage_incremented(promo)).used == promo.used + 2,
        with_usage_incremented(with_usage_incremented(promo)) == (Promotion {
            used: (promo.used + 2) as u32,
            ..promo
        }),
{
}

/// Resetting the usage counter yields zero from every starting value, and
/// resetting again changes nothing: the reset is idempotent.
pub proof fn lemma_reset_usage_idempotent(promo: Promotion)
    ensures
        with_usage_reset(promo).used == 0,
        with_usage_reset(with_usage_reset(promo)) == with_usage_reset(promo),
{
}

/// Increments the usage count of a promotion by 1.
///
/// This is a plain counter, not a guarded transaction: no upper bound from
/// `usage_limit` is enforced here, and it is the caller's responsibility to
/// call this only after a successful application. The only demand is the
/// machine limit that the counter does not overflow.
pub fn increment_usage(promo: &mut Promotion)
    requires
        old(promo).used < u32::MAX,
    ensures
        *final(promo) == with_usage_incremented(*old(promo)),
        final(promo).used == old(promo).used + 1,
{
    promo.used = promo.used + 1;
}

/// Resets the usage count of a promotion to 0, unconditionally.
pub fn reset_usage(promo: &mut Promotion)
    ensures
        *final(promo) == with_usage_reset(*old(promo)),
        final(promo).used == 0,
{
    promo.used = 0;
}

} // verus!
