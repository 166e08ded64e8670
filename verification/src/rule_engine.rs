use vstd::prelude::*;

use crate::error::PromoError;
use crate::promotion::Promotion;

verus! {

/// Context used to evaluate whether a promotion is currently valid.
pub struct PromoContext<'a> {
    /// The evaluation instant (epoch seconds).
    pub current_time: u64,

    /// The transaction amount, in minor currency units.
    pub transaction_amount: u64,

    /// The promotion under evaluation.
    pub promo: &'a Promotion,
}

/// The promotion's own window is well formed: it starts strictly before it
/// ends.
pub open spec fn period_is_well_formed(promo: Promotion) -> bool {
    promo.valid_from < promo.valid_until
}

/// The evaluation instant lies within the validity window; both bounds are
/// inclusive.
pub open spec fn time_in_window(promo: Promotion, now: u64) -> bool {
    promo.valid_from <= now <= promo.valid_until
}

/// The transaction amount reaches the configured minimum, if any; equality
/// is allowed, and an absent minimum means no floor.
pub open spec fn meets_min_transaction(promo: Promotion, transaction_amount: u64) -> bool {
    match promo.min_transaction {
        Some(min_tx) => transaction_amount >= min_tx,
        None => true,
    }
}

/// The promotion has uses left: `used` is strictly below the configured
/// limit, if any; an absent limit means unlimited.
pub open spec fn under_usage_limit(promo: Promotion) -> bool {
    match promo.usage_limit {
        Some(limit) => promo.used < limit,
        None => true,
    }
}

/// The promotion is applicable to the transaction at the given instant:
/// all four eligibility checks pass.
pub open spec fn promo_valid(promo: Promotion, transaction_amount: u64, now: u64) -> bool {
    &&& period_is_well_formed(promo)
    &&& time_in_window(promo, now)
    &&& meets_min_transaction(promo, transaction_amount)
    &&& under_usage_limit(promo)
}

/// The outcome of running the eligibility checks in order: the first failing
/// check names the error, and `Ok(())` means all four pass.
pub open spec fn evaluation_of(promo: Promotion, transaction_amount: u64, now: u64) -> Result<
    (),
    PromoError,
> {
    if !period_is_well_formed(promo) {
        Err(PromoError::InvalidPeriod)
    } else if !time_in_window(promo, now) {
        Err(PromoError::InvalidTime)
    } else if !meets_min_transaction(promo, transaction_amount) {
        Err(PromoError::BelowMinimumTransaction)
    } else if !under_usage_limit(promo) {
        Err(PromoError::UsageLimitReached)
    } else {
        Ok(())
    }
}

/// Runs the four eligibility checks in order and yields the first failure,
/// or `Ok(())` if the promotion is applicable. Never mutates the promotion.
pub fn evaluate(promo: &Promotion, transaction_amount: u64, now: u64) -> (r: Result<
    (),
    PromoError,
>)
    ensures
        r == evaluation_of(*promo, transaction_amount, now),
        r is Ok <==> promo_valid(*promo, transaction_amount, now),
{
    // Validate logical time period
    if promo.valid_from >= promo.valid_until {
        return Err(PromoError::InvalidPeriod);
    }
    // Validate current time is within the promo period
    if now < promo.valid_from || now > promo.valid_until {
        return Err(PromoError::InvalidTime);
    }
    // Validate transaction amount is sufficient
    if let Some(min_tx) = promo.min_transaction {
        if transaction_amount < min_tx {
            return Err(PromoError::BelowMinimumTransaction);
        }
    }
    // Validate usage limit
    if let Some(limit) = promo.usage_limit {
        if promo.used >= limit {
            return Err(PromoError::UsageLimitReached);
        }
    }
    Ok(())
}

/// A promotion whose configured window is malformed (`valid_from` at or past
/// `valid_until`) fails with `InvalidPeriod`, regardless of the evaluation
/// instant or the transaction amount.
pub proof fn lemma_malformed_period_always_fails(
    promo: Promotion,
    transaction_amount: u64,
    now: u64,
)
    requires
        promo.valid_from >= promo.valid_until,
    ensures
        evaluation_of(promo, transaction_amount, now) == Err::<(), PromoError>(
            PromoError::InvalidPeriod,
        ),
{
}

/// With a well-formed window, an evaluation instant outside it fails with
/// `InvalidTime`, regardless of the transaction amount.
pub proof fn lemma_outside_window_always_fails(
    promo: Promotion,
    transaction_amount: u64,
    now: u64,
)
    requires
        promo.valid_from < promo.valid_until,
        now < promo.valid_from || now > promo.valid_until,
    ensures
        evaluation_of(promo, transaction_amount, now) == Err::<(), PromoError>(
            PromoError::InvalidTime,
        ),
{
}

/// Both window bounds are inclusive: at either endpoint of a well-formed
/// window the time check cannot be the failing one.
pub proof fn lemma_window_bounds_inclusive(promo: Promotion, transaction_amount: u64)
    requires
        promo.valid_from < promo.valid_until,
    ensures
        evaluation_of(promo, transaction_amount, promo.valid_from) != Err::<(), PromoError>(
            PromoError::InvalidTime,
        ),
        evaluation_of(promo, transaction_amount, promo.valid_until) != Err::<(), PromoError>(
            PromoError::InvalidTime,
        ),
{
}

/// With the period and time checks passing, an amount below the configured
/// minimum fails with `BelowMinimumTransaction`, while an amount equal to the
/// minimum passes that check (and succeeds outright when the usage limit is
/// not exhausted).
pub proof fn lemma_minimum_transaction_boundary(
    promo: Promotion,
    transaction_amount: u64,
    now: u64,
    min_tx: u64,
)
    requires
        promo.valid_from < promo.valid_until,
        promo.valid_from <= now <= promo.valid_until,
        promo.min_transaction == Some(min_tx),
    ensures
        transaction_amount < min_tx ==> evaluation_of(promo, transaction_amount, now) == Err::<
            (),
            PromoError,
        >(PromoError::BelowMinimumTransaction),
        transaction_amount >= min_tx && under_usage_limit(promo) ==> evaluation_of(
            promo,
            transaction_amount,
            now,
        ) == Ok::<(), PromoError>(()),
{
}

/// With the first three checks passing, a usage count at or past the
/// configured limit fails with `UsageLimitReached`, while one strictly below
/// the limit — in particular, one short of it — succeeds.
pub proof fn lemma_usage_limit_boundary(
    promo: Promotion,
    transaction_amount: u64,
    now: u64,
    limit: u32,
)
    requires
        promo.valid_from < promo.valid_until,
        promo.valid_from <= now <= promo.valid_until,
        meets_min_transaction(promo, transaction_amount),
        promo.usage_limit == Some(limit),
    ensures
        promo.used >= limit ==> evaluation_of(promo, transaction_amount, now) == Err::<
            (),
            PromoError,
        >(PromoError::UsageLimitReached),
        promo.used < limit ==> evaluation_of(promo, transaction_amount, now) == Ok::<
            (),
            PromoError,
        >(()),
{
}

/// Simple boolean validation for use in filters or lightweight checks;
/// discards the failure reason.
pub fn is_promo_valid(ctx: &PromoContext) -> (r: bool)
    ensures
        r == promo_valid(*ctx.promo, ctx.transaction_amount, ctx.current_time),
{
    evaluate(ctx.promo, ctx.transaction_amount, ctx.current_time).is_ok()
}

} // verus!
