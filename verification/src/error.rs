use vstd::prelude::*;

verus! {

/// Represents the possible errors that can occur when validating or applying
/// a promotion. The rule engine reports the first failing check, in the
/// order the checks run.
#[derive(Debug, Clone, Copy, PartialEq, Eq, Structural)]
pub enum PromoError {
    /// The current time is outside the promotion's valid time window.
    InvalidTime,

    /// The transaction amount is below the minimum threshold required to
    /// apply the promotion.
    BelowMinimumTransaction,

    /// The promotion has reached its maximum allowed usage limit.
    UsageLimitReached,

    /// The promotion is not applicable in the current context (e.g.,
    /// mismatched scope). Reserved for callers composing richer rule
    /// chains; never raised by this library's own checks.
    NotApplicable,

    /// The promotion has an invalid period: `valid_from` is greater than or
    /// equal to `valid_until`.
    InvalidPeriod,
}

} // verus!
