use vstd::prelude::*;

verus! {

/// Type of discount being applied.
///
/// Monetary values are integers in minor currency units; percentages are
/// integer percent values (`Percentage(10)` means 10%).
#[derive(Debug, Clone, PartialEq, Eq, Structural)]
pub enum DiscountType {
    /// Percentage-based discount, e.g. `Percentage(10)` = 10%.
    Percentage(u64),

    /// Fixed amount discount in minor currency units.
    FixedAmount(u64),
}

/// Target category where the promotion can be applied.
///
/// Scope matching against a transaction's category is left to the caller;
/// this library carries the scope but does not enforce it.
#[derive(Debug, Clone, PartialEq)]
pub enum TargetScope {
    /// Promotion is applicable to any item or category.
    Global,

    /// Promotion is restricted to a specific label, tag, or category.
    Specific(String),
}

/// Represents a generic promotion or discount campaign.
///
/// A promotion may be constructed with any field values; whether it can be
/// applied is decided at evaluation time by the rule engine.
#[derive(Debug, Clone)]
pub struct Promotion {
    /// Unique code used to apply the promotion.
    pub code: String,

    /// Human-readable description; no semantic effect.
    pub description: String,

    /// Discount mechanics.
    pub discount: DiscountType,

    /// Optional maximum number of times the promo can be used;
    /// absent means unlimited.
    pub usage_limit: Option<u32>,

    /// Current number of times the promo has been used.
    pub used: u32,

    /// Validity start time (epoch seconds), inclusive.
    pub valid_from: u64,

    /// Validity end time (epoch seconds), inclusive.
    pub valid_until: u64,

    /// Minimum required transaction value to apply the promo, in minor
    /// currency units; absent means no floor.
    pub min_transaction: Option<u64>,

    /// Category or scope where this promo is valid.
    pub target: TargetScope,

    /// The currency used for the promotion (e.g., "USD", "EUR");
    /// informational only.
    pub currency: Option<String>,
}

} // verus!
