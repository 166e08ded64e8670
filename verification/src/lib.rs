//! A small, fully verified rules library for promotional discounts.
//!
//! A [`promotion::Promotion`] describes one discount campaign: its discount
//! rule, an inclusive validity window, an optional minimum transaction
//! amount, and an optional usage limit. The library decides whether a
//! promotion may be applied to a transaction at a given instant and, if so,
//! computes the discount.
//!
//! Monetary amounts are integers in minor currency units (for example,
//! cents), and percentages are integer percent values, so every computation
//! is exact and carries a proved contract.

/// Core data model: promotions, discount rules, and target scopes.
pub mod promotion;

/// The failure taxonomy for validation and application.
pub mod error;

/// The rule engine: the ordered eligibility checks and their specification.
pub mod rule_engine;

/// Discount computation from a discount rule and a transaction amount.
pub mod discount;

/// The service layer: the combined apply operation and the usage counter.
pub mod service;

