//! A deterministic authorization layer between an untrusted recommender and
//! a set of privileged operations. The policy evaluator maps a requested
//! action and a security context to a permit/deny decision, reporting the
//! rule applied, a reason, a compliance control reference and whether to
//! audit. A second, independent validator handles data-subject erasure
//! requests. Both are pure functions: no I/O, no clock, no state across
//! calls.

pub mod actions;
pub mod decimal;
pub mod erasure;
pub mod policy;

pub use erasure::{validate_gdpr_deletion, DeletionDecision};
pub use policy::{evaluate_policy, AiRequest, PolicyDecision, SecurityContext};
