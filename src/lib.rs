//! Storage access policies for relational entities: how what the engine
//! reports is classified into the storage error taxonomy, how fallbacks and
//! selections are decided, and which predicates the payment-attempt queries
//! issue.
pub mod errors;
pub mod generics;
pub mod payment_attempt;
pub mod laws;
