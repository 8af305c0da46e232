//! Core of an account-registration service: input preparation, idempotent
//! account creation under an email-uniqueness constraint, verification-code
//! generation, and the commit-then-notify workflow with its failure policy.

pub mod code;
pub mod dispatch;
pub mod repository;
pub mod secret;
pub mod workflow;
