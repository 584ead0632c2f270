//! Attaches text announcements to tokens whose ownership is tracked by an
//! outside registry, committing a write only after the registry has named the
//! requesting account as the token's direct owner.

pub mod account;
pub mod contract;
pub mod interfaces;
pub mod laws;
