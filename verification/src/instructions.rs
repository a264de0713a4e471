//! The instructions: one that creates a lock, two that move value out of a vault.

pub mod authorize;
pub mod create_config;
pub mod transfer_sol;
pub mod transfer_token;
