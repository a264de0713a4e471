//! The persistent record of one lock and the accounts as an instruction sees them.

pub mod accounts;
pub mod config_account;
pub mod layout;
