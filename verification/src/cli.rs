//! What the command-line front end computes between reading and writing:
//! sealing a private key under a password, and the text of its config file.

pub mod action;
pub mod cipher;
pub mod config_file;
pub mod instructions;
