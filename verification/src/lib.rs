pub mod account;
pub mod address;
pub mod config;
pub mod derivation;
pub mod error;
pub mod identity;
pub mod resolve;
