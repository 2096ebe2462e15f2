//! Verified core of a token issuance service: registering a per-caller user
//! record, and creating a fungible asset whose initial supply is minted into
//! the creator's holding account.

pub mod accounts;
pub mod address;
pub mod error;
pub mod identity;
pub mod instructions;
pub mod laws;
pub mod supply;
pub mod token;
