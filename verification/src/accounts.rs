//! The records of the service and the accounts an operation is handed.

use vstd::prelude::*;
use crate::identity::Identity;

verus! {

/// The record of a registered user.
#[derive(Clone, Copy, Debug, PartialEq, Eq)]
pub struct UserAccount {
    /// The identity that registered, and owns, the record.
    pub authority: Identity,
}

/// The descriptor of a fungible asset. It is fixed once created.
#[derive(Clone, Copy, Debug, PartialEq, Eq)]
pub struct Mint {
    /// One token is divided into `10^decimals` base units.
    pub decimals: u8,
    /// The identity that may increase the supply.
    pub mint_authority: Identity,
    /// The identity that may freeze holding accounts, if there is one.
    pub freeze_authority: Option<Identity>,
}

/// The balance that one owner holds of one asset.
#[derive(Clone, Copy, Debug, PartialEq, Eq)]
pub struct TokenAccount {
    /// The owner of the balance.
    pub owner: Identity,
    /// The address of the asset's descriptor.
    pub mint: Identity,
    /// The balance, in base units.
    pub amount: u64,
}

/// A place on the ledger: its address, and what is stored there, if
/// anything has been created at it.
#[derive(Clone, Copy, Debug, PartialEq, Eq)]
pub struct AccountSlot<T> {
    /// Where the slot is.
    pub address: Identity,
    /// What the slot holds; `None` until something is created in it.
    pub state: Option<T>,
}

/// The accounts of a user registration.
#[derive(Clone, Copy, Debug, PartialEq, Eq)]
pub struct InitializeUser {
    /// Where the user's record is to be created.
    pub user_account: AccountSlot<UserAccount>,
    /// The caller.
    pub user: Identity,
}

/// The accounts of a token creation.
#[derive(Clone, Copy, Debug, PartialEq, Eq)]
pub struct CreateToken {
    /// Where the asset's descriptor is to be created.
    pub mint: AccountSlot<Mint>,
    /// The caller's holding account for the asset.
    pub token_account: AccountSlot<TokenAccount>,
    /// The caller, who pays and becomes the mint authority.
    pub payer: Identity,
}

/// What an operation runs on: the program that is invoked and the accounts
/// it is handed.
#[derive(Clone, Copy, Debug, PartialEq, Eq)]
pub struct Context<T> {
    /// The program that is invoked.
    pub program_id: Identity,
    /// The accounts that the operation reads and changes.
    pub accounts: T,
}

} // verus!
