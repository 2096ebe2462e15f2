//! The ways in which an operation of the service fails.

use vstd::prelude::*;

verus! {

/// Why an operation was refused. A refused operation changes nothing.
#[derive(Clone, Copy, Debug, PartialEq, Eq, Structural)]
pub enum IssuanceError {
    /// The caller's user record exists already.
    AlreadyInitialized,
    /// The scaled supply does not fit in 64 bits.
    SupplyOverflow,
    /// The identity that asks for the mint is not the asset's mint authority.
    Unauthorized,
    /// The asset derived for the caller exists already.
    AssetAlreadyExists,
    /// A failure of the ledger or of the token interface, with the code
    /// under which that collaborator reports it.
    ExternalInterfaceFailure(u32),
}

/// The ledger's code for an account that is not at the address derived from
/// its seeds.
pub const CONSTRAINT_SEEDS: u32 = 2006;

/// The ledger's code for a holding account of another asset.
pub const CONSTRAINT_TOKEN_MINT: u32 = 2014;

/// The ledger's code for a holding account of another owner.
pub const CONSTRAINT_TOKEN_OWNER: u32 = 2015;

/// The ledger's code for a holding account that is not at the address
/// derived from its owner and asset.
pub const ACCOUNT_NOT_ASSOCIATED_TOKEN_ACCOUNT: u32 = 3014;

/// The token interface's code for a destination that holds another asset.
pub const TOKEN_MINT_MISMATCH: u32 = 3;

/// The token interface's code for a balance that would exceed 64 bits.
pub const TOKEN_OVERFLOW: u32 = 14;

} // verus!
