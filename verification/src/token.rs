//! The mint operation of the token interface, on the service's own records.

use vstd::prelude::*;
use crate::accounts::{Mint, TokenAccount};
use crate::error::{IssuanceError, TOKEN_MINT_MISMATCH, TOKEN_OVERFLOW};
use crate::identity::Identity;

verus! {

/// `Err` of the error, or `Ok` where there is none.
pub open spec fn outcome(error: Option<IssuanceError>) -> Result<(), IssuanceError> {
    match error {
        Some(e) => Err(e),
        None => Ok(()),
    }
}

/// Why a mint of `amount` units of the asset at `mint_address` into
/// `destination`, asked for by `authority`, is refused; `None` where it is
/// carried out.
pub open spec fn mint_to_error(
    mint_address: Identity,
    mint: Mint,
    destination: TokenAccount,
    authority: Identity,
    amount: u64,
) -> Option<IssuanceError> {
    if authority != mint.mint_authority {
        Some(IssuanceError::Unauthorized)
    } else if destination.mint != mint_address {
        Some(IssuanceError::ExternalInterfaceFailure(TOKEN_MINT_MISMATCH))
    } else if destination.amount + amount > u64::MAX {
        Some(IssuanceError::ExternalInterfaceFailure(TOKEN_OVERFLOW))
    } else {
        None
    }
}

/// `destination` with `amount` more units.
pub open spec fn credited(destination: TokenAccount, amount: u64) -> TokenAccount {
    TokenAccount {
        owner: destination.owner,
        mint: destination.mint,
        amount: (destination.amount + amount) as u64,
    }
}

/// Mints `amount` base units of the asset at `mint_address` into
/// `destination`. Only the asset's mint authority may do so, only into a
/// holding account of that asset, and only while the balance fits in 64
/// bits; a refused mint leaves the balance as it was.
pub fn mint_to(
    mint_address: &Identity,
    mint: &Mint,
    destination: &mut TokenAccount,
    authority: &Identity,
    amount: u64,
) -> (result: Result<(), IssuanceError>)
    ensures
        result == outcome(
            mint_to_error(*mint_address, *mint, *old(destination), *authority, amount),
        ),
        result is Err ==> *final(destination) == *old(destination),
        result is Ok ==> *final(destination) == credited(*old(destination), amount),
        *authority != mint.mint_authority ==> result == Err::<(), IssuanceError>(
            IssuanceError::Unauthorized,
        ),
{
    proof {
        Identity::lemma_view_injective(*authority, mint.mint_authority);
        Identity::lemma_view_injective(destination.mint, *mint_address);
    }
    if *authority != mint.mint_authority {
        return Err(IssuanceError::Unauthorized);
    }
    if destination.mint != *mint_address {
        return Err(IssuanceError::ExternalInterfaceFailure(TOKEN_MINT_MISMATCH));
    }
    match destination.amount.checked_add(amount) {
        Some(balance) => {
            destination.amount = balance;
            Ok(())
        },
        None => Err(IssuanceError::ExternalInterfaceFailure(TOKEN_OVERFLOW)),
    }
}

} // verus!
