//! The two operations of the service: registering a user, and creating an
//! asset with its initial supply.

use vstd::prelude::*;
use crate::accounts::{
    AccountSlot, Context, CreateToken, InitializeUser, Mint, TokenAccount, UserAccount,
};
use crate::address::{
    address_view, derived_is, find_holding_address, find_mint_address, find_user_address,
    holding_address, is_derived, mint_address, user_address,
};
use crate::error::{
    IssuanceError, ACCOUNT_NOT_ASSOCIATED_TOKEN_ACCOUNT, CONSTRAINT_SEEDS, CONSTRAINT_TOKEN_MINT,
    CONSTRAINT_TOKEN_OWNER, TOKEN_OVERFLOW,
};
use crate::identity::Identity;
use crate::supply::{checked_scale, pow10, scaled};
use crate::token::{mint_to, outcome};

verus! {

impl InitializeUser {
    /// The fault of these accounts, given what the derivation found: the
    /// record's slot is not at the address derived from the caller. `None`
    /// where the accounts are in order.
    pub open spec fn fault(self, user_found: Option<(Seq<u8>, u8)>) -> Option<IssuanceError> {
        if !derived_is(user_found, self.user_account.address@) {
            Some(IssuanceError::ExternalInterfaceFailure(CONSTRAINT_SEEDS))
        } else {
            None
        }
    }

    /// The fault of these accounts under `program_id`, the address being
    /// derived from the caller.
    pub open spec fn validation_error(self, program_id: Identity) -> Option<IssuanceError> {
        self.fault(user_address(self.user@, program_id@))
    }

    /// Checks these accounts against the address that the derivation found.
    pub fn check(
        &self,
        user_found: &Option<(Identity, u8)>,
    ) -> (result: Result<(), IssuanceError>)
        ensures
            result == outcome(self.fault(address_view(*user_found))),
    {
        if !is_derived(user_found, &self.user_account.address) {
            return Err(IssuanceError::ExternalInterfaceFailure(CONSTRAINT_SEEDS));
        }
        Ok(())
    }

    /// Derives the record's address from the caller and checks these
    /// accounts against it.
    pub fn validate(&self, program_id: &Identity) -> (result: Result<(), IssuanceError>)
        ensures
            result == outcome(self.validation_error(*program_id)),
    {
        let user_found = find_user_address(&self.user, program_id);
        self.check(&user_found)
    }

    /// The accounts that a first registration by `user` under `program_id`
    /// runs on: the record's slot at its derived address, and empty. `None`
    /// where the derivation finds no address.
    pub fn for_user(user: Identity, program_id: &Identity) -> (derived: Option<InitializeUser>)
        ensures
            derived is Some <==> user_address(user@, program_id@) is Some,
            derived matches Some(accounts) ==> {
                &&& accounts.user == user
                &&& derived_is(user_address(user@, program_id@), accounts.user_account.address@)
                &&& accounts.user_account.state is None
                &&& accounts.validation_error(*program_id) is None
            },
    {
        match find_user_address(&user, program_id) {
            Some((address, _)) => Some(
                InitializeUser { user_account: AccountSlot { address, state: None }, user },
            ),
            None => None,
        }
    }
}

/// Why a registration on `ctx` is refused; `None` where it is carried out. A
/// slot that is not at the address derived from the caller comes first, then
/// a slot that holds a record already.
pub open spec fn initialize_user_error(ctx: Context<InitializeUser>) -> Option<IssuanceError> {
    if ctx.accounts.validation_error(ctx.program_id) is Some {
        ctx.accounts.validation_error(ctx.program_id)
    } else if ctx.accounts.user_account.state is Some {
        Some(IssuanceError::AlreadyInitialized)
    } else {
        None
    }
}

/// `ctx` once the caller's record has been created in its slot.
pub open spec fn registered(ctx: Context<InitializeUser>) -> Context<InitializeUser> {
    Context {
        program_id: ctx.program_id,
        accounts: InitializeUser {
            user_account: AccountSlot {
                address: ctx.accounts.user_account.address,
                state: Some(UserAccount { authority: ctx.accounts.user }),
            },
            user: ctx.accounts.user,
        },
    }
}

/// What a registration on `ctx` returns, and the accounts it leaves.
pub open spec fn initialize_user_step(ctx: Context<InitializeUser>) -> (
    Result<(), IssuanceError>,
    Context<InitializeUser>,
) {
    match initialize_user_error(ctx) {
        Some(e) => (Err(e), ctx),
        None => (Ok(()), registered(ctx)),
    }
}

/// Registers the caller: creates the record that the caller owns, in the
/// slot at the address derived from the caller's identity, so that one
/// identity has one record under one program. A slot at any other address is
/// refused with the ledger's seeds code; where the slot holds a record
/// already, the call fails with `AlreadyInitialized`. A refused call changes
/// nothing.
pub fn initialize_user(ctx: &mut Context<InitializeUser>) -> (result: Result<(), IssuanceError>)
    ensures
        (result, *final(ctx)) == initialize_user_step(*old(ctx)),
        result is Err ==> *final(ctx) == *old(ctx),
        result == Err::<(), IssuanceError>(IssuanceError::AlreadyInitialized) <==> old(
            ctx,
        ).accounts.validation_error(old(ctx).program_id) is None
            && old(ctx).accounts.user_account.state is Some,
        result is Ok ==> final(ctx).accounts.user_account.state == Some(
            UserAccount { authority: old(ctx).accounts.user },
        ),
{
    match ctx.accounts.validate(&ctx.program_id) {
        Err(e) => {
            return Err(e);
        },
        Ok(()) => {},
    }
    if ctx.accounts.user_account.state.is_some() {
        return Err(IssuanceError::AlreadyInitialized);
    }
    ctx.accounts.user_account.state = Some(UserAccount { authority: ctx.accounts.user });
    Ok(())
}

impl CreateToken {
    /// The first fault of these accounts, given what the two derivations
    /// found: the descriptor's slot is not at the asset's address, the
    /// holding account's slot is not at the address derived from payer and
    /// asset, or the holding account that exists there is of another asset
    /// or of another owner. `None` where the accounts are in order.
    pub open spec fn fault(
        self,
        mint_found: Option<(Seq<u8>, u8)>,
        holding_found: Option<(Seq<u8>, u8)>,
    ) -> Option<IssuanceError> {
        if !derived_is(mint_found, self.mint.address@) {
            Some(IssuanceError::ExternalInterfaceFailure(CONSTRAINT_SEEDS))
        } else if !derived_is(holding_found, self.token_account.address@) {
            Some(IssuanceError::ExternalInterfaceFailure(ACCOUNT_NOT_ASSOCIATED_TOKEN_ACCOUNT))
        } else if self.token_account.state is Some && self.token_account.state->0.mint
            != self.mint.address {
            Some(IssuanceError::ExternalInterfaceFailure(CONSTRAINT_TOKEN_MINT))
        } else if self.token_account.state is Some && self.token_account.state->0.owner
            != self.payer {
            Some(IssuanceError::ExternalInterfaceFailure(CONSTRAINT_TOKEN_OWNER))
        } else {
            None
        }
    }

    /// The first fault of these accounts under `program_id`, the addresses
    /// being derived from the payer.
    pub open spec fn validation_error(self, program_id: Identity) -> Option<IssuanceError> {
        self.fault(
            mint_address(self.payer@, program_id@),
            holding_address(self.payer@, self.mint.address@),
        )
    }

    /// Checks these accounts against the addresses that the two derivations
    /// found, and reports the first fault.
    pub fn check(
        &self,
        mint_found: &Option<(Identity, u8)>,
        holding_found: &Option<(Identity, u8)>,
    ) -> (result: Result<(), IssuanceError>)
        ensures
            result == outcome(self.fault(address_view(*mint_found), address_view(*holding_found))),
    {
        if !is_derived(mint_found, &self.mint.address) {
            return Err(IssuanceError::ExternalInterfaceFailure(CONSTRAINT_SEEDS));
        }
        if !is_derived(holding_found, &self.token_account.address) {
            return Err(
                IssuanceError::ExternalInterfaceFailure(ACCOUNT_NOT_ASSOCIATED_TOKEN_ACCOUNT),
            );
        }
        match self.token_account.state {
            Some(holding) => {
                proof {
                    Identity::lemma_view_injective(holding.mint, self.mint.address);
                    Identity::lemma_view_injective(holding.owner, self.payer);
                }
                if holding.mint != self.mint.address {
                    return Err(IssuanceError::ExternalInterfaceFailure(CONSTRAINT_TOKEN_MINT));
                }
                if holding.owner != self.payer {
                    return Err(IssuanceError::ExternalInterfaceFailure(CONSTRAINT_TOKEN_OWNER));
                }
                Ok(())
            },
            None => Ok(()),
        }
    }

    /// Derives the two addresses from the payer and checks these accounts
    /// against them.
    pub fn validate(&self, program_id: &Identity) -> (result: Result<(), IssuanceError>)
        ensures
            result == outcome(self.validation_error(*program_id)),
    {
        let mint_found = find_mint_address(&self.payer, program_id);
        let holding_found = find_holding_address(&self.payer, &self.mint.address);
        self.check(&mint_found, &holding_found)
    }

    /// The accounts that a first creation by `payer` under `program_id`
    /// runs on: both slots at their derived addresses, and empty. `None`
    /// where a derivation finds no address.
    pub fn for_payer(payer: Identity, program_id: &Identity) -> (derived: Option<CreateToken>)
        ensures
            derived is Some <==> (mint_address(payer@, program_id@) matches Some((asset, _))
                && holding_address(payer@, asset) is Some),
            derived matches Some(accounts) ==> {
                &&& accounts.payer == payer
                &&& derived_is(mint_address(payer@, program_id@), accounts.mint.address@)
                &&& derived_is(
                    holding_address(payer@, accounts.mint.address@),
                    accounts.token_account.address@,
                )
                &&& accounts.mint.state is None
                &&& accounts.token_account.state is None
                &&& accounts.validation_error(*program_id) is None
            },
    {
        let mint = match find_mint_address(&payer, program_id) {
            Some((address, _)) => address,
            None => {
                return None;
            },
        };
        let holding = match find_holding_address(&payer, &mint) {
            Some((address, _)) => address,
            None => {
                return None;
            },
        };
        Some(
            CreateToken {
                mint: AccountSlot { address: mint, state: None },
                token_account: AccountSlot { address: holding, state: None },
                payer,
            },
        )
    }

    /// The balance of the holding account: zero while it does not exist.
    pub open spec fn held(self) -> nat {
        match self.token_account.state {
            Some(holding) => holding.amount as nat,
            None => 0,
        }
    }
}

/// Why a creation on `ctx` is refused; `None` where it is carried out. An
/// overflowing supply comes first, then a fault of the accounts, then an
/// asset that exists already, then a balance that would exceed 64 bits.
pub open spec fn create_token_error(
    ctx: Context<CreateToken>,
    decimals: u8,
    initial_supply: u64,
) -> Option<IssuanceError> {
    if scaled(initial_supply, decimals) > u64::MAX {
        Some(IssuanceError::SupplyOverflow)
    } else if ctx.accounts.validation_error(ctx.program_id) is Some {
        ctx.accounts.validation_error(ctx.program_id)
    } else if ctx.accounts.mint.state is Some {
        Some(IssuanceError::AssetAlreadyExists)
    } else if ctx.accounts.held() + scaled(initial_supply, decimals) > u64::MAX {
        Some(IssuanceError::ExternalInterfaceFailure(TOKEN_OVERFLOW))
    } else {
        None
    }
}

/// `ctx` once the asset has been created with the payer as its authority
/// and the scaled supply has been credited to the payer's holding account.
pub open spec fn issued(
    ctx: Context<CreateToken>,
    decimals: u8,
    initial_supply: u64,
) -> Context<CreateToken> {
    Context {
        program_id: ctx.program_id,
        accounts: CreateToken {
            mint: AccountSlot {
                address: ctx.accounts.mint.address,
                state: Some(
                    Mint {
                        decimals,
                        mint_authority: ctx.accounts.payer,
                        freeze_authority: Some(ctx.accounts.payer),
                    },
                ),
            },
            token_account: AccountSlot {
                address: ctx.accounts.token_account.address,
                state: Some(
                    TokenAccount {
                        owner: ctx.accounts.payer,
                        mint: ctx.accounts.mint.address,
                        amount: (ctx.accounts.held() + scaled(initial_supply, decimals)) as u64,
                    },
                ),
            },
            payer: ctx.accounts.payer,
        },
    }
}

/// What a creation on `ctx` returns, and the accounts it leaves.
pub open spec fn create_token_step(
    ctx: Context<CreateToken>,
    decimals: u8,
    initial_supply: u64,
) -> (Result<(), IssuanceError>, Context<CreateToken>) {
    match create_token_error(ctx, decimals, initial_supply) {
        Some(e) => (Err(e), ctx),
        None => (Ok(()), issued(ctx, decimals, initial_supply)),
    }
}

/// Creates the caller's asset and mints its initial supply: the descriptor
/// gets `decimals` and the payer as mint and freeze authority, the payer's
/// holding account is created unless it exists, and `initial_supply *
/// 10^decimals` base units are added to its balance. Either all of this
/// happens or, with an error, none of it.
pub fn create_token(
    ctx: &mut Context<CreateToken>,
    decimals: u8,
    initial_supply: u64,
) -> (result: Result<(), IssuanceError>)
    ensures
        (result, *final(ctx)) == create_token_step(*old(ctx), decimals, initial_supply),
        result is Err ==> *final(ctx) == *old(ctx),
        scaled(initial_supply, decimals) > u64::MAX ==> result == Err::<(), IssuanceError>(
            IssuanceError::SupplyOverflow,
        ),
        result is Ok ==> final(ctx).accounts.held() == old(ctx).accounts.held() + initial_supply
            * pow10(decimals as nat),
{
    let units = match checked_scale(initial_supply, decimals) {
        Some(units) => units,
        None => {
            return Err(IssuanceError::SupplyOverflow);
        },
    };
    match ctx.accounts.validate(&ctx.program_id) {
        Err(e) => {
            return Err(e);
        },
        Ok(()) => {},
    }
    if ctx.accounts.mint.state.is_some() {
        return Err(IssuanceError::AssetAlreadyExists);
    }
    let payer = ctx.accounts.payer;
    let asset = ctx.accounts.mint.address;
    let mint = Mint { decimals, mint_authority: payer, freeze_authority: Some(payer) };
    let mut holding = match ctx.accounts.token_account.state {
        Some(holding) => holding,
        None => TokenAccount { owner: payer, mint: asset, amount: 0 },
    };
    match mint_to(&asset, &mint, &mut holding, &payer, units) {
        Err(e) => {
            return Err(e);
        },
        Ok(()) => {},
    }
    ctx.accounts.mint.state = Some(mint);
    ctx.accounts.token_account.state = Some(holding);
    Ok(())
}

} // verus!
