//! What holds of the operations across calls and states.

use vstd::prelude::*;
use crate::accounts::{Context, CreateToken, InitializeUser, Mint, TokenAccount, UserAccount};
use crate::error::{IssuanceError, CONSTRAINT_SEEDS, TOKEN_OVERFLOW};
use crate::identity::Identity;
use crate::instructions::{create_token_error, create_token_step, initialize_user_step, issued};
use crate::supply::{pow10, scaled};
use crate::token::{credited, mint_to_error};

verus! {

/// A first creation mints exactly the scaled supply: on accounts that are in
/// order and hold neither the asset nor the holding account yet, a creation
/// whose scaled supply fits in 64 bits succeeds, and the payer's new holding
/// account holds `initial_supply * 10^decimals` units of the asset.
pub proof fn law_first_creation_mints_scaled_supply(
    ctx: Context<CreateToken>,
    decimals: u8,
    initial_supply: u64,
)
    requires
        ctx.accounts.validation_error(ctx.program_id) is None,
        ctx.accounts.mint.state is None,
        ctx.accounts.token_account.state is None,
        initial_supply * pow10(decimals as nat) <= u64::MAX,
    ensures
        create_token_step(ctx, decimals, initial_supply).0 is Ok,
        create_token_step(ctx, decimals, initial_supply).1.accounts.token_account.state == Some(
            TokenAccount {
                owner: ctx.accounts.payer,
                mint: ctx.accounts.mint.address,
                amount: (initial_supply * pow10(decimals as nat)) as u64,
            },
        ),
{
}

/// A supply that overflows creates nothing: whatever the accounts, a
/// creation whose scaled supply exceeds 64 bits fails with `SupplyOverflow`
/// and leaves the accounts as they were.
pub proof fn law_overflow_creates_nothing(
    ctx: Context<CreateToken>,
    decimals: u8,
    initial_supply: u64,
)
    requires
        initial_supply * pow10(decimals as nat) > u64::MAX,
    ensures
        create_token_step(ctx, decimals, initial_supply) == (
            Err::<(), IssuanceError>(IssuanceError::SupplyOverflow),
            ctx,
        ),
{
}

/// A record is written once: on the accounts that a successful registration
/// left, the record is the caller's, and a further registration fails with
/// `AlreadyInitialized` and leaves that record as it is.
pub proof fn law_second_registration_refused(ctx: Context<InitializeUser>)
    requires
        initialize_user_step(ctx).0 is Ok,
    ensures
        initialize_user_step(ctx).1.accounts.user_account.state == Some(
            UserAccount { authority: ctx.accounts.user },
        ),
        initialize_user_step(initialize_user_step(ctx).1) == (
            Err::<(), IssuanceError>(IssuanceError::AlreadyInitialized),
            initialize_user_step(ctx).1,
        ),
{
}

/// One identity has one slot: two registrations by the same identity under
/// the same program, neither of them refused for its address, are on slots
/// at the same address.
pub proof fn law_one_slot_per_identity(
    first: Context<InitializeUser>,
    second: Context<InitializeUser>,
)
    requires
        first.program_id == second.program_id,
        first.accounts.user == second.accounts.user,
        first.accounts.validation_error(first.program_id) is None,
        second.accounts.validation_error(second.program_id) is None,
    ensures
        first.accounts.user_account.address == second.accounts.user_account.address,
{
    Identity::lemma_view_injective(
        first.accounts.user_account.address,
        second.accounts.user_account.address,
    );
}

/// No second record elsewhere: once an identity has registered, a
/// registration by the same identity under the same program on a slot at any
/// other address is refused with the ledger's seeds code, whatever that slot
/// holds, and changes nothing.
pub proof fn law_no_second_record_elsewhere(
    first: Context<InitializeUser>,
    second: Context<InitializeUser>,
)
    requires
        initialize_user_step(first).0 is Ok,
        first.program_id == second.program_id,
        first.accounts.user == second.accounts.user,
        first.accounts.user_account.address != second.accounts.user_account.address,
    ensures
        initialize_user_step(second) == (
            Err::<(), IssuanceError>(IssuanceError::ExternalInterfaceFailure(CONSTRAINT_SEEDS)),
            second,
        ),
{
    Identity::lemma_view_injective(
        first.accounts.user_account.address,
        second.accounts.user_account.address,
    );
}

/// A registered identity cannot register again: once an identity has
/// registered, a registration by the same identity under the same program,
/// handed the slot at the same address with the record that the first left
/// in it, fails with `AlreadyInitialized` and changes nothing.
pub proof fn law_registered_identity_is_refused(
    first: Context<InitializeUser>,
    second: Context<InitializeUser>,
)
    requires
        initialize_user_step(first).0 is Ok,
        first.program_id == second.program_id,
        first.accounts.user == second.accounts.user,
        second.accounts.user_account.address == first.accounts.user_account.address,
        second.accounts.user_account.state == initialize_user_step(
            first,
        ).1.accounts.user_account.state,
    ensures
        initialize_user_step(second) == (
            Err::<(), IssuanceError>(IssuanceError::AlreadyInitialized),
            second,
        ),
{
}

/// A holding account that exists is kept: where the payer's holding account
/// for the asset exists before the creation, the creation leaves its owner
/// and asset as they are and adds the scaled supply to its balance, provided
/// that the sum fits in 64 bits.
pub proof fn law_existing_holding_account_accumulates(
    ctx: Context<CreateToken>,
    decimals: u8,
    initial_supply: u64,
)
    requires
        ctx.accounts.validation_error(ctx.program_id) is None,
        ctx.accounts.mint.state is None,
        ctx.accounts.token_account.state is Some,
        ctx.accounts.token_account.state->0.amount + initial_supply * pow10(decimals as nat)
            <= u64::MAX,
    ensures
        create_token_step(ctx, decimals, initial_supply).0 is Ok,
        create_token_step(ctx, decimals, initial_supply).1.accounts.token_account.state == Some(
            TokenAccount {
                owner: ctx.accounts.token_account.state->0.owner,
                mint: ctx.accounts.token_account.state->0.mint,
                amount: (ctx.accounts.token_account.state->0.amount + initial_supply * pow10(
                    decimals as nat,
                )) as u64,
            },
        ),
{
}

/// A balance that would exceed 64 bits is refused: on accounts that are in
/// order and hold no asset yet, a creation whose scaled supply fits but
/// whose sum with the balance held does not fails with the token
/// interface's overflow code, and changes nothing.
pub proof fn law_balance_overflow_refused(
    ctx: Context<CreateToken>,
    decimals: u8,
    initial_supply: u64,
)
    requires
        ctx.accounts.validation_error(ctx.program_id) is None,
        ctx.accounts.mint.state is None,
        initial_supply * pow10(decimals as nat) <= u64::MAX,
        ctx.accounts.held() + initial_supply * pow10(decimals as nat) > u64::MAX,
    ensures
        create_token_step(ctx, decimals, initial_supply) == (
            Err::<(), IssuanceError>(IssuanceError::ExternalInterfaceFailure(TOKEN_OVERFLOW)),
            ctx,
        ),
{
}

/// An asset is created once per caller: after a creation that succeeded, no
/// further creation on the same accounts succeeds, whatever its decimals and
/// supply. It fails with `SupplyOverflow` where its own scaled supply
/// overflows, else with `AssetAlreadyExists`, and changes nothing.
pub proof fn law_asset_created_once(
    ctx: Context<CreateToken>,
    decimals: u8,
    initial_supply: u64,
    later_decimals: u8,
    later_supply: u64,
)
    requires
        create_token_step(ctx, decimals, initial_supply).0 is Ok,
    ensures
        create_token_step(
            create_token_step(ctx, decimals, initial_supply).1,
            later_decimals,
            later_supply,
        ) == (
            Err::<(), IssuanceError>(
                if later_supply * pow10(later_decimals as nat) > u64::MAX {
                    IssuanceError::SupplyOverflow
                } else {
                    IssuanceError::AssetAlreadyExists
                },
            ),
            create_token_step(ctx, decimals, initial_supply).1,
        ),
{
    let after = issued(ctx, decimals, initial_supply);
    assert(create_token_error(ctx, decimals, initial_supply) is None);
    assert(after.accounts.validation_error(after.program_id) is None);
}

/// After a creation the payer can mint more: a mint into the holding
/// account that a successful creation left, asked for by the payer, is
/// refused only where the balance would exceed 64 bits, and otherwise adds
/// the amount to the balance.
pub proof fn law_payer_mints_again(
    ctx: Context<CreateToken>,
    decimals: u8,
    initial_supply: u64,
    amount: u64,
)
    requires
        create_token_step(ctx, decimals, initial_supply).0 is Ok,
    ensures
        ({
            let after = create_token_step(ctx, decimals, initial_supply).1.accounts;
            let refusal = mint_to_error(
                after.mint.address,
                after.mint.state->0,
                after.token_account.state->0,
                after.payer,
                amount,
            );
            &&& after.mint.state is Some
            &&& after.token_account.state is Some
            &&& refusal == if after.held() + amount > u64::MAX {
                Some(IssuanceError::ExternalInterfaceFailure(TOKEN_OVERFLOW))
            } else {
                None
            }
            &&& credited(after.token_account.state->0, amount).amount == (after.held()
                + amount) as u64
        }),
{
}

/// Only the mint authority mints: a mint asked for by any other identity is
/// refused with `Unauthorized`, whatever the asset, the destination and the
/// amount.
pub proof fn law_stranger_cannot_mint(
    mint_address: Identity,
    mint: Mint,
    destination: TokenAccount,
    authority: Identity,
    amount: u64,
)
    requires
        authority != mint.mint_authority,
    ensures
        mint_to_error(mint_address, mint, destination, authority, amount) == Some(
            IssuanceError::Unauthorized,
        ),
{
}

} // verus!
