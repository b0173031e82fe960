//! The services of the ledger runtime that the engines consume: the clock,
//! the token program that moves an asset between holdings, and the runtime's
//! empty address.
//!
//! Nothing in this module is proved. Each function makes one call into the
//! runtime's libraries, and its contract, where it has one, is taken from
//! their source.

use vstd::prelude::*;
use crate::auction::TransferOrder;
use crate::identity::Identity;
use anchor_lang::context::CpiContext;
use anchor_lang::prelude::SolanaSysvar;
use anchor_lang::solana_program::clock::Clock;
use anchor_lang::solana_program::program_error::ProgramError;
use anchor_lang::solana_program::pubkey::Pubkey;
use anchor_spl::token::Transfer;

verus! {

/// `AccountInfo`: a holding or a signer as the runtime hands it to a program.
/// Its content is never read here: it is carried to the token program.
#[verifier::external_type_specification]
#[verifier::external_body]
pub struct ExAccountInfo<'a>(anchor_lang::solana_program::account_info::AccountInfo<'a>);

/// `ProgramError`: the runtime's own failure codes. Only the fact of a
/// failure is used.
#[verifier::external_type_specification]
#[verifier::external_body]
pub struct ExProgramError(anchor_lang::solana_program::program_error::ProgramError);

/// `anchor_lang::error::Error`: the failure that a call into another program
/// reports. Only the fact of a failure is used.
#[verifier::external_type_specification]
#[verifier::external_body]
pub struct ExCallError(anchor_lang::error::Error);

/// `Pubkey::default()`, as bytes. The address type derives `Default` over its
/// 32-byte array, so every byte is zero.
#[verifier::external_body]
pub(crate) fn empty_address() -> (id: Identity)
    ensures
        id.is_null(),
{
    Identity { bytes: Pubkey::default().to_bytes() }
}

/// `Clock::get()`, reduced to its `unix_timestamp`. Nothing is claimed of the
/// value: it is whatever the runtime reports, and the runtime may refuse, as
/// it always does outside a running program.
#[verifier::external_body]
pub(crate) fn clock_unix_timestamp() -> (r: Result<i64, ProgramError>) {
    match Clock::get() {
        Ok(clock) => Ok(clock.unix_timestamp),
        Err(e) => Err(e),
    }
}

/// `anchor_spl::token::transfer`, with a context that has no signer seeds
/// and no further accounts: asks the token program to move `order.amount`
/// units from `order.from` to `order.to` on behalf of `order.authority`.
/// Nothing is claimed of the outcome, which the token program decides. Inside
/// a running program a refusal may end the whole request instead of coming
/// back as an error; nothing that the request did is kept then.
#[verifier::external_body]
pub(crate) fn token_transfer(
    order: &TransferOrder<'_, '_>,
) -> (r: Result<(), anchor_lang::error::Error>) {
    let accounts = Transfer {
        from: order.from.clone(),
        to: order.to.clone(),
        authority: order.authority.clone(),
    };
    anchor_spl::token::transfer(CpiContext::new(anchor_spl::token::ID, accounts), order.amount)
}

} // verus!
