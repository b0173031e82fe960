//! The lending engine: offer creation and borrow admission of one `Lending`
//! record.

use vstd::prelude::*;
use crate::error::LendingError;
use crate::identity::Identity;
use crate::ledger::empty_address;

verus! {

/// The durable record of one lending offer.
#[derive(Clone, Copy, Debug, PartialEq, Eq)]
pub struct Lending {
    /// Creator of the offer.
    pub lender: Identity,
    /// The asset on offer.
    pub nft_mint: Identity,
    /// The collateral that a borrower must offer at least.
    pub loan_amount: u64,
    /// Who borrowed the asset; the null identity until somebody has.
    pub borrower: Identity,
    /// True while the asset can be borrowed.
    pub is_active: bool,
}

/// A request to offer an asset: the caller, who becomes the lender, the asset,
/// and the record that was allocated for the offer.
#[derive(Clone, Copy, Debug, PartialEq, Eq)]
pub struct LendNft {
    pub lender: Identity,
    pub nft_mint: Identity,
    pub lending: Lending,
}

/// A request to borrow: the caller and the offer.
#[derive(Clone, Copy, Debug, PartialEq, Eq)]
pub struct BorrowNft {
    pub borrower: Identity,
    pub lending: Lending,
}

impl Lending {
    /// True of the record of an offer that `lender` just made of `nft_mint`:
    /// it is available and has no borrower.
    pub open spec fn is_offered(self, lender: Identity, nft_mint: Identity, loan_amount: u64) -> bool {
        &&& self.lender == lender
        &&& self.nft_mint == nft_mint
        &&& self.loan_amount == loan_amount
        &&& self.borrower.is_null()
        &&& self.is_active
    }

    /// What a request to borrow against `collateral_amount` is answered.
    /// Availability is checked first, then the collateral.
    pub open spec fn borrow_verdict(self, collateral_amount: u64) -> Result<(), LendingError> {
        if !self.is_active {
            Err(LendingError::NotAvailable)
        } else if collateral_amount < self.loan_amount {
            Err(LendingError::InsufficientCollateral)
        } else {
            Ok(())
        }
    }

    /// The record after `borrower` has asked to borrow against
    /// `collateral_amount`: taken by the borrower if the request is admitted,
    /// as it was if not.
    pub open spec fn after_request(self, borrower: Identity, collateral_amount: u64) -> Lending {
        if self.borrow_verdict(collateral_amount) is Ok {
            Lending { borrower: borrower, is_active: false, ..self }
        } else {
            self
        }
    }
}

/// Makes the offer: the caller becomes the lender, and the record starts
/// available and without a borrower. This never fails.
pub fn lend_nft(ctx: &mut LendNft, loan_amount: u64) -> (res: Result<(), LendingError>)
    ensures
        res is Ok,
        final(ctx).lender == old(ctx).lender,
        final(ctx).nft_mint == old(ctx).nft_mint,
        final(ctx).lending.is_offered(old(ctx).lender, old(ctx).nft_mint, loan_amount),
{
    ctx.lending.lender = ctx.lender;
    ctx.lending.nft_mint = ctx.nft_mint;
    ctx.lending.loan_amount = loan_amount;
    ctx.lending.borrower = empty_address();
    ctx.lending.is_active = true;
    Ok(())
}

/// Admits or refuses a request to borrow against `collateral_amount`.
///
/// A record that was borrowed before is refused whatever the collateral. An
/// available one is taken exactly when the collateral is at least the loan
/// amount. A refused request leaves the record as it was.
pub fn borrow_nft(ctx: &mut BorrowNft, collateral_amount: u64) -> (res: Result<(), LendingError>)
    ensures
        final(ctx).borrower == old(ctx).borrower,
        res == old(ctx).lending.borrow_verdict(collateral_amount),
        final(ctx).lending == old(ctx).lending.after_request(old(ctx).borrower, collateral_amount),
        !old(ctx).lending.is_active ==> res == Err::<(), LendingError>(LendingError::NotAvailable),
        old(ctx).lending.is_active && collateral_amount < old(ctx).lending.loan_amount ==> res
            == Err::<(), LendingError>(LendingError::InsufficientCollateral),
        old(ctx).lending.is_active && collateral_amount >= old(ctx).lending.loan_amount
            ==> res is Ok,
        res is Err ==> final(ctx).lending == old(ctx).lending,
        res is Ok ==> final(ctx).lending == (Lending {
            borrower: old(ctx).borrower,
            is_active: false,
            ..old(ctx).lending
        }),
{
    if !ctx.lending.is_active {
        return Err(LendingError::NotAvailable);
    }
    if collateral_amount < ctx.lending.loan_amount {
        return Err(LendingError::InsufficientCollateral);
    }
    ctx.lending.borrower = ctx.borrower;
    ctx.lending.is_active = false;
    Ok(())
}

} // verus!
