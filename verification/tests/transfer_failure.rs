use anchor_lang::compat::solana_sysvar::program_stubs::{set_syscall_stubs, SyscallStubs};
use anchor_lang::solana_program::account_info::AccountInfo;
use anchor_lang::solana_program::entrypoint::ProgramResult;
use anchor_lang::solana_program::instruction::Instruction;
use anchor_lang::solana_program::program_error::ProgramError;
use anchor_lang::solana_program::pubkey::Pubkey;
use nft_defi::{finalize_auction_at, Auction, FinalizeAuction, Identity, MarketError};

/// A token program that refuses every transfer out of an empty vault, which
/// here is one whose key starts with 0.
struct EmptyVaults;

impl SyscallStubs for EmptyVaults {
    fn sol_invoke_signed(
        &self,
        instruction: &Instruction,
        _account_infos: &[AccountInfo],
        _signers_seeds: &[&[&[u8]]],
    ) -> ProgramResult {
        if instruction.accounts[0].pubkey.to_bytes()[0] == 0 {
            Err(ProgramError::InsufficientFunds)
        } else {
            Ok(())
        }
    }
}

struct Holding {
    key: Pubkey,
    owner: Pubkey,
    lamports: u64,
    data: Vec<u8>,
}

impl Holding {
    fn new(key: [u8; 32]) -> Holding {
        Holding {
            key: Pubkey::new_from_array(key),
            owner: Pubkey::new_from_array([200; 32]),
            lamports: 1,
            data: vec![0u8; 8],
        }
    }

    fn info(&mut self, is_signer: bool) -> AccountInfo<'_> {
        AccountInfo::new(
            &self.key,
            is_signer,
            true,
            &mut self.lamports,
            &mut self.data,
            &self.owner,
            false,
        )
    }
}

fn id(tag: u8) -> Identity {
    Identity { bytes: [tag; 32] }
}

fn ended(finalized: bool) -> Auction {
    Auction {
        seller: id(1),
        nft_mint: id(2),
        min_bid: 100,
        highest_bid: 60,
        highest_bidder: id(5),
        end_time: 4600,
        finalized,
    }
}

fn finalize_from(vault_key: [u8; 32], auction: &mut Auction, now: i64) -> Result<(), MarketError> {
    let _ = set_syscall_stubs(Box::new(EmptyVaults));
    let mut seller = Holding::new([1; 32]);
    let mut vault = Holding::new(vault_key);
    let mut winner = Holding::new([11; 32]);
    let mut ctx = FinalizeAuction {
        seller: id(1),
        auction: *auction,
        authority: seller.info(true),
        nft_vault: vault.info(false),
        winner_nft_account: winner.info(false),
    };
    let res = finalize_auction_at(&mut ctx, now);
    *auction = ctx.auction;
    res
}

#[test]
fn a_failed_transfer_leaves_the_record_unfinalized() {
    let mut a = ended(false);
    let before = a;
    assert_eq!(
        finalize_from([0; 32], &mut a, 4600),
        Err(MarketError::TransferFailed(ProgramError::InsufficientFunds.into()))
    );
    assert_eq!(a, before);
    assert!(!a.finalized);
}

#[test]
fn a_transfer_that_succeeds_finalizes() {
    let mut a = ended(false);
    assert_eq!(finalize_from([10; 32], &mut a, 4600), Ok(()));
    assert!(a.finalized);
}

#[test]
fn finalize_can_be_tried_again_after_a_failed_transfer() {
    let mut a = ended(false);
    assert_eq!(
        finalize_from([0; 32], &mut a, 4600),
        Err(MarketError::TransferFailed(ProgramError::InsufficientFunds.into()))
    );
    assert!(!a.finalized);
    assert_eq!(finalize_from([10; 32], &mut a, 4700), Ok(()));
    assert!(a.finalized);
}

#[test]
fn a_second_finalize_on_an_emptied_vault_fails_and_keeps_the_flag() {
    let mut a = ended(true);
    let before = a;
    assert_eq!(
        finalize_from([0; 32], &mut a, 4700),
        Err(MarketError::TransferFailed(ProgramError::InsufficientFunds.into()))
    );
    assert_eq!(a, before);
    assert!(a.finalized);
}

#[test]
fn a_refused_request_never_reaches_the_token_program() {
    let mut a = ended(false);
    let before = a;
    let mut seller = Holding::new([1; 32]);
    let mut vault = Holding::new([0; 32]);
    let mut winner = Holding::new([11; 32]);
    let _ = set_syscall_stubs(Box::new(EmptyVaults));
    let mut ctx = FinalizeAuction {
        seller: id(7),
        auction: a,
        authority: seller.info(true),
        nft_vault: vault.info(false),
        winner_nft_account: winner.info(false),
    };
    assert_eq!(finalize_auction_at(&mut ctx, 4600), Err(MarketError::Unauthorized));
    a = ctx.auction;
    assert_eq!(a, before);
}
