use anchor_lang::compat::solana_sysvar::program_stubs::{set_syscall_stubs, SyscallStubs};
use anchor_lang::solana_program::account_info::AccountInfo;
use anchor_lang::solana_program::entrypoint::ProgramResult;
use anchor_lang::solana_program::instruction::Instruction;
use anchor_lang::solana_program::pubkey::Pubkey;
use nft_defi::{
    finalize_auction_at, transfer_order, Auction, AuctionError, FinalizeAuction, Identity,
    MarketError,
};
use std::sync::{Arc, Mutex};

/// A token program that accepts every request and keeps what it was asked.
struct Recorder {
    seen: Arc<Mutex<Vec<Instruction>>>,
}

impl SyscallStubs for Recorder {
    fn sol_invoke_signed(
        &self,
        instruction: &Instruction,
        _account_infos: &[AccountInfo],
        _signers_seeds: &[&[&[u8]]],
    ) -> ProgramResult {
        self.seen.lock().unwrap().push(instruction.clone());
        Ok(())
    }
}

fn id(tag: u8) -> Identity {
    Identity { bytes: [tag; 32] }
}

#[test]
fn finalize_asks_for_one_unit_from_the_vault_to_the_winner() {
    let seen = Arc::new(Mutex::new(Vec::new()));
    let _ = set_syscall_stubs(Box::new(Recorder { seen: seen.clone() }));

    let seller_key = Pubkey::new_from_array([1; 32]);
    let vault_key = Pubkey::new_from_array([10; 32]);
    let winner_key = Pubkey::new_from_array([11; 32]);
    let owner = Pubkey::new_from_array([200; 32]);
    let (mut l1, mut l2, mut l3) = (1u64, 1u64, 1u64);
    let (mut d1, mut d2, mut d3) = (vec![0u8; 4], vec![0u8; 4], vec![0u8; 4]);
    let auction = Auction {
        seller: id(1),
        nft_mint: id(2),
        min_bid: 100,
        highest_bid: 60,
        highest_bidder: id(5),
        end_time: 4600,
        finalized: false,
    };
    let mut ctx = FinalizeAuction {
        seller: id(1),
        auction,
        authority: AccountInfo::new(&seller_key, true, true, &mut l1, &mut d1, &owner, false),
        nft_vault: AccountInfo::new(&vault_key, false, true, &mut l2, &mut d2, &owner, false),
        winner_nft_account: AccountInfo::new(
            &winner_key,
            false,
            true,
            &mut l3,
            &mut d3,
            &owner,
            false,
        ),
    };

    assert_eq!(
        finalize_auction_at(&mut ctx, 4599),
        Err(MarketError::Auction(AuctionError::AuctionNotEnded))
    );
    assert!(seen.lock().unwrap().is_empty());

    assert_eq!(finalize_auction_at(&mut ctx, 4600), Ok(()));
    assert!(ctx.auction.finalized);

    let seen = seen.lock().unwrap();
    assert_eq!(seen.len(), 1);
    let asked = &seen[0];
    assert_eq!(asked.program_id, anchor_spl::token::ID);
    assert_eq!(asked.data, vec![3u8, 1, 0, 0, 0, 0, 0, 0, 0]);
    assert_eq!(asked.accounts.len(), 3);
    assert_eq!(asked.accounts[0].pubkey, vault_key);
    assert!(asked.accounts[0].is_writable);
    assert_eq!(asked.accounts[1].pubkey, winner_key);
    assert!(asked.accounts[1].is_writable);
    assert_eq!(asked.accounts[2].pubkey, seller_key);
    assert!(asked.accounts[2].is_signer);
}

#[test]
fn the_order_is_one_unit_from_the_vault_to_the_winner() {
    let seller_key = Pubkey::new_from_array([1; 32]);
    let vault_key = Pubkey::new_from_array([10; 32]);
    let winner_key = Pubkey::new_from_array([11; 32]);
    let owner = Pubkey::new_from_array([200; 32]);
    let (mut l1, mut l2, mut l3) = (1u64, 2u64, 3u64);
    let (mut d1, mut d2, mut d3) = (vec![0u8; 4], vec![0u8; 4], vec![0u8; 4]);
    let ctx = FinalizeAuction {
        seller: id(1),
        auction: Auction {
            seller: id(1),
            nft_mint: id(2),
            min_bid: 100,
            highest_bid: 60,
            highest_bidder: id(5),
            end_time: 4600,
            finalized: false,
        },
        authority: AccountInfo::new(&seller_key, true, true, &mut l1, &mut d1, &owner, false),
        nft_vault: AccountInfo::new(&vault_key, false, true, &mut l2, &mut d2, &owner, false),
        winner_nft_account: AccountInfo::new(
            &winner_key,
            false,
            true,
            &mut l3,
            &mut d3,
            &owner,
            false,
        ),
    };
    let order = transfer_order(&ctx);
    assert_eq!(order.amount, 1);
    assert_eq!(*order.from.key, vault_key);
    assert_eq!(*order.to.key, winner_key);
    assert_eq!(*order.authority.key, seller_key);
    assert!(order.authority.is_signer);
    assert_eq!(order.from.lamports(), 2);
    assert_eq!(order.to.lamports(), 3);
}
