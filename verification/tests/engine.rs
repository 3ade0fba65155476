use marketplace::engine::{
    buy_nft, cancel_listing, create_listing, fund_escrow, royalty_split, settle_trade,
};
use marketplace::errors::MarketplaceError;
use marketplace::state::{Escrow, Listing};

const PROGRAM_ID: [u8; 32] = [9u8; 32];
const SELLER: [u8; 32] = [1u8; 32];
const MINT: [u8; 32] = [2u8; 32];
const BUYER: [u8; 32] = [5u8; 32];

fn listed() -> Listing {
    create_listing(&PROGRAM_ID, &SELLER, &MINT, 1_000_000, 250).unwrap()
}

fn funded(listing: &Listing) -> (Escrow, u64) {
    let (listing_pda, _) = Listing::derive_listing_pda(&PROGRAM_ID, &MINT, &SELLER).unwrap();
    let mut buyer_lamports = 2_000_000u64;
    let mut escrow_lamports = 0u64;
    let escrow = fund_escrow(
        &PROGRAM_ID,
        listing,
        &listing_pda,
        &BUYER,
        &mut buyer_lamports,
        &mut escrow_lamports,
    )
    .unwrap();
    (escrow, escrow_lamports)
}

#[test]
fn royalty_split_exact_values() {
    assert_eq!(royalty_split(1_000_000, 250), Ok((25_000, 975_000)));
    assert_eq!(royalty_split(1_000_000, 0), Ok((0, 1_000_000)));
    assert_eq!(royalty_split(1_000_000, 10_000), Ok((1_000_000, 0)));
    // The division floors: 9999 basis points of one unit round down to zero.
    assert_eq!(royalty_split(1, 9_999), Ok((0, 1)));
    assert_eq!(royalty_split(3, 5_000), Ok((1, 2)));
}

#[test]
fn royalty_split_conserves_value() {
    for price in [1u64, 2, 999, 10_000, u64::MAX] {
        for bps in [0u16, 1, 250, 9_999, 10_000] {
            let (royalty, payout) = royalty_split(price, bps).unwrap();
            assert_eq!(royalty as u128 + payout as u128, price as u128);
            assert_eq!(royalty as u128, price as u128 * bps as u128 / 10_000);
        }
    }
}

#[test]
fn create_listing_fills_every_field() {
    let listing = listed();
    let (_, bump) = Listing::derive_listing_pda(&PROGRAM_ID, &MINT, &SELLER).unwrap();
    assert_eq!(listing.seller, SELLER);
    assert_eq!(listing.nft_mint, MINT);
    assert_eq!(listing.price, 1_000_000);
    assert_eq!(listing.royalty_bps, 250);
    assert_eq!(listing.creator, SELLER);
    assert!(listing.active);
    assert_eq!(listing.bump, bump);
}

#[test]
fn create_listing_rejects_zero_price() {
    assert_eq!(
        create_listing(&PROGRAM_ID, &SELLER, &MINT, 0, 250),
        Err(MarketplaceError::InvalidPrice)
    );
}

#[test]
fn create_listing_rejects_excessive_royalty() {
    assert_eq!(
        create_listing(&PROGRAM_ID, &SELLER, &MINT, 1_000_000, 10_001),
        Err(MarketplaceError::InvalidRoyalty)
    );
}

#[test]
fn fund_escrow_moves_the_full_price() {
    let listing = listed();
    let (listing_pda, _) = Listing::derive_listing_pda(&PROGRAM_ID, &MINT, &SELLER).unwrap();
    let (_, expected_bump) = Escrow::derive_escrow_pda(&PROGRAM_ID, &listing_pda).unwrap();
    let mut buyer_lamports = 2_000_000u64;
    let mut escrow_lamports = 10u64;
    let escrow = fund_escrow(
        &PROGRAM_ID,
        &listing,
        &listing_pda,
        &BUYER,
        &mut buyer_lamports,
        &mut escrow_lamports,
    )
    .unwrap();
    assert_eq!(buyer_lamports, 1_000_000);
    assert_eq!(escrow_lamports, 1_000_010);
    assert_eq!(escrow.listing, listing_pda);
    assert_eq!(escrow.buyer, BUYER);
    assert_eq!(escrow.amount, 1_000_000);
    assert!(!escrow.settled);
    assert_eq!(escrow.bump, expected_bump);
}

#[test]
fn fund_escrow_rejects_a_poor_buyer() {
    let listing = listed();
    let (listing_pda, _) = Listing::derive_listing_pda(&PROGRAM_ID, &MINT, &SELLER).unwrap();
    let mut buyer_lamports = 999_999u64;
    let mut escrow_lamports = 0u64;
    let result = fund_escrow(
        &PROGRAM_ID,
        &listing,
        &listing_pda,
        &BUYER,
        &mut buyer_lamports,
        &mut escrow_lamports,
    );
    assert_eq!(result, Err(MarketplaceError::InsufficientFunds));
    assert_eq!(buyer_lamports, 999_999);
    assert_eq!(escrow_lamports, 0);
}

#[test]
fn buy_nft_pays_royalty_then_seller_then_moves_the_asset() {
    let mut listing = listed();
    let mut buyer_lamports = 1_500_000u64;
    let mut seller_lamports = 100u64;
    let mut creator_lamports = 7u64;
    let mut seller_nft_units = 1u64;
    let mut buyer_nft_units = 0u64;
    buy_nft(
        &mut listing,
        &mut buyer_lamports,
        &mut seller_lamports,
        &mut creator_lamports,
        &mut seller_nft_units,
        &mut buyer_nft_units,
    )
    .unwrap();
    assert_eq!(buyer_lamports, 500_000);
    assert_eq!(creator_lamports, 25_007);
    assert_eq!(seller_lamports, 975_100);
    assert_eq!(seller_nft_units, 0);
    assert_eq!(buyer_nft_units, 1);
    assert!(!listing.active);
}

#[test]
fn buy_nft_rejects_an_inactive_listing() {
    let mut listing = listed();
    listing.active = false;
    let mut buyer_lamports = 1_500_000u64;
    let mut seller_lamports = 0u64;
    let mut creator_lamports = 0u64;
    let mut seller_nft_units = 1u64;
    let mut buyer_nft_units = 0u64;
    let result = buy_nft(
        &mut listing,
        &mut buyer_lamports,
        &mut seller_lamports,
        &mut creator_lamports,
        &mut seller_nft_units,
        &mut buyer_nft_units,
    );
    assert_eq!(result, Err(MarketplaceError::ListingInactive));
    assert_eq!(buyer_lamports, 1_500_000);
    assert_eq!(seller_nft_units, 1);
    assert_eq!(buyer_nft_units, 0);
}

#[test]
fn buy_nft_rejects_a_poor_buyer() {
    let mut listing = listed();
    let mut buyer_lamports = 999_999u64;
    let mut seller_lamports = 0u64;
    let mut creator_lamports = 0u64;
    let mut seller_nft_units = 1u64;
    let mut buyer_nft_units = 0u64;
    let result = buy_nft(
        &mut listing,
        &mut buyer_lamports,
        &mut seller_lamports,
        &mut creator_lamports,
        &mut seller_nft_units,
        &mut buyer_nft_units,
    );
    assert_eq!(result, Err(MarketplaceError::InsufficientFunds));
    assert_eq!(buyer_lamports, 999_999);
    assert!(listing.active);
}

#[test]
fn settle_trade_disburses_the_escrowed_funds() {
    let mut listing = listed();
    let (mut escrow, mut escrow_lamports) = funded(&listing);
    let mut seller_lamports = 0u64;
    let mut creator_lamports = 0u64;
    let mut seller_nft_units = 1u64;
    let mut buyer_nft_units = 0u64;
    settle_trade(
        &mut listing,
        &mut escrow,
        &mut escrow_lamports,
        &mut seller_lamports,
        &mut creator_lamports,
        &mut seller_nft_units,
        &mut buyer_nft_units,
    )
    .unwrap();
    assert_eq!(escrow_lamports, 0);
    assert_eq!(creator_lamports, 25_000);
    assert_eq!(seller_lamports, 975_000);
    assert_eq!(seller_nft_units, 0);
    assert_eq!(buyer_nft_units, 1);
    assert!(!listing.active);
    assert!(escrow.settled);
}

#[test]
fn settle_trade_rejects_an_amount_mismatch_without_moving_funds() {
    let mut listing = listed();
    let (mut escrow, mut escrow_lamports) = funded(&listing);
    escrow.amount = 999_999;
    let escrow_before = escrow;
    let listing_before = listing;
    let lamports_before = escrow_lamports;
    let mut seller_lamports = 40u64;
    let mut creator_lamports = 50u64;
    let mut seller_nft_units = 1u64;
    let mut buyer_nft_units = 0u64;
    let result = settle_trade(
        &mut listing,
        &mut escrow,
        &mut escrow_lamports,
        &mut seller_lamports,
        &mut creator_lamports,
        &mut seller_nft_units,
        &mut buyer_nft_units,
    );
    assert_eq!(result, Err(MarketplaceError::InvalidPrice));
    assert_eq!(escrow, escrow_before);
    assert_eq!(listing, listing_before);
    assert_eq!(escrow_lamports, lamports_before);
    assert_eq!(seller_lamports, 40);
    assert_eq!(creator_lamports, 50);
    assert_eq!(seller_nft_units, 1);
    assert_eq!(buyer_nft_units, 0);
}

#[test]
fn settle_trade_rejects_an_underfunded_escrow() {
    let mut listing = listed();
    let (mut escrow, _) = funded(&listing);
    let mut escrow_lamports = 999_999u64;
    let mut seller_lamports = 0u64;
    let mut creator_lamports = 0u64;
    let mut seller_nft_units = 1u64;
    let mut buyer_nft_units = 0u64;
    let result = settle_trade(
        &mut listing,
        &mut escrow,
        &mut escrow_lamports,
        &mut seller_lamports,
        &mut creator_lamports,
        &mut seller_nft_units,
        &mut buyer_nft_units,
    );
    assert_eq!(result, Err(MarketplaceError::InvalidPrice));
    assert_eq!(escrow_lamports, 999_999);
    assert!(listing.active);
    assert!(!escrow.settled);
}

#[test]
fn cancel_listing_refunds_an_unsettled_escrow() {
    let mut listing = listed();
    let (escrow, escrow_balance) = funded(&listing);
    let mut escrow_slot = Some(escrow);
    let mut escrow_lamports = escrow_balance;
    let mut buyer_lamports = Some(123u64);
    cancel_listing(
        &mut listing,
        &mut escrow_slot,
        &mut escrow_lamports,
        &mut buyer_lamports,
    )
    .unwrap();
    assert!(!listing.active);
    assert_eq!(escrow_lamports, 0);
    assert_eq!(buyer_lamports, Some(1_000_123));
    let settled_escrow = escrow_slot.unwrap();
    assert!(settled_escrow.settled);
    assert_eq!(settled_escrow.amount, escrow.amount);
    assert_eq!(settled_escrow.buyer, escrow.buyer);
}

#[test]
fn cancel_listing_without_escrow_only_closes_the_listing() {
    let mut listing = listed();
    let mut escrow_slot: Option<Escrow> = None;
    let mut escrow_lamports = 0u64;
    let mut buyer_lamports: Option<u64> = None;
    cancel_listing(
        &mut listing,
        &mut escrow_slot,
        &mut escrow_lamports,
        &mut buyer_lamports,
    )
    .unwrap();
    assert!(!listing.active);
    assert_eq!(escrow_lamports, 0);
    assert!(escrow_slot.is_none());
}

#[test]
fn cancel_listing_with_escrow_needs_a_buyer() {
    let mut listing = listed();
    let (escrow, escrow_balance) = funded(&listing);
    let mut escrow_slot = Some(escrow);
    let mut escrow_lamports = escrow_balance;
    let mut buyer_lamports: Option<u64> = None;
    let result = cancel_listing(
        &mut listing,
        &mut escrow_slot,
        &mut escrow_lamports,
        &mut buyer_lamports,
    );
    assert_eq!(result, Err(MarketplaceError::MissingBuyer));
    assert!(listing.active);
    assert_eq!(escrow_lamports, escrow_balance);
    assert!(!escrow_slot.unwrap().settled);
}
