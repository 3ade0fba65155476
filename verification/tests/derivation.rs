use marketplace::state::{Escrow, Listing};
use solana_sdk::pubkey::Pubkey;

const PROGRAM_ID: [u8; 32] = [9u8; 32];

#[test]
fn listing_derivation_is_deterministic() {
    let mint = [2u8; 32];
    let seller = [1u8; 32];
    let first = Listing::derive_listing_pda(&PROGRAM_ID, &mint, &seller).unwrap();
    let second = Listing::derive_listing_pda(&PROGRAM_ID, &mint, &seller).unwrap();
    assert_eq!(first, second);
}

#[test]
fn escrow_derivation_is_deterministic() {
    let listing_pda = [6u8; 32];
    let first = Escrow::derive_escrow_pda(&PROGRAM_ID, &listing_pda).unwrap();
    let second = Escrow::derive_escrow_pda(&PROGRAM_ID, &listing_pda).unwrap();
    assert_eq!(first, second);
}

#[test]
fn distinct_seeds_derive_distinct_addresses() {
    let mut addresses = Vec::new();
    for byte in 0..8u8 {
        let mint = [byte; 32];
        for seller_byte in 100..104u8 {
            let seller = [seller_byte; 32];
            let (address, _) = Listing::derive_listing_pda(&PROGRAM_ID, &mint, &seller).unwrap();
            addresses.push(address);
        }
    }
    for i in 0..addresses.len() {
        for j in 0..addresses.len() {
            if i != j {
                assert_ne!(addresses[i], addresses[j]);
            }
        }
    }
}

#[test]
fn listing_and_escrow_namespaces_do_not_collide() {
    // The two seed prefixes keep an escrow address apart from a listing
    // address even when the business keys coincide.
    let key = [5u8; 32];
    let (listing_pda, _) = Listing::derive_listing_pda(&PROGRAM_ID, &key, &key).unwrap();
    let (escrow_pda, _) = Escrow::derive_escrow_pda(&PROGRAM_ID, &listing_pda).unwrap();
    assert_ne!(listing_pda, escrow_pda);
}

#[test]
fn listing_derivation_matches_program_address_search() {
    let mint = [2u8; 32];
    let seller = [1u8; 32];
    let (address, bump) = Listing::derive_listing_pda(&PROGRAM_ID, &mint, &seller).unwrap();
    let program = Pubkey::new_from_array(PROGRAM_ID);
    let (expected, expected_bump) =
        Pubkey::try_find_program_address(&[b"listing", &mint, &seller], &program).unwrap();
    assert_eq!(address, expected.to_bytes());
    assert_eq!(bump, expected_bump);
}

#[test]
fn escrow_derivation_matches_program_address_search() {
    let listing_pda = [6u8; 32];
    let (address, bump) = Escrow::derive_escrow_pda(&PROGRAM_ID, &listing_pda).unwrap();
    let program = Pubkey::new_from_array(PROGRAM_ID);
    let (expected, expected_bump) =
        Pubkey::try_find_program_address(&[b"escrow", &listing_pda], &program).unwrap();
    assert_eq!(address, expected.to_bytes());
    assert_eq!(bump, expected_bump);
}
