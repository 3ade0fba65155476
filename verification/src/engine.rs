use vstd::prelude::*;
use crate::addr::{Address, listing_pda_spec, escrow_pda_spec};
use crate::errors::MarketplaceError;
use crate::state::{Listing, Escrow};
use vstd::arithmetic::mul::lemma_mul_inequality;
use vstd::arithmetic::div_mod::lemma_div_is_ordered;
use vstd::arithmetic::div_mod::lemma_div_by_multiple;

verus! {

/// Royalty owed to the creator: `floor(price * royalty_bps / 10000)`.
pub open spec fn royalty_amount_spec(price: u64, royalty_bps: u16) -> int {
    price * royalty_bps / 10000
}

/// Remainder owed to the seller after the royalty cut.
pub open spec fn seller_payout_spec(price: u64, royalty_bps: u16) -> int {
    price - royalty_amount_spec(price, royalty_bps)
}

/// Law: for every price and royalty rate within bounds, the royalty is the
/// floored basis-point share of the price, it never exceeds the price, and
/// royalty plus payout give back exactly the price — no value is created
/// or destroyed by the split.
pub proof fn lemma_royalty_conservation(price: u64, royalty_bps: u16)
    requires
        price > 0,
        royalty_bps <= 10000,
    ensures
        royalty_amount_spec(price, royalty_bps) == price * royalty_bps / 10000,
        0 <= royalty_amount_spec(price, royalty_bps) <= price,
        royalty_amount_spec(price, royalty_bps) + seller_payout_spec(price, royalty_bps)
            == price,
{
    lemma_royalty_bounded(price, royalty_bps);
}

/// The royalty share never exceeds the price while the rate is at most
/// 10000 basis points.
proof fn lemma_royalty_bounded(price: u64, royalty_bps: u16)
    requires
        royalty_bps <= 10000,
    ensures
        0 <= royalty_amount_spec(price, royalty_bps) <= price,
{
    lemma_mul_inequality(royalty_bps as int, 10000, price as int);
    lemma_div_is_ordered(price * royalty_bps, price * 10000, 10000);
    lemma_div_by_multiple(price as int, 10000);
}

/// Splits a price into the creator's royalty and the seller's payout.
///
/// The intermediate product is computed at doubled width, so the split
/// fails only when the floored royalty would exceed the price itself,
/// which cannot happen while `royalty_bps <= 10000`.
pub fn royalty_split(price: u64, royalty_bps: u16) -> (r: Result<(u64, u64), MarketplaceError>)
    ensures
        r is Err <==> royalty_amount_spec(price, royalty_bps) > price,
        r is Err ==> r == Err::<(u64, u64), MarketplaceError>(MarketplaceError::InvalidRoyalty),
        royalty_bps <= 10000 ==> r is Ok,
        r matches Ok((royalty, payout)) ==> {
            &&& royalty == royalty_amount_spec(price, royalty_bps)
            &&& payout == seller_payout_spec(price, royalty_bps)
            &&& royalty + payout == price
        },
{
    proof {
        lemma_mul_inequality(price as int, u64::MAX as int, royalty_bps as int);
        if royalty_bps <= 10000 {
            lemma_royalty_bounded(price, royalty_bps);
        }
    }
    let wide: u128 = (price as u128) * (royalty_bps as u128) / 10000;
    if wide > price as u128 {
        Err(MarketplaceError::InvalidRoyalty)
    } else {
        let royalty: u64 = wide as u64;
        let payout: u64 = price - royalty;
        Ok((royalty, payout))
    }
}

/// Creates a listing: validates the price and the royalty rate, derives the
/// listing address, and returns the opened record with `creator` defaulted
/// to the seller.
pub fn create_listing(
    program_id: &Address,
    seller: &Address,
    nft_mint: &Address,
    price: u64,
    royalty_bps: u16,
) -> (r: Result<Listing, MarketplaceError>)
    ensures
        price == 0 ==> r == Err::<Listing, MarketplaceError>(MarketplaceError::InvalidPrice),
        price > 0 && royalty_bps > 10000 ==> r == Err::<Listing, MarketplaceError>(
            MarketplaceError::InvalidRoyalty,
        ),
        price > 0 && royalty_bps <= 10000 && listing_pda_spec(nft_mint@, seller@, program_id@)
            is None ==> r == Err::<Listing, MarketplaceError>(
            MarketplaceError::DerivationExhausted,
        ),
        r is Ok <==> (price > 0 && royalty_bps <= 10000 && listing_pda_spec(
            nft_mint@,
            seller@,
            program_id@,
        ) is Some),
        r matches Ok(l) ==> {
            &&& l.seller@ == seller@
            &&& l.nft_mint@ == nft_mint@
            &&& l.price == price
            &&& l.royalty_bps == royalty_bps
            &&& l.creator@ == seller@
            &&& l.active
            &&& listing_pda_spec(nft_mint@, seller@, program_id@) matches Some((_, bump))
                && l.bump == bump
            &&& l.wf()
        },
{
    if price == 0 {
        return Err(MarketplaceError::InvalidPrice);
    }
    if royalty_bps > 10000 {
        return Err(MarketplaceError::InvalidRoyalty);
    }
    let (_, bump) = match Listing::derive_listing_pda(program_id, nft_mint, seller) {
        Ok(found) => found,
        Err(e) => {
            return Err(e);
        },
    };
    Ok(
        Listing {
            seller: *seller,
            nft_mint: *nft_mint,
            price,
            royalty_bps,
            creator: *seller,
            active: true,
            bump,
        },
    )
}

/// Funds an escrow against an active listing: moves the full price from the
/// buyer into the escrow's held balance and returns the new escrow record.
pub fn fund_escrow(
    program_id: &Address,
    listing: &Listing,
    listing_pda: &Address,
    buyer: &Address,
    buyer_lamports: &mut u64,
    escrow_lamports: &mut u64,
) -> (r: Result<Escrow, MarketplaceError>)
    requires
        listing.active,
        *old(escrow_lamports) + listing.price <= u64::MAX,
    ensures
        r is Err ==> *final(buyer_lamports) == *old(buyer_lamports) && *final(escrow_lamports)
            == *old(escrow_lamports),
        escrow_pda_spec(listing_pda@, program_id@) is None ==> r == Err::<
            Escrow,
            MarketplaceError,
        >(MarketplaceError::DerivationExhausted),
        escrow_pda_spec(listing_pda@, program_id@) is Some && *old(buyer_lamports)
            < listing.price ==> r == Err::<Escrow, MarketplaceError>(
            MarketplaceError::InsufficientFunds,
        ),
        r is Ok <==> (escrow_pda_spec(listing_pda@, program_id@) is Some && *old(buyer_lamports)
            >= listing.price),
        r matches Ok(e) ==> {
            &&& e.listing@ == listing_pda@
            &&& e.buyer@ == buyer@
            &&& e.amount == listing.price
            &&& !e.settled
            &&& escrow_pda_spec(listing_pda@, program_id@) matches Some((_, bump)) && e.bump
                == bump
            &&& *final(buyer_lamports) == *old(buyer_lamports) - listing.price
            &&& *final(escrow_lamports) == *old(escrow_lamports) + listing.price
        },
{
    let (_, bump) = match Escrow::derive_escrow_pda(program_id, listing_pda) {
        Ok(found) => found,
        Err(e) => {
            return Err(e);
        },
    };
    if *buyer_lamports < listing.price {
        return Err(MarketplaceError::InsufficientFunds);
    }
    *buyer_lamports = *buyer_lamports - listing.price;
    *escrow_lamports = *escrow_lamports + listing.price;
    Ok(
        Escrow {
            listing: *listing_pda,
            buyer: *buyer,
            amount: listing.price,
            settled: false,
            bump,
        },
    )
}

/// Buys the listed asset directly: pays the creator's royalty, then the
/// seller's payout, then moves the asset unit, in that order, and closes
/// the listing. Any failure leaves every account unchanged.
pub fn buy_nft(
    listing: &mut Listing,
    buyer_lamports: &mut u64,
    seller_lamports: &mut u64,
    creator_lamports: &mut u64,
    seller_nft_units: &mut u64,
    buyer_nft_units: &mut u64,
) -> (r: Result<(), MarketplaceError>)
    requires
        *old(seller_nft_units) == 1,
        *old(seller_lamports) + old(listing).price <= u64::MAX,
        *old(creator_lamports) + old(listing).price <= u64::MAX,
        *old(buyer_nft_units) + 1 <= u64::MAX,
    ensures
        r is Err ==> {
            &&& *final(listing) == *old(listing)
            &&& *final(buyer_lamports) == *old(buyer_lamports)
            &&& *final(seller_lamports) == *old(seller_lamports)
            &&& *final(creator_lamports) == *old(creator_lamports)
            &&& *final(seller_nft_units) == *old(seller_nft_units)
            &&& *final(buyer_nft_units) == *old(buyer_nft_units)
        },
        !old(listing).active ==> r == Err::<(), MarketplaceError>(
            MarketplaceError::ListingInactive,
        ),
        old(listing).active && royalty_amount_spec(old(listing).price, old(listing).royalty_bps)
            > old(listing).price ==> r == Err::<(), MarketplaceError>(
            MarketplaceError::InvalidRoyalty,
        ),
        old(listing).active && royalty_amount_spec(old(listing).price, old(listing).royalty_bps)
            <= old(listing).price && *old(buyer_lamports) < old(listing).price ==> r == Err::<
            (),
            MarketplaceError,
        >(MarketplaceError::InsufficientFunds),
        r is Ok <==> (old(listing).active && royalty_amount_spec(
            old(listing).price,
            old(listing).royalty_bps,
        ) <= old(listing).price && *old(buyer_lamports) >= old(listing).price),
        r is Ok ==> {
            let royalty = royalty_amount_spec(old(listing).price, old(listing).royalty_bps);
            let payout = seller_payout_spec(old(listing).price, old(listing).royalty_bps);
            &&& *final(buyer_lamports) == *old(buyer_lamports) - old(listing).price
            &&& *final(creator_lamports) == *old(creator_lamports) + royalty
            &&& *final(seller_lamports) == *old(seller_lamports) + payout
            &&& *final(seller_nft_units) == 0
            &&& *final(buyer_nft_units) == *old(buyer_nft_units) + 1
            &&& *final(listing) == (Listing { active: false, ..*old(listing) })
        },
{
    if !listing.active {
        return Err(MarketplaceError::ListingInactive);
    }
    let price = listing.price;
    let (royalty, payout) = match royalty_split(price, listing.royalty_bps) {
        Ok(split) => split,
        Err(e) => {
            return Err(e);
        },
    };
    if *buyer_lamports < price {
        return Err(MarketplaceError::InsufficientFunds);
    }
    *buyer_lamports = *buyer_lamports - price;
    *creator_lamports = *creator_lamports + royalty;
    *seller_lamports = *seller_lamports + payout;
    *seller_nft_units = *seller_nft_units - 1;
    *buyer_nft_units = *buyer_nft_units + 1;
    listing.active = false;
    Ok(())
}

/// Settles a funded escrow: moves the asset unit, then disburses the
/// creator's royalty and the seller's payout out of the escrow's held
/// balance, and closes both records. Any failure leaves every account
/// unchanged.
pub fn settle_trade(
    listing: &mut Listing,
    escrow: &mut Escrow,
    escrow_lamports: &mut u64,
    seller_lamports: &mut u64,
    creator_lamports: &mut u64,
    seller_nft_units: &mut u64,
    buyer_nft_units: &mut u64,
) -> (r: Result<(), MarketplaceError>)
    requires
        old(listing).active,
        !old(escrow).settled,
        *old(seller_nft_units) == 1,
        *old(seller_lamports) + old(escrow).amount <= u64::MAX,
        *old(creator_lamports) + old(escrow).amount <= u64::MAX,
        *old(buyer_nft_units) + 1 <= u64::MAX,
    ensures
        r is Err ==> {
            &&& *final(listing) == *old(listing)
            &&& *final(escrow) == *old(escrow)
            &&& *final(escrow_lamports) == *old(escrow_lamports)
            &&& *final(seller_lamports) == *old(seller_lamports)
            &&& *final(creator_lamports) == *old(creator_lamports)
            &&& *final(seller_nft_units) == *old(seller_nft_units)
            &&& *final(buyer_nft_units) == *old(buyer_nft_units)
        },
        old(escrow).amount != old(listing).price ==> r == Err::<(), MarketplaceError>(
            MarketplaceError::InvalidPrice,
        ),
        old(escrow).amount == old(listing).price && royalty_amount_spec(
            old(escrow).amount,
            old(listing).royalty_bps,
        ) > old(escrow).amount ==> r == Err::<(), MarketplaceError>(
            MarketplaceError::InvalidRoyalty,
        ),
        old(escrow).amount == old(listing).price && royalty_amount_spec(
            old(escrow).amount,
            old(listing).royalty_bps,
        ) <= old(escrow).amount && *old(escrow_lamports) < old(escrow).amount ==> r == Err::<
            (),
            MarketplaceError,
        >(MarketplaceError::InvalidPrice),
        r is Ok <==> (old(escrow).amount == old(listing).price && royalty_amount_spec(
            old(escrow).amount,
            old(listing).royalty_bps,
        ) <= old(escrow).amount && *old(escrow_lamports) >= old(escrow).amount),
        r is Ok ==> {
            let royalty = royalty_amount_spec(old(escrow).amount, old(listing).royalty_bps);
            let payout = seller_payout_spec(old(escrow).amount, old(listing).royalty_bps);
            &&& *final(seller_nft_units) == 0
            &&& *final(buyer_nft_units) == *old(buyer_nft_units) + 1
            &&& *final(escrow_lamports) == *old(escrow_lamports) - old(escrow).amount
            &&& *final(creator_lamports) == *old(creator_lamports) + royalty
            &&& *final(seller_lamports) == *old(seller_lamports) + payout
            &&& *final(listing) == (Listing { active: false, ..*old(listing) })
            &&& *final(escrow) == (Escrow { settled: true, ..*old(escrow) })
        },
{
    if escrow.amount != listing.price {
        return Err(MarketplaceError::InvalidPrice);
    }
    let amount = escrow.amount;
    let (royalty, payout) = match royalty_split(amount, listing.royalty_bps) {
        Ok(split) => split,
        Err(e) => {
            return Err(e);
        },
    };
    if *escrow_lamports < amount {
        return Err(MarketplaceError::InvalidPrice);
    }
    *seller_nft_units = *seller_nft_units - 1;
    *buyer_nft_units = *buyer_nft_units + 1;
    *escrow_lamports = *escrow_lamports - amount;
    *creator_lamports = *creator_lamports + royalty;
    *seller_lamports = *seller_lamports + payout;
    listing.active = false;
    escrow.settled = true;
    Ok(())
}

/// Cancels an active listing. A live escrow is refunded in full to its
/// buyer and marked settled; the listing is closed either way. Any failure
/// leaves every account unchanged.
pub fn cancel_listing(
    listing: &mut Listing,
    escrow: &mut Option<Escrow>,
    escrow_lamports: &mut u64,
    buyer_lamports: &mut Option<u64>,
) -> (r: Result<(), MarketplaceError>)
    requires
        old(listing).active,
        *old(escrow) matches Some(e) ==> !e.settled && *old(escrow_lamports) >= e.amount,
        *old(escrow) matches Some(e) ==> (*old(buyer_lamports) matches Some(b) ==> b + e.amount
            <= u64::MAX),
    ensures
        r is Err ==> {
            &&& *final(listing) == *old(listing)
            &&& *final(escrow) == *old(escrow)
            &&& *final(escrow_lamports) == *old(escrow_lamports)
            &&& *final(buyer_lamports) == *old(buyer_lamports)
        },
        *old(escrow) is Some && *old(buyer_lamports) is None ==> r == Err::<
            (),
            MarketplaceError,
        >(MarketplaceError::MissingBuyer),
        r is Ok <==> (*old(escrow) is Some ==> *old(buyer_lamports) is Some),
        (r is Ok && *old(escrow) is None) ==> {
            &&& *final(listing) == (Listing { active: false, ..*old(listing) })
            &&& *final(escrow) is None
            &&& *final(escrow_lamports) == *old(escrow_lamports)
            &&& *final(buyer_lamports) == *old(buyer_lamports)
        },
        *old(escrow) matches Some(e) ==> (r is Ok ==> {
            &&& *final(listing) == (Listing { active: false, ..*old(listing) })
            &&& *final(escrow) == Some(Escrow { settled: true, ..e })
            &&& *final(escrow_lamports) == *old(escrow_lamports) - e.amount
            &&& *old(buyer_lamports) matches Some(b) && *final(buyer_lamports) == Some(
                (b + e.amount) as u64,
            )
        }),
{
    match escrow {
        Some(e) => {
            match buyer_lamports {
                Some(b) => {
                    let refund = e.amount;
                    *escrow_lamports = *escrow_lamports - refund;
                    *b = *b + refund;
                    e.settled = true;
                },
                None => {
                    return Err(MarketplaceError::MissingBuyer);
                },
            }
        },
        None => {},
    }
    listing.active = false;
    Ok(())
}

} // verus!
