use vstd::prelude::*;
use crate::addr::{Address, addr_eq, address_to_base58, base58_of, listing_pda_spec};
use crate::codec::{DecodeError, decode_listing_spec, decode_escrow_spec};
use crate::engine::{royalty_amount_spec, seller_payout_spec, royalty_split};
use crate::errors::MarketplaceError;
use crate::state::{Listing, ListingV, Escrow, EscrowV};

verus! {

/// One account fetch, as the transport hands it to the library.
pub enum AccountQuery {
    /// The fetch itself failed.
    Unavailable,
    /// No account exists at the queried address.
    Missing,
    /// The account's raw data and the program that owns the account.
    Present { data: Vec<u8>, owner: Address },
}

/// Why no record could be produced for a queried address.
#[derive(Clone, Copy, Debug, PartialEq, Eq, Structural)]
pub enum FetchError {
    /// The underlying fetch failed.
    Unavailable,
    /// The account does not exist.
    NotFound,
    /// The account exists but is not owned by the marketplace program.
    NotOwnedByProgram,
    /// The account's bytes do not decode as the expected record.
    Decode(DecodeError),
    /// No address could be derived for the given keys.
    DerivationExhausted,
}

/// What producing a listing from a fetch returns: the decoded record, or
/// the first failure among fetch, ownership and decoding.
pub open spec fn listing_fetch_spec(program_id: Seq<u8>, q: AccountQuery) -> Result<
    ListingV,
    FetchError,
> {
    match q {
        AccountQuery::Unavailable => Err(FetchError::Unavailable),
        AccountQuery::Missing => Err(FetchError::NotFound),
        AccountQuery::Present { data, owner } => {
            if owner@ != program_id {
                Err(FetchError::NotOwnedByProgram)
            } else {
                match decode_listing_spec(data@) {
                    Ok(l) => Ok(l),
                    Err(e) => Err(FetchError::Decode(e)),
                }
            }
        },
    }
}

/// What producing an escrow from a fetch returns.
pub open spec fn escrow_fetch_spec(program_id: Seq<u8>, q: AccountQuery) -> Result<
    EscrowV,
    FetchError,
> {
    match q {
        AccountQuery::Unavailable => Err(FetchError::Unavailable),
        AccountQuery::Missing => Err(FetchError::NotFound),
        AccountQuery::Present { data, owner } => {
            if owner@ != program_id {
                Err(FetchError::NotOwnedByProgram)
            } else {
                match decode_escrow_spec(data@) {
                    Ok(e) => Ok(e),
                    Err(e) => Err(FetchError::Decode(e)),
                }
            }
        },
    }
}

/// Produces the listing record behind a fetch, checking ownership before
/// decoding.
pub fn listing_from_query(program_id: &Address, q: &AccountQuery) -> (r: Result<
    Listing,
    FetchError,
>)
    ensures
        r matches Ok(l) ==> listing_fetch_spec(program_id@, *q) == Ok::<ListingV, FetchError>(
            l@,
        ),
        r matches Err(e) ==> listing_fetch_spec(program_id@, *q) == Err::<ListingV, FetchError>(
            e,
        ),
{
    match q {
        AccountQuery::Unavailable => Err(FetchError::Unavailable),
        AccountQuery::Missing => Err(FetchError::NotFound),
        AccountQuery::Present { data, owner } => {
            if !addr_eq(owner, program_id) {
                Err(FetchError::NotOwnedByProgram)
            } else {
                match Listing::from_account_data(data) {
                    Ok(l) => Ok(l),
                    Err(e) => Err(FetchError::Decode(e)),
                }
            }
        },
    }
}

/// Produces the escrow record behind a fetch, checking ownership before
/// decoding.
pub fn escrow_from_query(program_id: &Address, q: &AccountQuery) -> (r: Result<
    Escrow,
    FetchError,
>)
    ensures
        r matches Ok(e) ==> escrow_fetch_spec(program_id@, *q) == Ok::<EscrowV, FetchError>(e@),
        r matches Err(e) ==> escrow_fetch_spec(program_id@, *q) == Err::<EscrowV, FetchError>(
            e,
        ),
{
    match q {
        AccountQuery::Unavailable => Err(FetchError::Unavailable),
        AccountQuery::Missing => Err(FetchError::NotFound),
        AccountQuery::Present { data, owner } => {
            if !addr_eq(owner, program_id) {
                Err(FetchError::NotOwnedByProgram)
            } else {
                match Escrow::from_account_data(data) {
                    Ok(e) => Ok(e),
                    Err(e) => Err(FetchError::Decode(e)),
                }
            }
        },
    }
}

/// A listing snapshot with its addresses rendered as base-58 text.
#[derive(Debug, Clone)]
pub struct ListingState {
    pub listing_pda: String,
    pub seller: String,
    pub nft_mint: String,
    pub price: u64,
    pub royalty_bps: u16,
    pub creator: String,
    pub active: bool,
    pub bump: u8,
}

/// An escrow snapshot with its addresses rendered as base-58 text.
#[derive(Debug, Clone)]
pub struct EscrowState {
    pub escrow_pda: String,
    pub listing: String,
    pub buyer: String,
    pub amount: u64,
    pub settled: bool,
    pub bump: u8,
}

impl Listing {
    /// Renders a fetched listing account as a `ListingState` snapshot.
    pub fn get_state(program_id: &Address, listing_pda: &Address, q: &AccountQuery) -> (r: Result<
        ListingState,
        FetchError,
    >)
    ensures
        r is Ok <==> listing_fetch_spec(program_id@, *q) is Ok,
        r matches Err(e) ==> listing_fetch_spec(program_id@, *q) == Err::<ListingV, FetchError>(
            e,
        ),
        r matches Ok(s) ==> listing_fetch_spec(program_id@, *q) matches Ok(l) && {
            &&& s.listing_pda@ == base58_of(listing_pda@)
            &&& s.seller@ == base58_of(l.seller)
            &&& s.nft_mint@ == base58_of(l.nft_mint)
            &&& s.price == l.price
            &&& s.royalty_bps == l.royalty_bps
            &&& s.creator@ == base58_of(l.creator)
            &&& s.active == l.active
            &&& s.bump == l.bump
        },
    {
        let listing = match listing_from_query(program_id, q) {
            Ok(l) => l,
            Err(e) => {
                return Err(e);
            },
        };
        Ok(
            ListingState {
                listing_pda: address_to_base58(listing_pda),
                seller: address_to_base58(&listing.seller),
                nft_mint: address_to_base58(&listing.nft_mint),
                price: listing.price,
                royalty_bps: listing.royalty_bps,
                creator: address_to_base58(&listing.creator),
                active: listing.active,
                bump: listing.bump,
            },
        )
    }

    /// Derives a listing's address from the asset and seller keys and
    /// renders the fetched account at that address. The caller supplies the
    /// fetch made at the derived address.
    pub fn get_summary(
        program_id: &Address,
        nft_mint: &Address,
        seller: &Address,
        q: &AccountQuery,
    ) -> (r: Result<ListingState, FetchError>)
        ensures
            listing_pda_spec(nft_mint@, seller@, program_id@) is None ==> r == Err::<
                ListingState,
                FetchError,
            >(FetchError::DerivationExhausted),
            listing_pda_spec(nft_mint@, seller@, program_id@) is Some ==> {
                &&& r is Ok <==> listing_fetch_spec(program_id@, *q) is Ok
                &&& (r matches Err(e) ==> listing_fetch_spec(program_id@, *q) == Err::<
                    ListingV,
                    FetchError,
                >(e))
            },
            listing_pda_spec(nft_mint@, seller@, program_id@) matches Some((address, _)) ==> (
            r matches Ok(s) ==> listing_fetch_spec(program_id@, *q) matches Ok(l) && {
                &&& s.listing_pda@ == base58_of(address)
                &&& s.seller@ == base58_of(l.seller)
                &&& s.nft_mint@ == base58_of(l.nft_mint)
                &&& s.price == l.price
                &&& s.royalty_bps == l.royalty_bps
                &&& s.creator@ == base58_of(l.creator)
                &&& s.active == l.active
                &&& s.bump == l.bump
            }),
    {
        let (listing_pda, _) = match Listing::derive_listing_pda(program_id, nft_mint, seller) {
            Ok(found) => found,
            Err(_) => {
                return Err(FetchError::DerivationExhausted);
            },
        };
        Listing::get_state(program_id, &listing_pda, q)
    }
}

impl Escrow {
    /// Renders a fetched escrow account as an `EscrowState` snapshot.
    pub fn get_state(program_id: &Address, escrow_pda: &Address, q: &AccountQuery) -> (r: Result<
        EscrowState,
        FetchError,
    >)
    ensures
        r is Ok <==> escrow_fetch_spec(program_id@, *q) is Ok,
        r matches Err(e) ==> escrow_fetch_spec(program_id@, *q) == Err::<EscrowV, FetchError>(e),
        r matches Ok(s) ==> escrow_fetch_spec(program_id@, *q) matches Ok(e) && {
            &&& s.escrow_pda@ == base58_of(escrow_pda@)
            &&& s.listing@ == base58_of(e.listing)
            &&& s.buyer@ == base58_of(e.buyer)
            &&& s.amount == e.amount
            &&& s.settled == e.settled
            &&& s.bump == e.bump
        },
    {
        let escrow = match escrow_from_query(program_id, q) {
            Ok(e) => e,
            Err(e) => {
                return Err(e);
            },
        };
        Ok(
            EscrowState {
                escrow_pda: address_to_base58(escrow_pda),
                listing: address_to_base58(&escrow.listing),
                buyer: address_to_base58(&escrow.buyer),
                amount: escrow.amount,
                settled: escrow.settled,
                bump: escrow.bump,
            },
        )
    }
}

/// The request shape of the purchase simulation: the textual listing
/// address.
#[derive(Debug, Clone)]
pub struct SimulatePurchaseInput {
    pub listing_pda: String,
}

/// The purchase breakdown a simulation reports.
#[derive(Clone, Copy, Debug, PartialEq, Eq, Structural)]
pub struct SimulatePurchaseOutput {
    pub listing_active: bool,
    pub total_price: u64,
    pub royalty_amount: u64,
    pub seller_payout: u64,
    pub royalty_bps: u16,
}

/// Reproduces the settlement math on a listing snapshot without touching
/// any state: the same split the buy and settle operations perform, so the
/// simulated breakdown matches theirs bit for bit.
pub fn simulate_purchase(listing_state: &ListingState) -> (r: Result<
    SimulatePurchaseOutput,
    MarketplaceError,
>)
    ensures
        r is Err <==> royalty_amount_spec(listing_state.price, listing_state.royalty_bps)
            > listing_state.price,
        r is Err ==> r == Err::<SimulatePurchaseOutput, MarketplaceError>(
            MarketplaceError::InvalidRoyalty,
        ),
        listing_state.royalty_bps <= 10000 ==> r is Ok,
        r matches Ok(out) ==> {
            &&& out.listing_active == listing_state.active
            &&& out.total_price == listing_state.price
            &&& out.royalty_amount == royalty_amount_spec(
                listing_state.price,
                listing_state.royalty_bps,
            )
            &&& out.seller_payout == seller_payout_spec(
                listing_state.price,
                listing_state.royalty_bps,
            )
            &&& out.royalty_bps == listing_state.royalty_bps
            &&& out.royalty_amount + out.seller_payout == out.total_price
        },
{
    let (royalty_amount, seller_payout) = match royalty_split(
        listing_state.price,
        listing_state.royalty_bps,
    ) {
        Ok(split) => split,
        Err(e) => {
            return Err(e);
        },
    };
    Ok(
        SimulatePurchaseOutput {
            listing_active: listing_state.active,
            total_price: listing_state.price,
            royalty_amount,
            seller_payout,
            royalty_bps: listing_state.royalty_bps,
        },
    )
}

} // verus!
