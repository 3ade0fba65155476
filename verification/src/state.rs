use vstd::prelude::*;
use crate::addr::{Address, listing_pda_spec, escrow_pda_spec, listing_seeds, escrow_seeds, try_find_pda};
use crate::errors::MarketplaceError;

verus! {

/// An offer to sell one unit of a non-fungible asset at a fixed price.
#[derive(Clone, Copy, Debug, PartialEq, Eq)]
pub struct Listing {
    /// Seller who created the listing.
    pub seller: Address,
    /// Mint of the asset being sold.
    pub nft_mint: Address,
    /// Sale price in the smallest currency unit.
    pub price: u64,
    /// Royalty in basis points (1% = 100) owed to `creator`.
    pub royalty_bps: u16,
    /// Creator who receives royalties.
    pub creator: Address,
    /// Whether the listing is open.
    pub active: bool,
    /// Disambiguation nonce of the derived listing address.
    pub bump: u8,
}

/// The mathematical value of a `Listing`: addresses as byte sequences.
#[verifier::ext_equal]
pub struct ListingV {
    pub seller: Seq<u8>,
    pub nft_mint: Seq<u8>,
    pub price: u64,
    pub royalty_bps: u16,
    pub creator: Seq<u8>,
    pub active: bool,
    pub bump: u8,
}

impl View for Listing {
    type V = ListingV;

    open spec fn view(&self) -> ListingV {
        ListingV {
            seller: self.seller@,
            nft_mint: self.nft_mint@,
            price: self.price,
            royalty_bps: self.royalty_bps,
            creator: self.creator@,
            active: self.active,
            bump: self.bump,
        }
    }
}

impl Listing {
    /// Encoded size: 8-byte discriminator plus the fixed-width fields.
    pub const LEN: usize = 8 + 32 + 32 + 8 + 2 + 32 + 1 + 1;

    /// The record invariant: a positive price and a royalty rate within the
    /// basis-point scale.
    pub open spec fn wf(self) -> bool {
        self.price > 0 && self.royalty_bps <= 10000
    }

    /// Derives the listing address and bump from the asset and seller keys.
    pub fn derive_listing_pda(program_id: &Address, nft_mint: &Address, seller: &Address) -> (r:
        Result<(Address, u8), MarketplaceError>)
        ensures
            r matches Ok((address, bump)) ==> listing_pda_spec(nft_mint@, seller@, program_id@)
                == Some((address@, bump)),
            r is Err <==> listing_pda_spec(nft_mint@, seller@, program_id@) is None,
            r is Err ==> r == Err::<(Address, u8), MarketplaceError>(
                MarketplaceError::DerivationExhausted,
            ),
    {
        let seeds = listing_seeds(nft_mint, seller);
        match try_find_pda(&seeds, program_id) {
            Some((address, bump)) => Ok((address, bump)),
            None => Err(MarketplaceError::DerivationExhausted),
        }
    }
}

/// Funds held against a specific `Listing` pending settlement.
#[derive(Clone, Copy, Debug, PartialEq, Eq)]
pub struct Escrow {
    /// Address of the listing this escrow belongs to.
    pub listing: Address,
    /// Buyer who funded the escrow.
    pub buyer: Address,
    /// Amount held, in the smallest currency unit.
    pub amount: u64,
    /// Whether the held funds have been disbursed.
    pub settled: bool,
    /// Disambiguation nonce of the derived escrow address.
    pub bump: u8,
}

/// The mathematical value of an `Escrow`: addresses as byte sequences.
#[verifier::ext_equal]
pub struct EscrowV {
    pub listing: Seq<u8>,
    pub buyer: Seq<u8>,
    pub amount: u64,
    pub settled: bool,
    pub bump: u8,
}

impl View for Escrow {
    type V = EscrowV;

    open spec fn view(&self) -> EscrowV {
        EscrowV {
            listing: self.listing@,
            buyer: self.buyer@,
            amount: self.amount,
            settled: self.settled,
            bump: self.bump,
        }
    }
}

impl Escrow {
    /// Encoded size: 8-byte discriminator plus the fixed-width fields.
    pub const LEN: usize = 8 + 32 + 32 + 8 + 1 + 1;

    /// Derives the escrow address and bump from the owning listing's address.
    pub fn derive_escrow_pda(program_id: &Address, listing_pda: &Address) -> (r: Result<
        (Address, u8),
        MarketplaceError,
    >)
        ensures
            r matches Ok((address, bump)) ==> escrow_pda_spec(listing_pda@, program_id@) == Some(
                (address@, bump),
            ),
            r is Err <==> escrow_pda_spec(listing_pda@, program_id@) is None,
            r is Err ==> r == Err::<(Address, u8), MarketplaceError>(
                MarketplaceError::DerivationExhausted,
            ),
    {
        let seeds = escrow_seeds(listing_pda);
        match try_find_pda(&seeds, program_id) {
            Some((address, bump)) => Ok((address, bump)),
            None => Err(MarketplaceError::DerivationExhausted),
        }
    }
}

} // verus!
