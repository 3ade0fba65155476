use vstd::prelude::*;

verus! {

/// Failure signals of the settlement operations.
///
/// `InvalidPrice`, `InvalidRoyalty`, `ListingInactive` and `MissingBuyer`
/// are validation failures reported before any value moves.
/// `InsufficientFunds` stands for a rejected value transfer, and
/// `DerivationExhausted` for an address derivation that found no usable
/// disambiguation nonce.
#[derive(Clone, Copy, Debug, PartialEq, Eq, Structural)]
pub enum MarketplaceError {
    InvalidPrice,
    InvalidRoyalty,
    ListingInactive,
    MissingBuyer,
    InsufficientFunds,
    DerivationExhausted,
}

impl MarketplaceError {
    /// A human-readable description of the failure.
    pub fn message(&self) -> (r: &'static str)
        ensures
            r@ == self.message_spec(),
    {
        match self {
            MarketplaceError::InvalidPrice => "Price must be greater than zero",
            MarketplaceError::InvalidRoyalty => "Royalty basis points must be <= 10000",
            MarketplaceError::ListingInactive => "Listing is not active",
            MarketplaceError::MissingBuyer => "Buyer is required when escrow exists",
            MarketplaceError::InsufficientFunds => "Insufficient funds for transfer",
            MarketplaceError::DerivationExhausted => "No valid derived address found",
        }
    }

    /// What `message` returns for each variant.
    pub open spec fn message_spec(self) -> Seq<char> {
        match self {
            MarketplaceError::InvalidPrice => "Price must be greater than zero"@,
            MarketplaceError::InvalidRoyalty => "Royalty basis points must be <= 10000"@,
            MarketplaceError::ListingInactive => "Listing is not active"@,
            MarketplaceError::MissingBuyer => "Buyer is required when escrow exists"@,
            MarketplaceError::InsufficientFunds => "Insufficient funds for transfer"@,
            MarketplaceError::DerivationExhausted => "No valid derived address found"@,
        }
    }
}

} // verus!
