use vstd::prelude::*;
use vstd::bytes::{
    spec_u16_to_le_bytes, spec_u16_from_le_bytes, spec_u64_to_le_bytes, spec_u64_from_le_bytes,
    u16_to_le_bytes, u16_from_le_bytes, u64_to_le_bytes, u64_from_le_bytes,
    lemma_auto_spec_u16_to_from_le_bytes, lemma_auto_spec_u64_to_from_le_bytes,
};
use vstd::slice::slice_subrange;
use vstd::string::StringSliceAdditionalSpecFns;
use crate::addr::{Address, read_address};
use crate::state::{Listing, ListingV, Escrow, EscrowV};
use sha2::Digest;

verus! {

broadcast use vstd::array::group_array_axioms;

/// Why a byte buffer failed to decode as an account record.
#[derive(Clone, Copy, Debug, PartialEq, Eq, Structural)]
pub enum DecodeError {
    /// Fewer than the 8 bytes a type discriminator needs.
    TooShort,
    /// The 8-byte prefix does not identify the expected record type.
    DiscriminatorMismatch,
    /// The payload after the discriminator has the wrong length or holds an
    /// invalid boolean byte.
    MalformedFields,
}

/// What the SHA-256 digest of a byte sequence is.
pub uninterp spec fn sha256_of(data: Seq<u8>) -> Seq<u8>;

/// Relies on sha2's `Sha256`: the 32-byte digest depends on the input bytes
/// alone.
#[verifier::external_body]
fn sha256(data: &[u8]) -> (r: Vec<u8>)
    ensures
        r@ == sha256_of(data@),
        r@.len() == 32,
{
    sha2::Sha256::digest(data).to_vec()
}

/// A record type's discriminator: the first 8 bytes of the SHA-256 digest of
/// its tag.
pub open spec fn disc_of(tag: Seq<u8>) -> Seq<u8> {
    Seq::new(8, |i: int| sha256_of(tag)[i])
}

/// The tag hashed into a listing's discriminator.
pub open spec fn listing_tag() -> Seq<u8> {
    "account:Listing".spec_bytes()
}

/// The tag hashed into an escrow's discriminator.
pub open spec fn escrow_tag() -> Seq<u8> {
    "account:Escrow".spec_bytes()
}

/// The discriminator prefix of an encoded listing.
pub open spec fn listing_disc_spec() -> Seq<u8> {
    disc_of(listing_tag())
}

/// The discriminator prefix of an encoded escrow.
pub open spec fn escrow_disc_spec() -> Seq<u8> {
    disc_of(escrow_tag())
}

/// Truncates a 32-byte digest to the 8 discriminator bytes.
fn disc_from_digest(digest: Vec<u8>) -> (r: Vec<u8>)
    requires
        digest@.len() == 32,
    ensures
        r@ == Seq::new(8, |i: int| digest@[i]),
{
    let mut out: Vec<u8> = Vec::new();
    let mut i: usize = 0;
    while i < 8
        invariant
            0 <= i <= 8,
            digest@.len() == 32,
            out@ =~= digest@.take(i as int),
        decreases 8 - i,
    {
        out.push(digest[i]);
        i += 1;
    }
    proof {
        assert(out@ =~= Seq::new(8, |i: int| digest@[i]));
    }
    out
}

/// Computes the 8-byte discriminator of a listing account.
pub fn listing_discriminator() -> (r: Vec<u8>)
    ensures
        r@ == listing_disc_spec(),
        r@.len() == 8,
{
    let digest = sha256("account:Listing".as_bytes());
    let r = disc_from_digest(digest);
    proof {
        assert(r@ =~= listing_disc_spec());
    }
    r
}

/// Computes the 8-byte discriminator of an escrow account.
pub fn escrow_discriminator() -> (r: Vec<u8>)
    ensures
        r@ == escrow_disc_spec(),
        r@.len() == 8,
{
    let digest = sha256("account:Escrow".as_bytes());
    let r = disc_from_digest(digest);
    proof {
        assert(r@ =~= escrow_disc_spec());
    }
    r
}

/// The single byte a boolean is encoded as.
pub open spec fn bool_byte(b: bool) -> u8 {
    if b {
        1
    } else {
        0
    }
}

/// The fixed-width field encoding of a listing, without the discriminator.
pub open spec fn listing_payload_spec(l: ListingV) -> Seq<u8> {
    l.seller + l.nft_mint + spec_u64_to_le_bytes(l.price) + spec_u16_to_le_bytes(l.royalty_bps)
        + l.creator + seq![bool_byte(l.active)] + seq![l.bump]
}

/// The full account encoding of a listing.
pub open spec fn listing_bytes_spec(l: ListingV) -> Seq<u8> {
    listing_disc_spec() + listing_payload_spec(l)
}

/// The fixed-width field encoding of an escrow, without the discriminator.
pub open spec fn escrow_payload_spec(e: EscrowV) -> Seq<u8> {
    e.listing + e.buyer + spec_u64_to_le_bytes(e.amount) + seq![bool_byte(e.settled)] + seq![
        e.bump,
    ]
}

/// The full account encoding of an escrow.
pub open spec fn escrow_bytes_spec(e: EscrowV) -> Seq<u8> {
    escrow_disc_spec() + escrow_payload_spec(e)
}

/// What decoding a listing account returns for every byte buffer.
pub open spec fn decode_listing_spec(data: Seq<u8>) -> Result<ListingV, DecodeError> {
    if data.len() < 8 {
        Err(DecodeError::TooShort)
    } else if data.take(8) != listing_disc_spec() {
        Err(DecodeError::DiscriminatorMismatch)
    } else if data.len() != 116 || !(data[114] == 0 || data[114] == 1) {
        Err(DecodeError::MalformedFields)
    } else {
        Ok(
            ListingV {
                seller: data.subrange(8, 40),
                nft_mint: data.subrange(40, 72),
                price: spec_u64_from_le_bytes(data.subrange(72, 80)),
                royalty_bps: spec_u16_from_le_bytes(data.subrange(80, 82)),
                creator: data.subrange(82, 114),
                active: data[114] == 1,
                bump: data[115],
            },
        )
    }
}

/// What decoding an escrow account returns for every byte buffer.
pub open spec fn decode_escrow_spec(data: Seq<u8>) -> Result<EscrowV, DecodeError> {
    if data.len() < 8 {
        Err(DecodeError::TooShort)
    } else if data.take(8) != escrow_disc_spec() {
        Err(DecodeError::DiscriminatorMismatch)
    } else if data.len() != 82 || !(data[80] == 0 || data[80] == 1) {
        Err(DecodeError::MalformedFields)
    } else {
        Ok(
            EscrowV {
                listing: data.subrange(8, 40),
                buyer: data.subrange(40, 72),
                amount: spec_u64_from_le_bytes(data.subrange(72, 80)),
                settled: data[80] == 1,
                bump: data[81],
            },
        )
    }
}

/// Appends an address's 32 bytes to a buffer.
fn push_address(out: &mut Vec<u8>, a: &Address)
    ensures
        final(out)@ == old(out)@ + a@,
{
    let mut i: usize = 0;
    while i < 32
        invariant
            0 <= i <= 32,
            out@ =~= old(out)@ + a@.take(i as int),
        decreases 32 - i,
    {
        out.push(a[i]);
        i += 1;
    }
    proof {
        assert(out@ =~= old(out)@ + a@);
    }
}

/// Compares the first 8 bytes of a buffer with a discriminator.
fn disc_matches(data: &Vec<u8>, disc: &Vec<u8>) -> (r: bool)
    requires
        data@.len() >= 8,
        disc@.len() == 8,
    ensures
        r == (data@.take(8) == disc@),
{
    let mut i: usize = 0;
    while i < 8
        invariant
            0 <= i <= 8,
            data@.len() >= 8,
            disc@.len() == 8,
            forall|j: int| 0 <= j < i ==> data@[j] == disc@[j],
        decreases 8 - i,
    {
        if data[i] != disc[i] {
            proof {
                assert(data@.take(8)[i as int] != disc@[i as int]);
            }
            return false;
        }
        i += 1;
    }
    proof {
        assert(data@.take(8) =~= disc@);
    }
    true
}

impl Listing {
    /// Encodes the listing as its 116-byte account representation.
    pub fn to_account_data(&self) -> (r: Vec<u8>)
        ensures
            r@ == listing_bytes_spec(self@),
            r@.len() == 116,
    {
        proof {
            lemma_auto_spec_u64_to_from_le_bytes();
            lemma_auto_spec_u16_to_from_le_bytes();
        }
        let mut out = listing_discriminator();
        push_address(&mut out, &self.seller);
        push_address(&mut out, &self.nft_mint);
        let mut price_bytes = u64_to_le_bytes(self.price);
        out.append(&mut price_bytes);
        let mut bps_bytes = u16_to_le_bytes(self.royalty_bps);
        out.append(&mut bps_bytes);
        push_address(&mut out, &self.creator);
        out.push(if self.active { 1 } else { 0 });
        out.push(self.bump);
        proof {
            assert(out@ =~= listing_bytes_spec(self@));
        }
        out
    }

    /// Decodes a listing from its account bytes, rejecting a short buffer,
    /// a foreign discriminator, and a malformed payload.
    pub fn from_account_data(data: &Vec<u8>) -> (r: Result<Listing, DecodeError>)
        ensures
            r matches Ok(l) ==> decode_listing_spec(data@) == Ok::<ListingV, DecodeError>(l@),
            r matches Err(e) ==> decode_listing_spec(data@) == Err::<ListingV, DecodeError>(e),
    {
        if data.len() < 8 {
            return Err(DecodeError::TooShort);
        }
        let disc = listing_discriminator();
        if !disc_matches(data, &disc) {
            return Err(DecodeError::DiscriminatorMismatch);
        }
        if data.len() != 116 {
            return Err(DecodeError::MalformedFields);
        }
        let active_byte = data[114];
        if active_byte > 1 {
            return Err(DecodeError::MalformedFields);
        }
        let listing = Listing {
            seller: read_address(data, 8),
            nft_mint: read_address(data, 40),
            price: u64_from_le_bytes(slice_subrange(data.as_slice(), 72, 80)),
            royalty_bps: u16_from_le_bytes(slice_subrange(data.as_slice(), 80, 82)),
            creator: read_address(data, 82),
            active: active_byte == 1,
            bump: data[115],
        };
        proof {
            assert(listing@ =~= decode_listing_spec(data@).unwrap());
        }
        Ok(listing)
    }
}

impl Escrow {
    /// Encodes the escrow as its 82-byte account representation.
    pub fn to_account_data(&self) -> (r: Vec<u8>)
        ensures
            r@ == escrow_bytes_spec(self@),
            r@.len() == 82,
    {
        proof {
            lemma_auto_spec_u64_to_from_le_bytes();
        }
        let mut out = escrow_discriminator();
        push_address(&mut out, &self.listing);
        push_address(&mut out, &self.buyer);
        let mut amount_bytes = u64_to_le_bytes(self.amount);
        out.append(&mut amount_bytes);
        out.push(if self.settled { 1 } else { 0 });
        out.push(self.bump);
        proof {
            assert(out@ =~= escrow_bytes_spec(self@));
        }
        out
    }

    /// Decodes an escrow from its account bytes, rejecting a short buffer,
    /// a foreign discriminator, and a malformed payload.
    pub fn from_account_data(data: &Vec<u8>) -> (r: Result<Escrow, DecodeError>)
        ensures
            r matches Ok(e) ==> decode_escrow_spec(data@) == Ok::<EscrowV, DecodeError>(e@),
            r matches Err(e) ==> decode_escrow_spec(data@) == Err::<EscrowV, DecodeError>(e),
    {
        if data.len() < 8 {
            return Err(DecodeError::TooShort);
        }
        let disc = escrow_discriminator();
        if !disc_matches(data, &disc) {
            return Err(DecodeError::DiscriminatorMismatch);
        }
        if data.len() != 82 {
            return Err(DecodeError::MalformedFields);
        }
        let settled_byte = data[80];
        if settled_byte > 1 {
            return Err(DecodeError::MalformedFields);
        }
        let escrow = Escrow {
            listing: read_address(data, 8),
            buyer: read_address(data, 40),
            amount: u64_from_le_bytes(slice_subrange(data.as_slice(), 72, 80)),
            settled: settled_byte == 1,
            bump: data[81],
        };
        proof {
            assert(escrow@ =~= decode_escrow_spec(data@).unwrap());
        }
        Ok(escrow)
    }
}

/// Law: decoding an encoded listing gives back exactly the listing that was
/// encoded.
pub proof fn lemma_listing_round_trip(l: ListingV)
    requires
        l.seller.len() == 32,
        l.nft_mint.len() == 32,
        l.creator.len() == 32,
    ensures
        decode_listing_spec(listing_bytes_spec(l)) == Ok::<ListingV, DecodeError>(l),
{
    lemma_auto_spec_u64_to_from_le_bytes();
    lemma_auto_spec_u16_to_from_le_bytes();
    let data = listing_bytes_spec(l);
    assert(data.take(8) =~= listing_disc_spec());
    assert(data.subrange(8, 40) =~= l.seller);
    assert(data.subrange(40, 72) =~= l.nft_mint);
    assert(data.subrange(72, 80) =~= spec_u64_to_le_bytes(l.price));
    assert(data.subrange(80, 82) =~= spec_u16_to_le_bytes(l.royalty_bps));
    assert(data.subrange(82, 114) =~= l.creator);
    assert(data[114] == bool_byte(l.active));
    assert(data[115] == l.bump);
    assert(decode_listing_spec(data).unwrap() =~= l);
}

/// Law: decoding an encoded escrow gives back exactly the escrow that was
/// encoded.
pub proof fn lemma_escrow_round_trip(e: EscrowV)
    requires
        e.listing.len() == 32,
        e.buyer.len() == 32,
    ensures
        decode_escrow_spec(escrow_bytes_spec(e)) == Ok::<EscrowV, DecodeError>(e),
{
    lemma_auto_spec_u64_to_from_le_bytes();
    let data = escrow_bytes_spec(e);
    assert(data.take(8) =~= escrow_disc_spec());
    assert(data.subrange(8, 40) =~= e.listing);
    assert(data.subrange(40, 72) =~= e.buyer);
    assert(data.subrange(72, 80) =~= spec_u64_to_le_bytes(e.amount));
    assert(data[80] == bool_byte(e.settled));
    assert(data[81] == e.bump);
    assert(decode_escrow_spec(data).unwrap() =~= e);
}

} // verus!
