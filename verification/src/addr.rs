use vstd::prelude::*;
use vstd::slice::slice_to_vec;
use vstd::string::StringSliceAdditionalSpecFns;

verus! {

broadcast use vstd::array::group_array_axioms;

/// A 32-byte account identifier.
pub type Address = [u8; 32];

/// Byte-wise equality of two addresses.
pub fn addr_eq(a: &Address, b: &Address) -> (r: bool)
    ensures
        r == (a@ == b@),
{
    let mut i: usize = 0;
    while i < 32
        invariant
            0 <= i <= 32,
            forall|j: int| 0 <= j < i ==> a@[j] == b@[j],
        decreases 32 - i,
    {
        if a[i] != b[i] {
            return false;
        }
        i += 1;
    }
    proof {
        assert(a@ =~= b@);
    }
    true
}

/// Copies 32 bytes starting at `offset` out of `data`.
pub fn read_address(data: &Vec<u8>, offset: usize) -> (r: Address)
    requires
        offset + 32 <= data@.len(),
    ensures
        r@ == data@.subrange(offset as int, offset + 32),
{
    let n = data.len();
    let mut out: Address = [0; 32];
    let mut i: usize = 0;
    while i < 32
        invariant
            0 <= i <= 32,
            n == data@.len(),
            offset + 32 <= n,
            forall|j: int| 0 <= j < i ==> out@[j] == data@[offset + j],
        decreases 32 - i,
    {
        out[i] = data[offset + i];
        i += 1;
    }
    proof {
        assert(out@ =~= data@.subrange(offset as int, offset + 32));
    }
    out
}

/// What the bounded derivation search returns for a seed sequence and a
/// program id: the derived 32-byte address and the disambiguation nonce
/// ("bump"), or nothing when the whole nonce space is exhausted.
pub uninterp spec fn pda_of(seeds: Seq<Seq<u8>>, program_id: Seq<u8>) -> Option<(Seq<u8>, u8)>;

/// The seed views of an exec seed list.
pub open spec fn seeds_view(seeds: Seq<Vec<u8>>) -> Seq<Seq<u8>> {
    seeds.map_values(|s: Vec<u8>| s@)
}

/// Relies on solana_sdk's `Pubkey::try_find_program_address`: the search is a
/// deterministic function of the seed bytes and the program id alone, and a
/// derived address is 32 bytes.
#[verifier::external_body]
pub(crate) fn try_find_pda(seeds: &Vec<Vec<u8>>, program_id: &Address) -> (r: Option<
    (Address, u8),
>)
    ensures
        r is Some <==> pda_of(seeds_view(seeds@), program_id@) is Some,
        r matches Some((addr, bump)) ==> pda_of(seeds_view(seeds@), program_id@) == Some(
            (addr@, bump),
        ),
{
    let seed_refs: Vec<&[u8]> = seeds.iter().map(|s| s.as_slice()).collect();
    let program = solana_sdk::pubkey::Pubkey::new_from_array(*program_id);
    solana_sdk::pubkey::Pubkey::try_find_program_address(&seed_refs, &program).map(|(address, bump)| (address.to_bytes(), bump))
}

/// What the base-58 text rendering of a 32-byte address is.
pub uninterp spec fn base58_of(addr: Seq<u8>) -> Seq<char>;

/// Relies on solana_sdk's base-58 `Display` for `Pubkey`: the rendered text
/// depends on the 32 address bytes alone.
#[verifier::external_body]
pub(crate) fn address_to_base58(addr: &Address) -> (r: String)
    ensures
        r@ == base58_of(addr@),
{
    solana_sdk::pubkey::Pubkey::new_from_array(*addr).to_string()
}

/// The fixed prefix of a listing's derivation seeds.
pub open spec fn listing_seed_tag() -> Seq<u8> {
    "listing".spec_bytes()
}

/// The fixed prefix of an escrow's derivation seeds.
pub open spec fn escrow_seed_tag() -> Seq<u8> {
    "escrow".spec_bytes()
}

/// The seed sequence a listing's address is derived from.
pub open spec fn listing_seeds_spec(nft_mint: Seq<u8>, seller: Seq<u8>) -> Seq<Seq<u8>> {
    seq![listing_seed_tag(), nft_mint, seller]
}

/// The seed sequence an escrow's address is derived from: the owning
/// listing's address alone.
pub open spec fn escrow_seeds_spec(listing_pda: Seq<u8>) -> Seq<Seq<u8>> {
    seq![escrow_seed_tag(), listing_pda]
}

/// The listing address and bump derived from the asset and seller keys.
pub open spec fn listing_pda_spec(nft_mint: Seq<u8>, seller: Seq<u8>, program_id: Seq<u8>) -> Option<
    (Seq<u8>, u8),
> {
    pda_of(listing_seeds_spec(nft_mint, seller), program_id)
}

/// The escrow address and bump derived from the owning listing's address.
pub open spec fn escrow_pda_spec(listing_pda: Seq<u8>, program_id: Seq<u8>) -> Option<
    (Seq<u8>, u8),
> {
    pda_of(escrow_seeds_spec(listing_pda), program_id)
}

/// Law: address derivation is a pure function — the same seed sequence and
/// program id always derive the same address and the same bump.
pub proof fn lemma_derivation_deterministic(
    seeds1: Seq<Seq<u8>>,
    program1: Seq<u8>,
    seeds2: Seq<Seq<u8>>,
    program2: Seq<u8>,
)
    requires
        seeds1 == seeds2,
        program1 == program2,
    ensures
        pda_of(seeds1, program1) == pda_of(seeds2, program2),
{
}

/// Builds the exec seed list for a listing's address.
pub(crate) fn listing_seeds(nft_mint: &Address, seller: &Address) -> (r: Vec<Vec<u8>>)
    ensures
        seeds_view(r@) == listing_seeds_spec(nft_mint@, seller@),
{
    let mut seeds: Vec<Vec<u8>> = Vec::new();
    seeds.push(slice_to_vec("listing".as_bytes()));
    seeds.push(slice_to_vec(nft_mint.as_slice()));
    seeds.push(slice_to_vec(seller.as_slice()));
    proof {
        assert(seeds_view(seeds@) =~= listing_seeds_spec(nft_mint@, seller@));
    }
    seeds
}

/// Builds the exec seed list for an escrow's address.
pub(crate) fn escrow_seeds(listing_pda: &Address) -> (r: Vec<Vec<u8>>)
    ensures
        seeds_view(r@) == escrow_seeds_spec(listing_pda@),
{
    let mut seeds: Vec<Vec<u8>> = Vec::new();
    seeds.push(slice_to_vec("escrow".as_bytes()));
    seeds.push(slice_to_vec(listing_pda.as_slice()));
    proof {
        assert(seeds_view(seeds@) =~= escrow_seeds_spec(listing_pda@));
    }
    seeds
}

} // verus!
