use vstd::prelude::*;
use crate::addr::{Address, addr_eq, listing_pda_spec, escrow_pda_spec};
use crate::service::{AccountQuery, listing_fetch_spec, escrow_fetch_spec, listing_from_query,
    escrow_from_query};
use crate::state::{Listing, ListingV, Escrow};

verus! {

/// The request shape of the listing validation: the textual listing
/// address.
#[derive(Debug, Clone)]
pub struct ValidateListingInput {
    pub listing_pda: String,
}

/// One problem the validation found, named by the field it concerns.
#[derive(Debug, Clone)]
pub struct ValidationIssue {
    pub field: String,
    pub message: String,
}

/// The full validation report for one listing address.
#[derive(Debug, Clone)]
pub struct ValidateListingOutput {
    pub is_valid: bool,
    pub pda_correct: bool,
    pub escrow_exists: bool,
    pub escrow_consistent: bool,
    pub listing_active: bool,
    pub issues: Vec<ValidationIssue>,
}

/// The field name and message of one issue.
pub open spec fn issue_view(i: ValidationIssue) -> (Seq<char>, Seq<char>) {
    (i.field@, i.message@)
}

/// The issues the address checks of a fetched listing record produce, in
/// order: an address mismatch, then a stale stored bump; or the failure of
/// the derivation itself.
pub open spec fn listing_issues_spec(listing_pda: Seq<u8>, program_id: Seq<u8>, l: ListingV) -> Seq<
    (Seq<char>, Seq<char>),
> {
    match listing_pda_spec(l.nft_mint, l.seller, program_id) {
        Some((address, bump)) => (if address == listing_pda {
            Seq::<(Seq<char>, Seq<char>)>::empty()
        } else {
            seq![("pda"@, "Derived PDA does not match the queried address"@)]
        }) + (if bump == l.bump {
            Seq::<(Seq<char>, Seq<char>)>::empty()
        } else {
            seq![("bump"@, "Derived bump does not match the stored bump"@)]
        }),
        None => seq![("pda_derivation"@, "Failed to derive PDA"@)],
    }
}

/// The issues the escrow checks produce, in order: a broken back-reference,
/// an amount that differs from the listing price, and a settled escrow
/// beside a still-active listing. An escrow that cannot be fetched is not
/// an issue — listings without an escrow are valid.
pub open spec fn escrow_issues_spec(
    listing_pda: Seq<u8>,
    program_id: Seq<u8>,
    l: ListingV,
    eq: AccountQuery,
) -> Seq<(Seq<char>, Seq<char>)> {
    match escrow_pda_spec(listing_pda, program_id) {
        Some(derived) => match escrow_fetch_spec(program_id, eq) {
            Ok(e) => (if e.listing == listing_pda {
                Seq::<(Seq<char>, Seq<char>)>::empty()
            } else {
                seq![("escrow_listing"@, "Escrow listing reference mismatch"@)]
            }) + (if e.amount == l.price {
                Seq::<(Seq<char>, Seq<char>)>::empty()
            } else {
                seq![("escrow_amount"@, "Escrow amount does not match listing price"@)]
            }) + (if e.settled && l.active {
                seq![("state_consistency"@, "Escrow is settled but listing is still active"@)]
            } else {
                Seq::<(Seq<char>, Seq<char>)>::empty()
            }),
            Err(_) => Seq::<(Seq<char>, Seq<char>)>::empty(),
        },
        None => seq![("escrow_pda_derivation"@, "Failed to derive escrow PDA"@)],
    }
}

/// Every issue the validation reports, in order. A listing that cannot be
/// fetched short-circuits to a single issue.
pub open spec fn validate_issues_spec(
    listing_pda: Seq<u8>,
    program_id: Seq<u8>,
    lq: AccountQuery,
    eq: AccountQuery,
) -> Seq<(Seq<char>, Seq<char>)> {
    match listing_fetch_spec(program_id, lq) {
        Err(_) => seq![("listing"@, "Failed to fetch listing"@)],
        Ok(l) => listing_issues_spec(listing_pda, program_id, l) + escrow_issues_spec(
            listing_pda,
            program_id,
            l,
            eq,
        ),
    }
}

/// Whether the queried address re-derives from the listing's own fields.
pub open spec fn pda_correct_spec(listing_pda: Seq<u8>, program_id: Seq<u8>, l: ListingV) -> bool {
    listing_pda_spec(l.nft_mint, l.seller, program_id) matches Some((address, _)) && address
        == listing_pda
}

/// Builds one validation issue.
fn issue(field: &str, message: &str) -> (r: ValidationIssue)
    ensures
        r.field@ == field@,
        r.message@ == message@,
{
    ValidationIssue { field: field.to_owned(), message: message.to_owned() }
}

/// Validates a listing account: re-derives the listing address from the
/// record's own fields, derives the escrow address and checks the escrow's
/// consistency with the listing, and reports every issue found.
///
/// `listing_query` is the fetch made at `listing_pda`; `escrow_query` is
/// the fetch made at the derived escrow address.
pub fn validate_listing(
    program_id: &Address,
    listing_pda: &Address,
    listing_query: &AccountQuery,
    escrow_query: &AccountQuery,
) -> (r: ValidateListingOutput)
    ensures
        r.issues@.map_values(|i: ValidationIssue| issue_view(i)) == validate_issues_spec(
            listing_pda@,
            program_id@,
            *listing_query,
            *escrow_query,
        ),
        r.listing_active == (listing_fetch_spec(program_id@, *listing_query) matches Ok(l)
            && l.active),
        r.pda_correct == (listing_fetch_spec(program_id@, *listing_query) matches Ok(l)
            && pda_correct_spec(listing_pda@, program_id@, l)),
        r.escrow_exists == (listing_fetch_spec(program_id@, *listing_query) is Ok
            && escrow_pda_spec(listing_pda@, program_id@) is Some && escrow_fetch_spec(
            program_id@,
            *escrow_query,
        ) is Ok),
        r.escrow_consistent == (r.escrow_exists && (escrow_fetch_spec(
            program_id@,
            *escrow_query,
        ) matches Ok(e) && e.listing == listing_pda@)),
        r.is_valid == (r.pda_correct && r.issues@.len() == 0),
{
    let mut issues: Vec<ValidationIssue> = Vec::new();

    let listing = match listing_from_query(program_id, listing_query) {
        Ok(l) => l,
        Err(_) => {
            issues.push(issue("listing", "Failed to fetch listing"));
            proof {
                assert(issues@.map_values(|i: ValidationIssue| issue_view(i))
                    =~= validate_issues_spec(
                    listing_pda@,
                    program_id@,
                    *listing_query,
                    *escrow_query,
                ));
            }
            return ValidateListingOutput {
                is_valid: false,
                pda_correct: false,
                escrow_exists: false,
                escrow_consistent: false,
                listing_active: false,
                issues,
            };
        },
    };
    let listing_active = listing.active;

    let mut pda_correct = false;
    match Listing::derive_listing_pda(program_id, &listing.nft_mint, &listing.seller) {
        Ok((derived, derived_bump)) => {
            if addr_eq(&derived, listing_pda) {
                pda_correct = true;
            } else {
                issues.push(issue("pda", "Derived PDA does not match the queried address"));
            }
            if derived_bump != listing.bump {
                issues.push(issue("bump", "Derived bump does not match the stored bump"));
            }
        },
        Err(_) => {
            issues.push(issue("pda_derivation", "Failed to derive PDA"));
        },
    }
    proof {
        assert(issues@.map_values(|i: ValidationIssue| issue_view(i)) =~= listing_issues_spec(
            listing_pda@,
            program_id@,
            listing@,
        ));
    }

    let ghost issues_before_escrow = issues@;
    let mut escrow_exists = false;
    let mut escrow_consistent = false;
    match Escrow::derive_escrow_pda(program_id, listing_pda) {
        Ok(_) => {
            match escrow_from_query(program_id, escrow_query) {
                Ok(escrow) => {
                    escrow_exists = true;
                    if addr_eq(&escrow.listing, listing_pda) {
                        escrow_consistent = true;
                    } else {
                        issues.push(issue("escrow_listing", "Escrow listing reference mismatch"));
                    }
                    if escrow.amount != listing.price {
                        issues.push(
                            issue("escrow_amount", "Escrow amount does not match listing price"),
                        );
                    }
                    if escrow.settled && listing_active {
                        issues.push(
                            issue(
                                "state_consistency",
                                "Escrow is settled but listing is still active",
                            ),
                        );
                    }
                },
                Err(_) => {
                    // An absent escrow is valid: nothing has funded the
                    // listing yet.
                },
            }
        },
        Err(_) => {
            issues.push(issue("escrow_pda_derivation", "Failed to derive escrow PDA"));
        },
    }
    proof {
        assert(issues@.map_values(|i: ValidationIssue| issue_view(i)) =~= issues_before_escrow
            .map_values(|i: ValidationIssue| issue_view(i)) + escrow_issues_spec(
            listing_pda@,
            program_id@,
            listing@,
            *escrow_query,
        ));
        assert(issues@.map_values(|i: ValidationIssue| issue_view(i)) =~= validate_issues_spec(
            listing_pda@,
            program_id@,
            *listing_query,
            *escrow_query,
        ));
    }

    let is_valid = issues.len() == 0 && pda_correct;
    ValidateListingOutput {
        is_valid,
        pda_correct,
        escrow_exists,
        escrow_consistent,
        listing_active,
        issues,
    }
}

} // verus!
