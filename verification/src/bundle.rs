//! The bundle assembler: maps a whole list of claim records and packages the
//! resulting resources into the final paginated collection, with aggregate
//! metadata, a total count and one self-referencing link. The first mapping
//! failure aborts the whole batch; a resource count that does not fit the
//! total field's width is a numeric-overflow failure.

use vstd::prelude::*;
use vstd::string::StringExecFns;
use crate::types::MapError;
use crate::claims::ClaimRecord;
use crate::structures::{Bundle, BundleEntry, BundleLink, Meta};
use crate::mapper::{transform_claim_partd, claim_valid, error_matches, eob_matches};

verus! {

/// The larger of two optional timestamps; an absent value never wins over a
/// present one.
pub open spec fn max_opt(a: Option<u64>, b: Option<u64>) -> Option<u64> {
    match (a, b) {
        (Some(x), Some(y)) => if y >= x {
            Some(y)
        } else {
            Some(x)
        },
        (Some(x), None) => Some(x),
        (None, y) => y,
    }
}

/// The most recent last-updated timestamp across a list of claims; `None`
/// for an empty list (the convention this library fixes: an empty batch has
/// no aggregate timestamp, so the bundle metadata carries none).
pub open spec fn max_last_updated(claims: Seq<ClaimRecord>) -> Option<u64>
    decreases claims.len(),
{
    if claims.len() == 0 {
        None
    } else {
        max_opt(max_last_updated(claims.drop_last()), claims.last().last_updated)
    }
}

/// The bundle a list of valid claims assembles into: one entry per claim in
/// input order, total equal to the entry count, the searchset type tag, one
/// self link, and the aggregate last-updated timestamp.
pub open spec fn bundle_matches(claims: Seq<ClaimRecord>, b: Bundle) -> bool {
    &&& b.id@ == "eob-search-results"@
    &&& b.bundle_type@ == "searchset"@
    &&& b.meta matches Some(m) && m.last_updated == max_last_updated(claims)
    &&& b.total as int == claims.len()
    &&& b.link@.len() == 1
    &&& b.link@[0].relation@ == "self"@
    &&& b.link@[0].url@ == "/v1/fhir/ExplanationOfBenefit"@
    &&& b.entry@.len() == claims.len()
    &&& forall|i: int| 0 <= i < claims.len()
        ==> eob_matches(claims[i], (#[trigger] b.entry@[i]).resource)
}

/// Claim `i` is the first of the batch the mapper rejects.
pub open spec fn first_failure_at(claims: Seq<ClaimRecord>, i: int) -> bool {
    &&& 0 <= i < claims.len()
    &&& !claim_valid(claims[i])
    &&& forall|j: int| 0 <= j < i ==> claim_valid(#[trigger] claims[j])
}

/// The error a batch is rejected with: the first invalid claim's
/// invalid-source-data error, or numeric overflow when every claim is valid
/// but the count does not fit the total field.
pub open spec fn bundle_error_matches(claims: Seq<ClaimRecord>, e: MapError) -> bool {
    ||| exists|i: int| #[trigger] first_failure_at(claims, i) && error_matches(claims[i], e)
    ||| {
        &&& forall|i: int| 0 <= i < claims.len() ==> claim_valid(#[trigger] claims[i])
        &&& claims.len() > u32::MAX
        &&& e is NumericOverflow
    }
}

/// Transforms a batch of claim records into the final bundle.
///
/// Succeeds if and only if every claim is valid and the count fits the
/// total field's width; the first failure aborts the whole batch, with no
/// partial bundle.
pub fn transform_claims_partd(claims: Vec<ClaimRecord>) -> (r: Result<Bundle, MapError>)
    ensures
        r is Ok <==> (forall|i: int| 0 <= i < claims@.len() ==> claim_valid(#[trigger] claims@[i]))
            && claims@.len() <= u32::MAX,
        r matches Ok(b) ==> bundle_matches(claims@, b),
        r matches Err(e) ==> bundle_error_matches(claims@, e),
{
    let n = claims.len();
    let mut entries: Vec<BundleEntry> = Vec::new();
    let mut i: usize = 0;
    while i < n
        invariant
            n == claims@.len(),
            0 <= i <= n,
            entries@.len() == i,
            forall|j: int| 0 <= j < i ==> claim_valid(#[trigger] claims@[j]),
            forall|j: int| 0 <= j < i
                ==> eob_matches(claims@[j], (#[trigger] entries@[j]).resource),
        decreases n - i,
    {
        match transform_claim_partd(&claims[i]) {
            Ok(eob) => {
                entries.push(BundleEntry { resource: eob });
            },
            Err(e) => {
                proof {
                    assert(first_failure_at(claims@, i as int));
                }
                return Err(e);
            },
        }
        i += 1;
    }

    if n > u32::MAX as usize {
        return Err(MapError::NumericOverflow);
    }

    // The aggregate last-updated timestamp: the maximum across the batch.
    let mut last_updated: Option<u64> = None;
    let mut k: usize = 0;
    while k < n
        invariant
            n == claims@.len(),
            0 <= k <= n,
            last_updated == max_last_updated(claims@.take(k as int)),
        decreases n - k,
    {
        let ghost prefix = claims@.take(k as int);
        last_updated = match (last_updated, claims[k].last_updated) {
            (Some(x), Some(y)) => if y >= x {
                Some(y)
            } else {
                Some(x)
            },
            (Some(x), None) => Some(x),
            (None, y) => y,
        };
        proof {
            assert(claims@.take(k + 1 as int).drop_last() =~= prefix);
            assert(claims@.take(k + 1 as int).last() == claims@[k as int]);
        }
        k += 1;
    }
    proof {
        assert(claims@.take(n as int) =~= claims@);
    }

    let mut link: Vec<BundleLink> = Vec::new();
    link.push(BundleLink {
        relation: String::from_str("self"),
        url: String::from_str("/v1/fhir/ExplanationOfBenefit"),
    });

    Ok(Bundle {
        id: String::from_str("eob-search-results"),
        meta: Some(Meta { last_updated }),
        bundle_type: String::from_str("searchset"),
        total: n as u32,
        link,
        entry: entries,
    })
}

} // verus!
