//! Null-safe reconciliation combinators: the minimum of two optional ordered
//! values, and the sum of two optional counters. An absent value on one side
//! never forces an absent result, and two absent sides stay absent, so
//! "unknown" remains distinguishable from "known zero".

use vstd::prelude::*;
use vstd::std_specs::cmp::PartialOrdSpec;
use core::cmp::Ordering;
use crate::error::RunpodError;
use crate::text::{lex_le, str_eq, str_le};
use crate::types::LowestPrice;

verus! {

/// The minimum of two optional values: the smaller one when both are present
/// (ties favor the left side), whichever is present when only one is, absent
/// when neither is.
pub open spec fn spec_min_option<T: PartialOrd + PartialOrdSpec>(
    a: Option<T>,
    b: Option<T>,
) -> Option<T> {
    match (a, b) {
        (Some(x), Some(y)) => if x.partial_cmp_spec(&y) matches Some(
            Ordering::Less | Ordering::Equal,
        ) {
            Some(x)
        } else {
            Some(y)
        },
        (Some(x), None) => Some(x),
        (None, Some(y)) => Some(y),
        (None, None) => None,
    }
}

/// Returns the smaller of two optional orderable values; if exactly one is
/// present, returns it; if neither is, returns `None`.
pub fn min_option<T: PartialOrd + PartialOrdSpec>(a: Option<T>, b: Option<T>) -> (r: Option<T>)
    requires
        T::obeys_partial_cmp_spec(),
    ensures
        r == spec_min_option(a, b),
{
    match (a, b) {
        (Some(x), Some(y)) => Some(if x.le(&y) { x } else { y }),
        (Some(x), None) => Some(x),
        (None, Some(y)) => Some(y),
        (None, None) => None,
    }
}

/// Whether adding the two optional counters cannot overflow `i64`.
pub open spec fn sum_fits(a: Option<i64>, b: Option<i64>) -> bool {
    (a is Some && b is Some) ==> i64::MIN <= a->0 + b->0 <= i64::MAX
}

/// The sum of two optional counters: the arithmetic sum when both are
/// present, whichever is present when only one is, absent when neither is.
pub open spec fn spec_add_option(a: Option<i64>, b: Option<i64>) -> Option<i64> {
    match (a, b) {
        (Some(x), Some(y)) => Some((x + y) as i64),
        (Some(x), None) => Some(x),
        (None, Some(y)) => Some(y),
        (None, None) => None,
    }
}

/// Returns the arithmetic sum if both values are present; otherwise returns
/// whichever is present, or `None` if neither is. Absent is not treated as
/// zero: two absent sides yield an absent sum.
pub fn add_option(a: Option<i64>, b: Option<i64>) -> (r: Option<i64>)
    requires
        sum_fits(a, b),
    ensures
        r == spec_add_option(a, b),
        (a is Some && b is Some) ==> r == Some((a->0 + b->0) as i64),
{
    match (a, b) {
        (Some(x), Some(y)) => Some(x + y),
        (Some(x), None) => Some(x),
        (None, Some(y)) => Some(y),
        (None, None) => None,
    }
}

/// Whether two optional strings agree, comparing present values by content.
pub open spec fn opt_str_eq(a: Option<String>, b: Option<String>) -> bool {
    match (a, b) {
        (Some(x), Some(y)) => x@ == y@,
        (None, None) => true,
        _ => false,
    }
}

/// Decides `opt_str_eq` on two optional strings.
pub fn option_string_eq(a: &Option<String>, b: &Option<String>) -> (r: bool)
    ensures
        r == opt_str_eq(*a, *b),
{
    match (a, b) {
        (Some(x), Some(y)) => str_eq(x.as_str(), y.as_str()),
        (None, None) => true,
        _ => false,
    }
}

/// The minimum of two optional strings under the lexicographic order
/// (ties favor the left side).
pub open spec fn spec_min_option_string(a: Option<String>, b: Option<String>) -> Option<String> {
    match (a, b) {
        (Some(x), Some(y)) => if lex_le(x@, y@) {
            Some(x)
        } else {
            Some(y)
        },
        (Some(x), None) => Some(x),
        (None, Some(y)) => Some(y),
        (None, None) => None,
    }
}

/// Returns the lexicographically smaller of two optional strings; if exactly
/// one is present, returns it; if neither, returns `None`.
pub fn min_option_string(a: Option<String>, b: Option<String>) -> (r: Option<String>)
    ensures
        r == spec_min_option_string(a, b),
{
    match (a, b) {
        (Some(x), Some(y)) => Some(
            if str_le(x.as_str(), y.as_str()) {
                x
            } else {
                y
            },
        ),
        (Some(x), None) => Some(x),
        (None, Some(y)) => Some(y),
        (None, None) => None,
    }
}

/// Whether two best-price records describe the same GPU type: they must agree
/// on both identity fields before they may be merged.
pub open spec fn lowest_price_identity_ok(s: LowestPrice, c: LowestPrice) -> bool {
    opt_str_eq(s.gpu_name, c.gpu_name) && opt_str_eq(s.gpu_type_id, c.gpu_type_id)
}

/// Whether merging the two records' counters cannot overflow.
pub open spec fn lowest_price_sums_fit(s: LowestPrice, c: LowestPrice) -> bool {
    sum_fits(s.rented_count, c.rented_count) && sum_fits(s.total_count, c.total_count)
}

/// The field-by-field combination of two best-price records for the same GPU
/// type: lower-is-better fields take the smaller side, counters are summed,
/// `support_public_ip` takes the first non-null side (secure preferred), and
/// `country_code`, `gpu_name`, `gpu_type_id` and `compliance` are taken from
/// the secure side unconditionally.
pub open spec fn spec_combine_lowest_price(s: LowestPrice, c: LowestPrice) -> LowestPrice {
    LowestPrice {
        gpu_name: s.gpu_name,
        gpu_type_id: s.gpu_type_id,
        minimum_bid_price: spec_min_option(s.minimum_bid_price, c.minimum_bid_price),
        uninterruptable_price: spec_min_option(s.uninterruptable_price, c.uninterruptable_price),
        min_memory: spec_min_option(s.min_memory, c.min_memory),
        min_vcpu: spec_min_option(s.min_vcpu, c.min_vcpu),
        rental_percentage: spec_min_option(s.rental_percentage, c.rental_percentage),
        rented_count: spec_add_option(s.rented_count, c.rented_count),
        total_count: spec_add_option(s.total_count, c.total_count),
        stock_status: spec_min_option_string(s.stock_status, c.stock_status),
        min_download: spec_min_option(s.min_download, c.min_download),
        min_disk: spec_min_option(s.min_disk, c.min_disk),
        min_upload: spec_min_option(s.min_upload, c.min_upload),
        country_code: s.country_code,
        support_public_ip: if s.support_public_ip is Some {
            s.support_public_ip
        } else {
            c.support_public_ip
        },
        compliance: s.compliance,
    }
}

/// Merges two best-price records believed to describe the same GPU type.
///
/// Fails with `InvalidInput` when the two sides disagree on `gpu_name`, and
/// independently when they disagree on `gpu_type_id`; the error message names
/// the field that disagreed, and a mismatch is never silently resolved.
pub fn combine_lowest_price(secure: LowestPrice, community: LowestPrice) -> (r: Result<
    LowestPrice,
    RunpodError,
>)
    requires
        lowest_price_sums_fit(secure, community),
    ensures
        r is Ok <==> lowest_price_identity_ok(secure, community),
        lowest_price_identity_ok(secure, community) ==> r == Ok::<LowestPrice, RunpodError>(
            spec_combine_lowest_price(secure, community),
        ),
        !opt_str_eq(secure.gpu_name, community.gpu_name) ==> (r matches Err(
            RunpodError::InvalidInput(m),
        ) && m@ == "GPU names do not match"@),
        (opt_str_eq(secure.gpu_name, community.gpu_name) && !opt_str_eq(
            secure.gpu_type_id,
            community.gpu_type_id,
        )) ==> (r matches Err(RunpodError::InvalidInput(m)) && m@ == "GPU types do not match"@),
{
    if !option_string_eq(&secure.gpu_name, &community.gpu_name) {
        return Err(RunpodError::InvalidInput("GPU names do not match".to_owned()));
    }
    if !option_string_eq(&secure.gpu_type_id, &community.gpu_type_id) {
        return Err(RunpodError::InvalidInput("GPU types do not match".to_owned()));
    }
    Ok(
        LowestPrice {
            gpu_name: secure.gpu_name,
            gpu_type_id: secure.gpu_type_id,
            minimum_bid_price: min_option(secure.minimum_bid_price, community.minimum_bid_price),
            uninterruptable_price: min_option(
                secure.uninterruptable_price,
                community.uninterruptable_price,
            ),
            min_memory: min_option(secure.min_memory, community.min_memory),
            min_vcpu: min_option(secure.min_vcpu, community.min_vcpu),
            rental_percentage: min_option(secure.rental_percentage, community.rental_percentage),
            rented_count: add_option(secure.rented_count, community.rented_count),
            total_count: add_option(secure.total_count, community.total_count),
            stock_status: min_option_string(secure.stock_status, community.stock_status),
            min_download: min_option(secure.min_download, community.min_download),
            min_disk: min_option(secure.min_disk, community.min_disk),
            min_upload: min_option(secure.min_upload, community.min_upload),
            country_code: secure.country_code,
            support_public_ip: match secure.support_public_ip {
                Some(v) => Some(v),
                None => community.support_public_ip,
            },
            compliance: secure.compliance,
        },
    )
}

/// Law: the merged country code is always the secure side's value, even when
/// the secure side has none and the community side has one — a deliberate
/// asymmetry, not a fallback.
pub proof fn lemma_country_code_secure_wins(s: LowestPrice, c: LowestPrice)
    ensures
        spec_combine_lowest_price(s, c).country_code == s.country_code,
{
}

} // verus!
