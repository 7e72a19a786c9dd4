//! The catalog aggregator: merges the secure-cloud and community-cloud offer
//! lists into one deduplicated list keyed by offer identity.
//!
//! The result starts as the secure list in its original order; community
//! offers with an unseen id are appended in their original relative order,
//! and community offers whose id was already seen are reconciled into the
//! existing entry field by field. A best-price identity conflict during
//! reconciliation is surfaced as a recoverable `InvalidInput` error rather
//! than a process-level fault, so the caller can choose a recovery policy.

use vstd::prelude::*;
use crate::combine::{
    combine_lowest_price, lowest_price_identity_ok, lowest_price_sums_fit, opt_str_eq,
    spec_combine_lowest_price,
};
use crate::error::RunpodError;
use crate::text::{lemma_lex_le_reflexive, str_eq};
use crate::types::{GpuOffer, LowestPrice};

verus! {

/// Whether some entry of `acc` carries the given offer id.
pub open spec fn catalog_has_id(acc: Seq<GpuOffer>, id: Seq<char>) -> bool {
    exists|i: int| 0 <= i < acc.len() && acc[i].id@ == id
}

/// The position of the first entry of `acc` carrying the given offer id
/// (meaningful only when `catalog_has_id` holds).
pub open spec fn first_index_with_id(acc: Seq<GpuOffer>, id: Seq<char>) -> int
    decreases acc.len(),
{
    if acc.len() == 0 {
        0
    } else if acc[0].id@ == id {
        0
    } else {
        1 + first_index_with_id(acc.drop_first(), id)
    }
}

/// A position that carries the id and is preceded by no position that does is
/// the first such position.
proof fn lemma_first_index_is(acc: Seq<GpuOffer>, id: Seq<char>, j: int)
    requires
        0 <= j < acc.len(),
        acc[j].id@ == id,
        forall|k: int| 0 <= k < j ==> acc[k].id@ != id,
    ensures
        first_index_with_id(acc, id) == j,
    decreases j,
{
    if j > 0 {
        assert forall|k: int| 0 <= k < j - 1 implies acc.drop_first()[k].id@ != id by {
            assert(acc.drop_first()[k] == acc[k + 1]);
        }
        lemma_first_index_is(acc.drop_first(), id, j - 1);
    }
}

/// Whether the two offers' best-price records (when both are present) agree
/// on identity, so that merging the offers cannot fail.
pub open spec fn offer_merge_ok(s: GpuOffer, c: GpuOffer) -> bool {
    (s.lowest_price is Some && c.lowest_price is Some) ==> lowest_price_identity_ok(
        s.lowest_price->0,
        c.lowest_price->0,
    )
}

/// Whether merging the two offers' best-price counters cannot overflow.
pub open spec fn offer_sums_fit(s: GpuOffer, c: GpuOffer) -> bool {
    (s.lowest_price is Some && c.lowest_price is Some) ==> lowest_price_sums_fit(
        s.lowest_price->0,
        c.lowest_price->0,
    )
}

/// The message reported when the two offers' best-price records disagree on
/// identity (meaningful only when `offer_merge_ok` fails).
pub open spec fn merge_conflict_message(s: GpuOffer, c: GpuOffer) -> Seq<char> {
    if !opt_str_eq(s.lowest_price->0.gpu_name, c.lowest_price->0.gpu_name) {
        "GPU names do not match"@
    } else {
        "GPU types do not match"@
    }
}

/// The reconciliation of a community-side offer into the existing entry with
/// the same id: best prices are merged (or the present side kept), the listed
/// descriptive and price fields fall back to the community value only when
/// the existing value is absent, and every other field of the existing entry
/// is left untouched.
pub open spec fn spec_merge_offer(s: GpuOffer, c: GpuOffer) -> GpuOffer {
    GpuOffer {
        id: s.id,
        display_name: s.display_name,
        manufacturer: if s.manufacturer is Some {
            s.manufacturer
        } else {
            c.manufacturer
        },
        memory_in_gb: if s.memory_in_gb is Some {
            s.memory_in_gb
        } else {
            c.memory_in_gb
        },
        secure_cloud: s.secure_cloud,
        community_cloud: s.community_cloud,
        secure_price: if s.secure_price is Some {
            s.secure_price
        } else {
            c.secure_price
        },
        community_price: if s.community_price is Some {
            s.community_price
        } else {
            c.community_price
        },
        one_month_price: s.one_month_price,
        three_month_price: s.three_month_price,
        six_month_price: s.six_month_price,
        one_week_price: s.one_week_price,
        community_spot_price: if s.community_spot_price is Some {
            s.community_spot_price
        } else {
            c.community_spot_price
        },
        secure_spot_price: if s.secure_spot_price is Some {
            s.secure_spot_price
        } else {
            c.secure_spot_price
        },
        max_gpu_count: s.max_gpu_count,
        max_gpu_count_community_cloud: s.max_gpu_count_community_cloud,
        max_gpu_count_secure_cloud: s.max_gpu_count_secure_cloud,
        min_pod_gpu_count: s.min_pod_gpu_count,
        lowest_price: match (s.lowest_price, c.lowest_price) {
            (Some(sp), Some(cp)) => Some(spec_combine_lowest_price(sp, cp)),
            (None, cp) => cp,
            (sp, None) => sp,
        },
    }
}

/// Reconciles a community-side offer into the existing entry with the same
/// id. Fails exactly when both sides carry a best-price record and those
/// records disagree on identity.
pub fn merge_offer(existing: GpuOffer, community: GpuOffer) -> (r: Result<GpuOffer, RunpodError>)
    requires
        offer_sums_fit(existing, community),
    ensures
        r is Ok <==> offer_merge_ok(existing, community),
        offer_merge_ok(existing, community) ==> r == Ok::<GpuOffer, RunpodError>(
            spec_merge_offer(existing, community),
        ),
        !offer_merge_ok(existing, community) ==> (r matches Err(RunpodError::InvalidInput(m))
            && m@ == merge_conflict_message(existing, community)),
{
    let lowest_price = match (existing.lowest_price, community.lowest_price) {
        (Some(sp), Some(cp)) => match combine_lowest_price(sp, cp) {
            Ok(merged) => Some(merged),
            Err(e) => {
                return Err(e);
            },
        },
        (None, cp) => cp,
        (sp, None) => sp,
    };
    Ok(
        GpuOffer {
            id: existing.id,
            display_name: existing.display_name,
            manufacturer: match existing.manufacturer {
                Some(v) => Some(v),
                None => community.manufacturer,
            },
            memory_in_gb: match existing.memory_in_gb {
                Some(v) => Some(v),
                None => community.memory_in_gb,
            },
            secure_cloud: existing.secure_cloud,
            community_cloud: existing.community_cloud,
            secure_price: match existing.secure_price {
                Some(v) => Some(v),
                None => community.secure_price,
            },
            community_price: match existing.community_price {
                Some(v) => Some(v),
                None => community.community_price,
            },
            one_month_price: existing.one_month_price,
            three_month_price: existing.three_month_price,
            six_month_price: existing.six_month_price,
            one_week_price: existing.one_week_price,
            community_spot_price: match existing.community_spot_price {
                Some(v) => Some(v),
                None => community.community_spot_price,
            },
            secure_spot_price: match existing.secure_spot_price {
                Some(v) => Some(v),
                None => community.secure_spot_price,
            },
            max_gpu_count: existing.max_gpu_count,
            max_gpu_count_community_cloud: existing.max_gpu_count_community_cloud,
            max_gpu_count_secure_cloud: existing.max_gpu_count_secure_cloud,
            min_pod_gpu_count: existing.min_pod_gpu_count,
            lowest_price,
        },
    )
}

/// One aggregation step: the community offer `c` is appended when its id is
/// new, merged into the first entry with its id otherwise; a best-price
/// identity conflict yields the conflicting pair.
pub open spec fn spec_merge_step(acc: Seq<GpuOffer>, c: GpuOffer) -> Result<
    Seq<GpuOffer>,
    (GpuOffer, GpuOffer),
> {
    if catalog_has_id(acc, c.id@) {
        let i = first_index_with_id(acc, c.id@);
        if offer_merge_ok(acc[i], c) {
            Ok(acc.update(i, spec_merge_offer(acc[i], c)))
        } else {
            Err((acc[i], c))
        }
    } else {
        Ok(acc.push(c))
    }
}

/// The aggregation of the remaining community offers into the accumulated
/// catalog, processed in order; the first conflict aborts the whole pass.
pub open spec fn spec_aggregate_from(acc: Seq<GpuOffer>, rest: Seq<GpuOffer>) -> Result<
    Seq<GpuOffer>,
    (GpuOffer, GpuOffer),
>
    decreases rest.len(),
{
    if rest.len() == 0 {
        Ok(acc)
    } else {
        match spec_merge_step(acc, rest[0]) {
            Ok(acc2) => spec_aggregate_from(acc2, rest.drop_first()),
            Err(e) => Err(e),
        }
    }
}

/// The merged catalog: all secure offers first in their original order, then
/// the community-only offers in their original relative order, with matching
/// ids reconciled in place; or the first conflicting pair.
pub open spec fn spec_aggregate(secure: Seq<GpuOffer>, community: Seq<GpuOffer>) -> Result<
    Seq<GpuOffer>,
    (GpuOffer, GpuOffer),
> {
    spec_aggregate_from(secure, community)
}

/// Whether no counter addition along the aggregation pass can overflow.
pub open spec fn aggregate_sums_fit_from(acc: Seq<GpuOffer>, rest: Seq<GpuOffer>) -> bool
    decreases rest.len(),
{
    if rest.len() == 0 {
        true
    } else {
        let c = rest[0];
        &&& (catalog_has_id(acc, c.id@) ==> offer_sums_fit(
            acc[first_index_with_id(acc, c.id@)],
            c,
        ))
        &&& (match spec_merge_step(acc, c) {
            Ok(acc2) => aggregate_sums_fit_from(acc2, rest.drop_first()),
            Err(_) => true,
        })
    }
}

/// Whether no counter addition along the whole aggregation can overflow.
pub open spec fn aggregate_sums_fit(secure: Seq<GpuOffer>, community: Seq<GpuOffer>) -> bool {
    aggregate_sums_fit_from(secure, community)
}

/// Finds the position of the first entry carrying the given id.
fn find_offer_index(v: &Vec<GpuOffer>, id: &String) -> (r: Option<usize>)
    ensures
        r matches Some(j) ==> {
            &&& (j as int) < v@.len()
            &&& v@[j as int].id@ == id@
            &&& forall|k: int| 0 <= k < j ==> v@[k].id@ != id@
        },
        r is None ==> !catalog_has_id(v@, id@),
{
    let mut j: usize = 0;
    while j < v.len()
        invariant
            j <= v@.len(),
            forall|k: int| 0 <= k < j ==> v@[k].id@ != id@,
        decreases v@.len() - j,
    {
        if str_eq(v[j].id.as_str(), id.as_str()) {
            return Some(j);
        }
        j += 1;
    }
    None
}

/// Merges the secure and community catalogs into one deduplicated list.
///
/// The result is exactly `spec_aggregate` of the two inputs: secure offers
/// first, community-only offers appended, matching ids reconciled. The first
/// best-price identity conflict is reported as `InvalidInput`, naming the
/// field that disagreed, and never resolved silently.
#[verifier::loop_isolation(false)]
pub fn aggregate_secure_community(secure: Vec<GpuOffer>, community: Vec<GpuOffer>) -> (r: Result<
    Vec<GpuOffer>,
    RunpodError,
>)
    requires
        aggregate_sums_fit(secure@, community@),
    ensures
        r matches Ok(v) ==> spec_aggregate(secure@, community@) == Ok::<
            Seq<GpuOffer>,
            (GpuOffer, GpuOffer),
        >(v@),
        r matches Err(e) ==> {
            &&& spec_aggregate(secure@, community@) matches Err(pair)
            &&& e matches RunpodError::InvalidInput(m)
            &&& m@ == merge_conflict_message(
                spec_aggregate(secure@, community@)->Err_0.0,
                spec_aggregate(secure@, community@)->Err_0.1,
            )
        },
        r is Ok <==> spec_aggregate(secure@, community@) is Ok,
{
    let ghost sec0 = secure@;
    let ghost com0 = community@;
    let mut result = secure;
    let mut pending = community;
    while pending.len() > 0
        invariant
            spec_aggregate_from(result@, pending@) == spec_aggregate_from(sec0, com0),
            aggregate_sums_fit_from(result@, pending@),
        decreases pending@.len(),
    {
        let ghost acc_pre = result@;
        let ghost rest_pre = pending@;
        let pos = find_offer_index(&result, &pending[0].id);
        let c = pending.remove(0);
        let ghost cg = c;
        proof {
            assert(cg == rest_pre[0]);
            assert(pending@ =~= rest_pre.drop_first());
        }
        match pos {
            Some(j) => {
                proof {
                    assert(catalog_has_id(acc_pre, cg.id@));
                    lemma_first_index_is(acc_pre, cg.id@, j as int);
                }
                let ghost entry_g = result@[j as int];
                let entry = result.remove(j);
                match merge_offer(entry, c) {
                    Ok(merged) => {
                        result.insert(j, merged);
                        proof {
                            assert(result@ =~= acc_pre.update(
                                j as int,
                                spec_merge_offer(entry_g, cg),
                            ));
                            assert(spec_merge_step(acc_pre, cg) == Ok::<
                                Seq<GpuOffer>,
                                (GpuOffer, GpuOffer),
                            >(result@));
                        }
                    },
                    Err(e) => {
                        proof {
                            assert(spec_merge_step(acc_pre, cg) == Err::<
                                Seq<GpuOffer>,
                                (GpuOffer, GpuOffer),
                            >((entry_g, cg)));
                            assert(spec_aggregate_from(sec0, com0) == Err::<
                                Seq<GpuOffer>,
                                (GpuOffer, GpuOffer),
                            >((entry_g, cg)));
                        }
                        return Err(e);
                    },
                }
            },
            None => {
                result.push(c);
                proof {
                    assert(result@ =~= acc_pre.push(cg));
                    assert(spec_merge_step(acc_pre, cg) == Ok::<
                        Seq<GpuOffer>,
                        (GpuOffer, GpuOffer),
                    >(result@));
                }
            },
        }
    }
    proof {
        assert(spec_aggregate_from(result@, pending@) == Ok::<
            Seq<GpuOffer>,
            (GpuOffer, GpuOffer),
        >(result@));
    }
    Ok(result)
}

/// Whether the ids within one catalog are pairwise distinct.
pub open spec fn catalog_ids_distinct(a: Seq<GpuOffer>) -> bool {
    forall|i: int, j: int| 0 <= i < j < a.len() ==> a[i].id@ != a[j].id@
}

/// Whether no id occurs in both catalogs.
pub open spec fn catalogs_id_disjoint(a: Seq<GpuOffer>, b: Seq<GpuOffer>) -> bool {
    forall|i: int, j: int|
        0 <= i < a.len() && 0 <= j < b.len() ==> a[i].id@ != b[j].id@
}

/// Law: aggregating two catalogs with disjoint ids concatenates them — the
/// result has the length of both inputs together and contains every offer of
/// both, each field unmodified, secure offers first.
pub proof fn lemma_aggregate_disjoint_appends(a: Seq<GpuOffer>, b: Seq<GpuOffer>)
    requires
        catalogs_id_disjoint(a, b),
        catalog_ids_distinct(b),
    ensures
        spec_aggregate(a, b) == Ok::<Seq<GpuOffer>, (GpuOffer, GpuOffer)>(a + b),
        (a + b).len() == a.len() + b.len(),
        aggregate_sums_fit(a, b),
    decreases b.len(),
{
    if b.len() == 0 {
        assert(a + b =~= a);
    } else {
        let c = b[0];
        assert(!catalog_has_id(a, c.id@));
        assert(spec_merge_step(a, c) == Ok::<Seq<GpuOffer>, (GpuOffer, GpuOffer)>(a.push(c)));
        assert forall|i: int, j: int|
            0 <= i < a.push(c).len() && 0 <= j < b.drop_first().len() implies a.push(c)[i].id@
            != b.drop_first()[j].id@ by {
            assert(b.drop_first()[j] == b[j + 1]);
            if i < a.len() {
                assert(a.push(c)[i] == a[i]);
            } else {
                assert(a.push(c)[i] == b[0]);
            }
        }
        assert forall|i: int, j: int|
            0 <= i < j < b.drop_first().len() implies b.drop_first()[i].id@
            != b.drop_first()[j].id@ by {
            assert(b.drop_first()[i] == b[i + 1]);
            assert(b.drop_first()[j] == b[j + 1]);
        }
        lemma_aggregate_disjoint_appends(a.push(c), b.drop_first());
        assert(a.push(c) + b.drop_first() =~= a + b);
    }
}

/// Merging a best-price record with itself changes nothing, provided its
/// counters are absent (present counters would be summed and thus doubled).
proof fn lemma_combine_lowest_price_self(lp: LowestPrice)
    requires
        lp.rented_count is None,
        lp.total_count is None,
    ensures
        spec_combine_lowest_price(lp, lp) == lp,
{
    if lp.stock_status is Some {
        lemma_lex_le_reflexive(lp.stock_status->0@);
    }
}

/// Whether an offer's best-price record (if any) carries no counters.
pub open spec fn offer_counts_absent(o: GpuOffer) -> bool {
    o.lowest_price matches Some(lp) ==> (lp.rented_count is None && lp.total_count is None)
}

/// Merging an offer with itself is an observable no-op, provided its
/// best-price counters are absent.
proof fn lemma_merge_offer_self(o: GpuOffer)
    ensures
        offer_merge_ok(o, o),
        offer_sums_fit(o, o) || !offer_counts_absent(o),
        offer_counts_absent(o) ==> spec_merge_offer(o, o) == o,
{
    if o.lowest_price is Some && offer_counts_absent(o) {
        lemma_combine_lowest_price_self(o.lowest_price->0);
    }
}

proof fn lemma_aggregate_self_from(a: Seq<GpuOffer>, k: int)
    requires
        catalog_ids_distinct(a),
        forall|i: int| 0 <= i < a.len() ==> offer_counts_absent(#[trigger] a[i]),
        0 <= k <= a.len(),
    ensures
        spec_aggregate_from(a, a.skip(k)) == Ok::<Seq<GpuOffer>, (GpuOffer, GpuOffer)>(a),
        aggregate_sums_fit_from(a, a.skip(k)),
    decreases a.len() - k,
{
    if k == a.len() {
        assert(a.skip(k).len() == 0);
    } else {
        let c = a.skip(k)[0];
        assert(c == a[k]);
        assert(catalog_has_id(a, c.id@));
        assert forall|k2: int| 0 <= k2 < k implies a[k2].id@ != c.id@ by {
            assert(a[k2].id@ != a[k].id@);
        }
        lemma_first_index_is(a, c.id@, k);
        lemma_merge_offer_self(c);
        assert(a.update(k, spec_merge_offer(a[k], c)) =~= a);
        assert(spec_merge_step(a, c) == Ok::<Seq<GpuOffer>, (GpuOffer, GpuOffer)>(a));
        assert(a.skip(k).drop_first() =~= a.skip(k + 1));
        lemma_aggregate_self_from(a, k + 1);
    }
}

/// Law: aggregating a catalog with itself (same ids, identical field values)
/// yields the catalog unchanged — merging identical values is an observable
/// no-op — provided ids are distinct and best-price counters are absent
/// (present counters are summed across origins, so a self-merge would double
/// them).
pub proof fn lemma_aggregate_self_is_noop(a: Seq<GpuOffer>)
    requires
        catalog_ids_distinct(a),
        forall|i: int| 0 <= i < a.len() ==> offer_counts_absent(#[trigger] a[i]),
    ensures
        spec_aggregate(a, a) == Ok::<Seq<GpuOffer>, (GpuOffer, GpuOffer)>(a),
        aggregate_sums_fit(a, a),
{
    assert(a.skip(0) =~= a);
    lemma_aggregate_self_from(a, 0);
}

} // verus!
