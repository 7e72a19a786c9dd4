//! The decision logic around the GPU listing flow: which catalog queries to
//! issue for a given origin filter, and the post-processing steps the
//! command-line surface applies to a fetched catalog (VRAM filtering and the
//! best-price projection). The network fetches themselves are performed by
//! the surrounding application, which feeds the results back to
//! `aggregate_secure_community` when both origins were queried.

use vstd::prelude::*;
use crate::types::{GpuOffer, LowestPrice};

verus! {

/// How a GPU listing request is to be served.
#[derive(Debug, Clone, Copy, PartialEq, Eq, Structural)]
pub enum CatalogQueryPlan {
    /// Issue exactly one catalog query scoped to the given origin and return
    /// its offers unmodified; the aggregator is not invoked.
    SingleOrigin { secure_cloud: bool },
    /// Issue one secure-scoped and one community-scoped query and merge the
    /// two result lists; a failure of either query aborts the operation.
    BothOrigins,
}

/// Decides how to serve a listing request: a definite origin filter maps to a
/// single scoped query, an unscoped request to the two-query merge.
pub fn plan_gpu_listing(secure_filter: Option<bool>) -> (r: CatalogQueryPlan)
    ensures
        secure_filter matches Some(s) ==> r == (CatalogQueryPlan::SingleOrigin {
            secure_cloud: s,
        }),
        secure_filter is None ==> r == CatalogQueryPlan::BothOrigins,
{
    match secure_filter {
        Some(secure_cloud) => CatalogQueryPlan::SingleOrigin { secure_cloud },
        None => CatalogQueryPlan::BothOrigins,
    }
}

/// Whether an offer can satisfy the requested amount of VRAM, counting all
/// GPUs of a maximal pod together: an absent GPU count counts as one GPU, an
/// absent memory size as zero.
pub open spec fn offer_meets_vram(o: GpuOffer, min_vram: i64) -> bool {
    (if o.memory_in_gb is Some {
        o.memory_in_gb->0
    } else {
        0
    }) * (if o.max_gpu_count is Some {
        o.max_gpu_count->0
    } else {
        1
    }) >= min_vram
}

/// The subsequence of offers that can satisfy the requested VRAM, in their
/// original order.
pub open spec fn spec_filter_vram(s: Seq<GpuOffer>, min_vram: i64) -> Seq<GpuOffer>
    decreases s.len(),
{
    if s.len() == 0 {
        Seq::empty()
    } else {
        let rest = spec_filter_vram(s.drop_last(), min_vram);
        if offer_meets_vram(s.last(), min_vram) {
            rest.push(s.last())
        } else {
            rest
        }
    }
}

/// Keeps the offers whose total VRAM (memory per GPU times maximal GPU
/// count) reaches `min_vram`, preserving order.
#[verifier::loop_isolation(false)]
pub fn filter_offers_by_vram(gpus: Vec<GpuOffer>, min_vram: i64) -> (r: Vec<GpuOffer>)
    ensures
        r@ == spec_filter_vram(gpus@, min_vram),
{
    let ghost g0 = gpus@;
    let mut pending = gpus;
    let mut kept: Vec<GpuOffer> = Vec::new();
    let ghost mut done: int = 0;
    while pending.len() > 0
        invariant
            0 <= done <= g0.len(),
            pending@ =~= g0.skip(done),
            kept@ == spec_filter_vram(g0.take(done), min_vram),
        decreases pending@.len(),
    {
        let o = pending.remove(0);
        proof {
            assert(o == g0[done]);
            assert(pending@ =~= g0.skip(done + 1));
        }
        let vram: i64 = match o.memory_in_gb {
            Some(v) => v,
            None => 0,
        };
        let count: i64 = match o.max_gpu_count {
            Some(v) => v,
            None => 1,
        };
        let wide_vram: i128 = vram as i128;
        let wide_count: i128 = count as i128;
        proof {
            assert(wide_vram * wide_count < i128::MAX && wide_vram * wide_count > i128::MIN)
                by (nonlinear_arith)
                requires
                    -0x8000_0000_0000_0000 <= wide_vram <= 0x7fff_ffff_ffff_ffff,
                    -0x8000_0000_0000_0000 <= wide_count <= 0x7fff_ffff_ffff_ffff,
            ;
        }
        if wide_vram * wide_count >= min_vram as i128 {
            kept.push(o);
        }
        proof {
            assert(g0.take(done + 1).drop_last() =~= g0.take(done));
            assert(g0.take(done + 1).last() == g0[done]);
            done = done + 1;
        }
    }
    proof {
        assert(g0.take(done) =~= g0);
    }
    kept
}

/// The best-price records of the offers that carry one, in catalog order.
pub open spec fn spec_lowest_prices(s: Seq<GpuOffer>) -> Seq<LowestPrice>
    decreases s.len(),
{
    if s.len() == 0 {
        Seq::empty()
    } else {
        let rest = spec_lowest_prices(s.drop_last());
        match s.last().lowest_price {
            Some(lp) => rest.push(lp),
            None => rest,
        }
    }
}

/// Projects a catalog onto the best-price records of the offers that carry
/// one, preserving order.
#[verifier::loop_isolation(false)]
pub fn collect_lowest_prices(gpus: Vec<GpuOffer>) -> (r: Vec<LowestPrice>)
    ensures
        r@ == spec_lowest_prices(gpus@),
{
    let ghost g0 = gpus@;
    let mut pending = gpus;
    let mut prices: Vec<LowestPrice> = Vec::new();
    let ghost mut done: int = 0;
    while pending.len() > 0
        invariant
            0 <= done <= g0.len(),
            pending@ =~= g0.skip(done),
            prices@ == spec_lowest_prices(g0.take(done)),
        decreases pending@.len(),
    {
        let o = pending.remove(0);
        proof {
            assert(o == g0[done]);
            assert(pending@ =~= g0.skip(done + 1));
        }
        if let Some(lp) = o.lowest_price {
            prices.push(lp);
        }
        proof {
            assert(g0.take(done + 1).drop_last() =~= g0.take(done));
            assert(g0.take(done + 1).last() == g0[done]);
            done = done + 1;
        }
    }
    proof {
        assert(g0.take(done) =~= g0);
    }
    prices
}

} // verus!
