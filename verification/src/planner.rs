//! Planning of the pass depths for a job.
//!
//! The plan starts at the finish dimension, steps once by the finishing
//! increment, then repeatedly by the roughing step while still short of the
//! stock dimension.  The final pass may overshoot the stock dimension by up
//! to one roughing step: that clears the remaining stock and is intended.

use vstd::prelude::*;

use crate::params::COORD_LIMIT;
use crate::params::JobParams;

verus! {

/// How far `last` still is from `start_depth`, clamped at zero; the measure
/// by which the roughing recursion terminates.
pub open spec fn remaining_gap(last: int, start_depth: int) -> int {
    if last < start_depth {
        start_depth - last
    } else {
        0
    }
}

/// Depths of the roughing passes that follow a pass at `last`: one step at a
/// time until the running value is no longer short of `start_depth`.
pub open spec fn rough_passes(last: int, start_depth: int, step: int) -> Seq<int>
    recommends
        step > 0,
    decreases remaining_gap(last, start_depth),
        when step > 0
{
    if last < start_depth {
        seq![last + step] + rough_passes(last + step, start_depth, step)
    } else {
        Seq::empty()
    }
}

/// The full pass plan: the finishing pass, the pass one finishing increment
/// above it, then the roughing passes.
pub open spec fn plan_seq(finish_depth: int, finish_step: int, start_depth: int, step: int) -> Seq<
    int,
>
    recommends
        step > 0,
{
    seq![finish_depth, finish_depth + finish_step] + rough_passes(
        finish_depth + finish_step,
        start_depth,
        step,
    )
}

/// The pass plan of a job.
pub open spec fn plan_of(job: JobParams) -> Seq<int> {
    plan_seq(
        job.finish_depth as int,
        job.finish_step as int,
        job.start_depth as int,
        job.step as int,
    )
}

/// The mathematical values of a vector of fixed-point depths.
pub open spec fn depths_view(s: Seq<i64>) -> Seq<int> {
    s.map_values(|d: i64| d as int)
}

/// Every depth a plan or an emitter handles stays within twice the field
/// limit, so sums with the clearance cannot overflow.
pub open spec fn depth_in_range(d: int) -> bool {
    -2 * COORD_LIMIT <= d <= 2 * COORD_LIMIT
}

proof fn lemma_rough_passes_shape(last: int, start_depth: int, step: int)
    requires
        step > 0,
    ensures
        ({
            let r = rough_passes(last, start_depth, step);
            &&& (last >= start_depth ==> r.len() == 0)
            &&& (last < start_depth ==> r.len() >= 1 && r[0] == last + step && r.last()
                >= start_depth)
            &&& (forall|i: int| 0 <= i < r.len() ==> last < #[trigger] r[i] < start_depth + step)
            &&& (forall|i: int| 0 <= i < r.len() - 1 ==> #[trigger] r[i] < r[i + 1])
        }),
    decreases remaining_gap(last, start_depth),
{
    if last < start_depth {
        lemma_rough_passes_shape(last + step, start_depth, step);
    }
}

/// Shape of every plan made with a positive roughing step and a non-negative
/// finishing increment: at least two passes, the first at the finish
/// dimension, the second one finishing increment above it, depths never
/// decreasing, and the last pass at or beyond the stock dimension.
pub proof fn lemma_plan_properties(
    finish_depth: int,
    finish_step: int,
    start_depth: int,
    step: int,
)
    requires
        step > 0,
        finish_step >= 0,
    ensures
        ({
            let p = plan_seq(finish_depth, finish_step, start_depth, step);
            &&& p.len() >= 2
            &&& p[0] == finish_depth
            &&& p[1] == finish_depth + finish_step
            &&& (forall|i: int| 0 <= i < p.len() - 1 ==> #[trigger] p[i] <= p[i + 1])
            &&& p.last() >= start_depth
        }),
{
    lemma_rough_passes_shape(finish_depth + finish_step, start_depth, step);
}

/// A zero finishing increment duplicates the finishing pass: the plan's
/// first two depths are equal.
pub proof fn lemma_zero_finish_step_duplicates_first_pass(
    finish_depth: int,
    start_depth: int,
    step: int,
)
    requires
        step > 0,
    ensures
        ({
            let p = plan_seq(finish_depth, 0, start_depth, step);
            &&& p.len() >= 2
            &&& p[0] == p[1]
        }),
{
}

/// Computes the pass depths for `job`, in planning (ascending) order.
pub fn calculate_pass_depths(job: &JobParams) -> (r: Vec<i64>)
    requires
        job.wf(),
        job.step > 0,
    ensures
        depths_view(r@) == plan_of(*job),
        forall|i: int| 0 <= i < r@.len() ==> depth_in_range(#[trigger] r@[i] as int),
{
    let mut last: i64 = job.finish_depth + job.finish_step;
    let mut passes: Vec<i64> = Vec::new();
    passes.push(job.finish_depth);
    passes.push(last);
    proof {
        assert(depths_view(passes@) =~= seq![
            job.finish_depth as int,
            job.finish_depth as int + job.finish_step as int,
        ]);
    }
    while last < job.start_depth
        invariant
            job.wf(),
            job.step > 0,
            -2 * COORD_LIMIT <= last <= 2 * COORD_LIMIT,
            passes@.len() >= 2,
            passes@.last() == last,
            forall|i: int| 0 <= i < passes@.len() ==> depth_in_range(#[trigger] passes@[i] as int),
            depths_view(passes@) + rough_passes(
                last as int,
                job.start_depth as int,
                job.step as int,
            ) == plan_of(*job),
        decreases remaining_gap(last as int, job.start_depth as int),
    {
        let ghost old_passes = passes@;
        let ghost old_last = last as int;
        last = last + job.step;
        passes.push(last);
        proof {
            assert(depths_view(passes@) =~= depths_view(old_passes).push(last as int));
            assert(depths_view(passes@) + rough_passes(
                last as int,
                job.start_depth as int,
                job.step as int,
            ) =~= depths_view(old_passes) + rough_passes(
                old_last,
                job.start_depth as int,
                job.step as int,
            ));
        }
    }
    proof {
        assert(depths_view(passes@) =~= depths_view(passes@) + rough_passes(
            last as int,
            job.start_depth as int,
            job.step as int,
        ));
    }
    passes
}

} // verus!
