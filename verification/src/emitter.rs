//! Rendering of a pass-depth sequence as motion-block text.
//!
//! Both emitters consume the planned depths in descending order — the
//! roughing pass farthest from the finish dimension is cut first, the
//! finishing pass last — so the planned (ascending) sequence is reversed at
//! the point it is consumed.  Every coordinate is printed with exactly three
//! decimal places; the feed rate is printed verbatim.

use vstd::prelude::*;

use crate::num_text::fixed3_text;
use crate::num_text::fmt_fixed3;
use crate::params::CLEARANCE_MILLIS;
use crate::params::JobParams;
use crate::planner::depth_in_range;
use crate::planner::depths_view;
use vstd::string::StringExecFns;

verus! {

/// The two motion blocks of one pass when the depth axis is the tool's
/// lateral (X) position: rapid to the travel-axis start plus clearance and to
/// the pass depth, then feed along Z and retract beyond the stock dimension.
pub open spec fn z_pass_text(job: JobParams, d: int) -> Seq<char> {
    "G0 Z"@ + fixed3_text(job.start_cut + CLEARANCE_MILLIS) + " \n   X"@ + fixed3_text(d)
        + "\nG1 Z"@ + fixed3_text(job.start_cut - job.length) + " F"@ + job.feed@ + " \n   X"@
        + fixed3_text(job.start_depth + CLEARANCE_MILLIS) + " \n"@
}

/// The two motion blocks of one pass when the depth values are positions
/// along the travel (Z) axis: rapid to the lateral start and one clearance
/// beyond the pass position, then feed laterally and retract on both axes.
pub open spec fn x_pass_text(job: JobParams, d: int) -> Seq<char> {
    "G0 X"@ + fixed3_text(job.start_cut as int) + "\n   Z"@ + fixed3_text(d + CLEARANCE_MILLIS)
        + "\nG1 Z"@ + fixed3_text(d) + " F"@ + job.feed@ + "\n   X"@ + fixed3_text(
        job.start_cut - job.length,
    ) + "\n   Z"@ + fixed3_text(job.start_depth + CLEARANCE_MILLIS) + " \n"@
}

/// The per-pass texts in emission order: the planned depths reversed, each
/// rendered as its depth-axis pass.
pub open spec fn z_cut_blocks(depths: Seq<int>, job: JobParams) -> Seq<Seq<char>> {
    depths.reverse().map_values(|d: int| z_pass_text(job, d))
}

/// The per-pass texts in emission order: the planned depths reversed, each
/// rendered as its travel-axis pass.
pub open spec fn x_cut_blocks(depths: Seq<int>, job: JobParams) -> Seq<Seq<char>> {
    depths.reverse().map_values(|d: int| x_pass_text(job, d))
}

/// The full depth-axis cut text.
pub open spec fn z_cut_text(depths: Seq<int>, job: JobParams) -> Seq<char> {
    z_cut_blocks(depths, job).flatten()
}

/// The full travel-axis cut text.
pub open spec fn x_cut_text(depths: Seq<int>, job: JobParams) -> Seq<char> {
    x_cut_blocks(depths, job).flatten()
}

/// Emission order is the exact reverse of planning order: the pass text at
/// position `i` of either emitter's output renders the depth at position
/// `len - 1 - i` of the plan, so the largest planned depth is emitted first.
pub proof fn lemma_emission_reverses_plan(depths: Seq<int>, job: JobParams, i: int)
    requires
        0 <= i < depths.len(),
    ensures
        z_cut_blocks(depths, job).len() == depths.len(),
        x_cut_blocks(depths, job).len() == depths.len(),
        z_cut_blocks(depths, job)[i] == z_pass_text(job, depths[depths.len() - 1 - i]),
        x_cut_blocks(depths, job)[i] == x_pass_text(job, depths[depths.len() - 1 - i]),
{
}

/// Renders the two motion blocks of one depth-axis pass.
fn emit_z_pass(job: &JobParams, d: i64) -> (r: String)
    requires
        job.wf(),
        depth_in_range(d as int),
    ensures
        r@ == z_pass_text(*job, d as int),
{
    let mut s = String::from_str("G0 Z");
    s.append(fmt_fixed3(job.start_cut + CLEARANCE_MILLIS).as_str());
    s.append(" \n   X");
    s.append(fmt_fixed3(d).as_str());
    s.append("\nG1 Z");
    s.append(fmt_fixed3(job.start_cut - job.length).as_str());
    s.append(" F");
    s.append(job.feed.as_str());
    s.append(" \n   X");
    s.append(fmt_fixed3(job.start_depth + CLEARANCE_MILLIS).as_str());
    s.append(" \n");
    s
}

/// Renders the two motion blocks of one travel-axis pass.
fn emit_x_pass(job: &JobParams, d: i64) -> (r: String)
    requires
        job.wf(),
        depth_in_range(d as int),
    ensures
        r@ == x_pass_text(*job, d as int),
{
    let mut s = String::from_str("G0 X");
    s.append(fmt_fixed3(job.start_cut).as_str());
    s.append("\n   Z");
    s.append(fmt_fixed3(d + CLEARANCE_MILLIS).as_str());
    s.append("\nG1 Z");
    s.append(fmt_fixed3(d).as_str());
    s.append(" F");
    s.append(job.feed.as_str());
    s.append("\n   X");
    s.append(fmt_fixed3(job.start_cut - job.length).as_str());
    s.append("\n   Z");
    s.append(fmt_fixed3(job.start_depth + CLEARANCE_MILLIS).as_str());
    s.append(" \n");
    s
}

/// Emits the depth-axis (turning) motion blocks for the planned depths.
pub fn generate_z_cut(pass_depths: Vec<i64>, job: &JobParams) -> (r: String)
    requires
        job.wf(),
        forall|i: int|
            0 <= i < pass_depths@.len() ==> depth_in_range(#[trigger] pass_depths@[i] as int),
    ensures
        r@ == z_cut_text(depths_view(pass_depths@), *job),
{
    let ghost blocks = z_cut_blocks(depths_view(pass_depths@), *job);
    let mut code = String::new();
    let n = pass_depths.len();
    let mut k: usize = 0;
    while k < n
        invariant
            job.wf(),
            k <= n,
            n == pass_depths@.len(),
            forall|i: int|
                0 <= i < pass_depths@.len() ==> depth_in_range(#[trigger] pass_depths@[i] as int),
            blocks == z_cut_blocks(depths_view(pass_depths@), *job),
            blocks.len() == n,
            code@ == blocks.take(k as int).flatten(),
        decreases n - k,
    {
        let d = pass_depths[n - 1 - k];
        let pass = emit_z_pass(job, d);
        code.append(pass.as_str());
        proof {
            assert(blocks[k as int] == z_pass_text(*job, pass_depths@[n - 1 - k as int] as int));
            blocks.take(k as int).lemma_flatten_push(blocks[k as int]);
            assert(blocks.take(k as int + 1) =~= blocks.take(k as int).push(blocks[k as int]));
        }
        k = k + 1;
    }
    proof {
        assert(blocks.take(n as int) =~= blocks);
    }
    code
}

/// Emits the travel-axis (facing) motion blocks for the planned depths.
pub fn generate_x_cut(pass_depths: Vec<i64>, job: &JobParams) -> (r: String)
    requires
        job.wf(),
        forall|i: int|
            0 <= i < pass_depths@.len() ==> depth_in_range(#[trigger] pass_depths@[i] as int),
    ensures
        r@ == x_cut_text(depths_view(pass_depths@), *job),
{
    let ghost blocks = x_cut_blocks(depths_view(pass_depths@), *job);
    let mut code = String::new();
    let n = pass_depths.len();
    let mut k: usize = 0;
    while k < n
        invariant
            job.wf(),
            k <= n,
            n == pass_depths@.len(),
            forall|i: int|
                0 <= i < pass_depths@.len() ==> depth_in_range(#[trigger] pass_depths@[i] as int),
            blocks == x_cut_blocks(depths_view(pass_depths@), *job),
            blocks.len() == n,
            code@ == blocks.take(k as int).flatten(),
        decreases n - k,
    {
        let d = pass_depths[n - 1 - k];
        let pass = emit_x_pass(job, d);
        code.append(pass.as_str());
        proof {
            assert(blocks[k as int] == x_pass_text(*job, pass_depths@[n - 1 - k as int] as int));
            blocks.take(k as int).lemma_flatten_push(blocks[k as int]);
            assert(blocks.take(k as int + 1) =~= blocks.take(k as int).push(blocks[k as int]));
        }
        k = k + 1;
    }
    proof {
        assert(blocks.take(n as int) =~= blocks);
    }
    code
}

} // verus!
