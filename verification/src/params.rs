//! Job and machine parameters.
//!
//! All dimensional fields are fixed-point counts of thousandths of a unit
//! (millimetres or inches, as `MachineParams::units_inch` says), so that the
//! three-decimal output format is exact.  The feed rate is carried verbatim
//! into the program text.

use vstd::prelude::*;

verus! {

/// Safety offset kept between tool and stock during rapid moves, in
/// thousandths of a unit (one full unit).
pub const CLEARANCE_MILLIS: i64 = 1000;

/// Largest magnitude accepted for a dimensional field, in thousandths.
/// Keeps every intermediate sum of two fields (plus the clearance) far from
/// `i64` overflow.
pub const COORD_LIMIT: i64 = 1_000_000_000_000;

/// The kind of machining operation to generate a program for.
pub enum JobType {
    /// Not yet implemented: the program carries an error marker instead of
    /// motion blocks.
    Boring,
    Facing,
    FaceBoring,
    Turning,
    /// Not yet implemented: the program carries an error marker instead of
    /// motion blocks.
    Drilling,
}

/// Parameters of one machining job.  Dimensional fields are in thousandths
/// of a unit; `feed` is emitted into the program verbatim.
pub struct JobParams {
    pub job_type: JobType,
    /// Outside dimension of the stock before cutting.
    pub start_depth: i64,
    /// Final outside dimension to reach.
    pub finish_depth: i64,
    /// Roughing depth of cut per pass; must be positive.
    pub step: i64,
    /// Finishing depth-of-cut increment; zero duplicates the finishing pass.
    pub finish_step: i64,
    /// Starting position along the travel axis.
    pub start_cut: i64,
    /// Signed travel distance; a negative value cuts away from the chuck.
    pub length: i64,
    /// Feed rate text, copied into each feed block unchanged.
    pub feed: String,
}

impl JobParams {
    /// All dimensional fields are small enough that the sums the generator
    /// forms cannot overflow.
    pub open spec fn wf(&self) -> bool {
        &&& -COORD_LIMIT <= self.start_depth <= COORD_LIMIT
        &&& -COORD_LIMIT <= self.finish_depth <= COORD_LIMIT
        &&& -COORD_LIMIT <= self.step <= COORD_LIMIT
        &&& -COORD_LIMIT <= self.finish_step <= COORD_LIMIT
        &&& -COORD_LIMIT <= self.start_cut <= COORD_LIMIT
        &&& -COORD_LIMIT <= self.length <= COORD_LIMIT
    }
}

/// Machine-level settings, consumed only by the preamble formatter.
pub struct MachineParams {
    pub rpm: i32,
    /// `false` selects counter-clockwise rotation.
    pub spindle_cw: bool,
    /// `true` selects inch units; `false` selects millimetres.
    pub units_inch: bool,
    pub tool_num: i32,
    /// `false` selects diameter interpretation of the lateral axis.
    pub radius_mode: bool,
}

/// Validation failure reported before any planning is done.
#[derive(Clone, Copy, Debug, PartialEq, Eq, Structural)]
pub enum GcodeError {
    /// A parameter makes planning impossible: the roughing step is not
    /// positive, so the pass sequence would never reach the stock dimension.
    InvalidParameter,
}

} // verus!
