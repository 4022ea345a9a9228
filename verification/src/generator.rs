//! Assembly of the complete program: preamble, cut section, end marker.
//!
//! The operation kind selects how the cut section is produced: turning cuts
//! along the travel axis at each planned lateral depth, facing and
//! face-boring cut laterally at each planned travel position (today through
//! one shared implementation), and the unimplemented operations degrade to a
//! literal error marker inside an otherwise well-formed program.

use vstd::prelude::*;

use crate::emitter::generate_x_cut;
use crate::emitter::generate_z_cut;
use crate::emitter::x_cut_text;
use crate::emitter::z_cut_text;
use crate::num_text::fmt_i32;
use crate::num_text::idec_text;
use crate::params::GcodeError;
use crate::params::JobParams;
use crate::params::JobType;
use crate::params::MachineParams;
use crate::planner::calculate_pass_depths;
use crate::planner::plan_of;
use vstd::string::StringExecFns;

verus! {

/// The program preamble for `machine`: absolute positioning, unit system,
/// path blending and plane selection, diameter/radius interpretation, tool
/// change, and spindle speed and direction.
pub open spec fn settings_text(machine: MachineParams) -> Seq<char> {
    "G90 "@ + (if machine.units_inch {
        "G20"@
    } else {
        "G21"@
    }) + " G64 G18 "@ + (if machine.radius_mode {
        "G8"@
    } else {
        "G7"@
    }) + "\nM6 T"@ + idec_text(machine.tool_num as int) + " G43\nG97 S"@ + idec_text(
        machine.rpm as int,
    ) + " "@ + (if machine.spindle_cw {
        "M3"@
    } else {
        "M4"@
    }) + "\n"@
}

/// Marker text substituted for the motion blocks of an operation that is not
/// yet implemented.
pub open spec fn unimplemented_marker(job_type: JobType) -> Seq<char> {
    match job_type {
        JobType::Boring => "ERROR: Boring functionality not yet available"@,
        JobType::Drilling => "ERROR: Drilling functionality not yet available"@,
        _ => Seq::empty(),
    }
}

/// Whether motion blocks are generated for this operation kind.  Where this
/// is false, the program's cut section is `unimplemented_marker` instead.
pub open spec fn operation_implemented_spec(job_type: JobType) -> bool {
    match job_type {
        JobType::Boring => false,
        JobType::Drilling => false,
        _ => true,
    }
}

/// Tells whether an operation kind has motion-block generation, so that a
/// caller can branch on the degraded (marker-carrying) programs without
/// inspecting their text.
pub fn operation_implemented(job_type: &JobType) -> (r: bool)
    ensures
        r == operation_implemented_spec(*job_type),
{
    match job_type {
        JobType::Boring => false,
        JobType::Drilling => false,
        _ => true,
    }
}

/// The cut section of the program: motion blocks for the implemented
/// operations, the error marker for the others.
pub open spec fn cut_section_text(job: JobParams) -> Seq<char> {
    match job.job_type {
        JobType::Boring => unimplemented_marker(JobType::Boring),
        JobType::Facing => x_cut_text(plan_of(job), job),
        JobType::FaceBoring => x_cut_text(plan_of(job), job),
        JobType::Turning => z_cut_text(plan_of(job), job),
        JobType::Drilling => unimplemented_marker(JobType::Drilling),
    }
}

/// The complete program: preamble, blank line, cut section, end marker.
pub open spec fn program_text(job: JobParams, machine: MachineParams) -> Seq<char> {
    settings_text(machine) + "\n"@ + cut_section_text(job) + "\nM2"@
}

/// Generation is a pure function of its parameters: identical job and
/// machine parameters always yield the identical program text, so repeated
/// generation is idempotent.
pub proof fn lemma_generation_idempotent(
    job_a: JobParams,
    job_b: JobParams,
    machine_a: MachineParams,
    machine_b: MachineParams,
)
    requires
        job_a == job_b,
        machine_a == machine_b,
    ensures
        program_text(job_a, machine_a) == program_text(job_b, machine_b),
{
}

/// Emits the machine-settings preamble.
pub fn machine_settings_generation(machine: &MachineParams) -> (r: String)
    ensures
        r@ == settings_text(*machine),
{
    let mut s = String::from_str("G90 ");
    s.append(if machine.units_inch { "G20" } else { "G21" });
    s.append(" G64 G18 ");
    s.append(if machine.radius_mode { "G8" } else { "G7" });
    s.append("\nM6 T");
    s.append(fmt_i32(machine.tool_num).as_str());
    s.append(" G43\nG97 S");
    s.append(fmt_i32(machine.rpm).as_str());
    s.append(" ");
    s.append(if machine.spindle_cw { "M3" } else { "M4" });
    s.append("\n");
    s
}

/// Plans the passes for a turning job and emits its depth-axis cut.
pub fn turning_generation(job: &JobParams) -> (r: String)
    requires
        job.wf(),
        job.step > 0,
    ensures
        r@ == z_cut_text(plan_of(*job), *job),
{
    let passes = calculate_pass_depths(job);
    generate_z_cut(passes, job)
}

/// Plans the passes for a facing job and emits its travel-axis cut.
pub fn facing_generation(job: &JobParams) -> (r: String)
    requires
        job.wf(),
        job.step > 0,
    ensures
        r@ == x_cut_text(plan_of(*job), *job),
{
    let passes = calculate_pass_depths(job);
    generate_x_cut(passes, job)
}

/// Plans the passes for a face-boring job and emits its travel-axis cut.
/// Today this coincides with the facing cut; the two operations are kept
/// separate because they may yet diverge.
pub fn face_boring_generation(job: &JobParams) -> (r: String)
    requires
        job.wf(),
        job.step > 0,
    ensures
        r@ == x_cut_text(plan_of(*job), *job),
{
    let passes = calculate_pass_depths(job);
    generate_x_cut(passes, job)
}

/// Generates the complete program for a job, or reports an invalid
/// parameter.  A non-positive roughing step is rejected before any depth is
/// planned: the plan would never reach the stock dimension.
pub fn generate_gcode(job: &JobParams, machine: &MachineParams) -> (r: Result<String, GcodeError>)
    requires
        job.wf(),
    ensures
        job.step > 0 ==> (r matches Ok(program) && program@ == program_text(*job, *machine)),
        job.step <= 0 ==> r == Err::<String, GcodeError>(GcodeError::InvalidParameter),
{
    if job.step <= 0 {
        return Err(GcodeError::InvalidParameter);
    }
    let cut_code = match job.job_type {
        JobType::Boring => String::from_str("ERROR: Boring functionality not yet available"),
        JobType::Facing => facing_generation(job),
        JobType::FaceBoring => face_boring_generation(job),
        JobType::Turning => turning_generation(job),
        JobType::Drilling => String::from_str("ERROR: Drilling functionality not yet available"),
    };
    let mut program = machine_settings_generation(machine);
    program.append("\n");
    program.append(cut_code.as_str());
    program.append("\nM2");
    Ok(program)
}

} // verus!
