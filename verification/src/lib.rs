//! Generator for lathe G-code programs.
//!
//! A machining job is described by [`JobParams`] (dimensions and cut depths,
//! held as fixed-point values in thousandths of a unit, plus a verbatim feed
//! rate) together with [`MachineParams`] (spindle, units, tool).  The library
//! plans the sequence of cut depths for the job, renders the motion blocks for
//! each pass, and wraps them with the machine-settings preamble and the
//! program-end marker, producing the complete program text.

pub mod emitter;
pub mod generator;
pub mod input;
pub mod num_text;
pub mod params;
pub mod planner;

pub use emitter::generate_x_cut;
pub use emitter::generate_z_cut;
pub use generator::face_boring_generation;
pub use generator::facing_generation;
pub use generator::generate_gcode;
pub use generator::machine_settings_generation;
pub use generator::operation_implemented;
pub use generator::turning_generation;
pub use input::get_bool;
pub use input::get_i32;
pub use num_text::fmt_fixed3;
pub use num_text::fmt_i32;
pub use num_text::fmt_u64;
pub use params::GcodeError;
pub use params::JobParams;
pub use params::JobType;
pub use params::MachineParams;
pub use params::CLEARANCE_MILLIS;
pub use params::COORD_LIMIT;
pub use planner::calculate_pass_depths;
