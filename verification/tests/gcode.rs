use lathe_gcode::calculate_pass_depths;
use lathe_gcode::face_boring_generation;
use lathe_gcode::facing_generation;
use lathe_gcode::fmt_fixed3;
use lathe_gcode::fmt_i32;
use lathe_gcode::fmt_u64;
use lathe_gcode::generate_gcode;
use lathe_gcode::generate_x_cut;
use lathe_gcode::generate_z_cut;
use lathe_gcode::get_bool;
use lathe_gcode::get_i32;
use lathe_gcode::machine_settings_generation;
use lathe_gcode::operation_implemented;
use lathe_gcode::turning_generation;
use lathe_gcode::GcodeError;
use lathe_gcode::JobParams;
use lathe_gcode::JobType;
use lathe_gcode::MachineParams;

fn example_job(job_type: JobType) -> JobParams {
    JobParams {
        job_type,
        start_depth: 10_000,
        finish_depth: 8_000,
        step: 1_000,
        finish_step: 200,
        start_cut: 0,
        length: 5_000,
        feed: String::from("100"),
    }
}

fn example_machine() -> MachineParams {
    MachineParams {
        rpm: 1000,
        spindle_cw: true,
        units_inch: false,
        tool_num: 3,
        radius_mode: false,
    }
}

const EXAMPLE_PREAMBLE: &str = "G90 G21 G64 G18 G7\nM6 T3 G43\nG97 S1000 M3\n";

#[test]
fn plan_example_depths() {
    let job = example_job(JobType::Turning);
    let passes = calculate_pass_depths(&job);
    assert_eq!(passes, vec![8_000, 8_200, 9_200, 10_200]);
}

#[test]
fn plan_zero_finish_step_duplicates() {
    let mut job = example_job(JobType::Turning);
    job.finish_step = 0;
    let passes = calculate_pass_depths(&job);
    assert_eq!(passes[0], 8_000);
    assert_eq!(passes[1], 8_000);
}

#[test]
fn plan_already_at_stock() {
    let mut job = example_job(JobType::Turning);
    job.finish_depth = 10_000;
    job.finish_step = 0;
    let passes = calculate_pass_depths(&job);
    assert_eq!(passes, vec![10_000, 10_000]);
}

#[test]
fn plan_overshoot_is_kept() {
    let mut job = example_job(JobType::Turning);
    job.finish_step = 500;
    // 8.5 then steps of 1.0: the last pass lands on 10.5, half a step past
    // the stock dimension.
    let passes = calculate_pass_depths(&job);
    assert_eq!(passes, vec![8_000, 8_500, 9_500, 10_500]);
}

#[test]
fn nonpositive_step_is_rejected() {
    let mut job = example_job(JobType::Turning);
    job.step = 0;
    assert_eq!(
        generate_gcode(&job, &example_machine()),
        Err(GcodeError::InvalidParameter)
    );
    job.step = -1_000;
    assert_eq!(
        generate_gcode(&job, &example_machine()),
        Err(GcodeError::InvalidParameter)
    );
}

#[test]
fn emission_order_reverses_planning_order() {
    let job = example_job(JobType::Turning);
    let cut = generate_z_cut(vec![8_000, 10_200], &job);
    let largest_first = cut.find("X10.200").unwrap();
    let finish_last = cut.find("X8.000").unwrap();
    assert!(largest_first < finish_last);
}

#[test]
fn turning_cut_blocks() {
    let job = example_job(JobType::Turning);
    let cut = turning_generation(&job);
    let expected = "G0 Z1.000 \n   X10.200\nG1 Z-5.000 F100 \n   X11.000 \nG0 Z1.000 \n   X9.200\nG1 Z-5.000 F100 \n   X11.000 \nG0 Z1.000 \n   X8.200\nG1 Z-5.000 F100 \n   X11.000 \nG0 Z1.000 \n   X8.000\nG1 Z-5.000 F100 \n   X11.000 \n";
    assert_eq!(cut, expected);
}

#[test]
fn turning_program_text() {
    let job = example_job(JobType::Turning);
    let machine = example_machine();
    let program = generate_gcode(&job, &machine).unwrap();
    let cut = "G0 Z1.000 \n   X10.200\nG1 Z-5.000 F100 \n   X11.000 \nG0 Z1.000 \n   X9.200\nG1 Z-5.000 F100 \n   X11.000 \nG0 Z1.000 \n   X8.200\nG1 Z-5.000 F100 \n   X11.000 \nG0 Z1.000 \n   X8.000\nG1 Z-5.000 F100 \n   X11.000 \n";
    let expected = format!("{}\n{}\nM2", EXAMPLE_PREAMBLE, cut);
    assert_eq!(program, expected);
}

#[test]
fn facing_cut_blocks() {
    let job = example_job(JobType::Facing);
    let cut = facing_generation(&job);
    let expected = "G0 X0.000\n   Z11.200\nG1 Z10.200 F100\n   X-5.000\n   Z11.000 \nG0 X0.000\n   Z10.200\nG1 Z9.200 F100\n   X-5.000\n   Z11.000 \nG0 X0.000\n   Z9.200\nG1 Z8.200 F100\n   X-5.000\n   Z11.000 \nG0 X0.000\n   Z9.000\nG1 Z8.000 F100\n   X-5.000\n   Z11.000 \n";
    assert_eq!(cut, expected);
}

#[test]
fn facing_and_face_boring_coincide() {
    let facing = facing_generation(&example_job(JobType::Facing));
    let face_boring = face_boring_generation(&example_job(JobType::FaceBoring));
    assert_eq!(facing, face_boring);
    let a = generate_gcode(&example_job(JobType::Facing), &example_machine()).unwrap();
    let b = generate_gcode(&example_job(JobType::FaceBoring), &example_machine()).unwrap();
    assert_eq!(a, b);
}

#[test]
fn x_cut_direct_emission() {
    let job = example_job(JobType::Facing);
    let cut = generate_x_cut(vec![9_000], &job);
    assert_eq!(
        cut,
        "G0 X0.000\n   Z10.000\nG1 Z9.000 F100\n   X-5.000\n   Z11.000 \n"
    );
}

#[test]
fn boring_program_carries_marker() {
    let program = generate_gcode(&example_job(JobType::Boring), &example_machine()).unwrap();
    assert!(program.starts_with(EXAMPLE_PREAMBLE));
    assert!(program.contains("not yet available"));
    assert!(program.contains("ERROR: Boring functionality not yet available"));
    assert!(program.ends_with("M2"));
}

#[test]
fn drilling_program_carries_marker() {
    let program = generate_gcode(&example_job(JobType::Drilling), &example_machine()).unwrap();
    assert!(program.starts_with(EXAMPLE_PREAMBLE));
    assert!(program.contains("ERROR: Drilling functionality not yet available"));
    assert!(program.ends_with("M2"));
}

#[test]
fn unimplemented_operations_are_detectable() {
    assert!(!operation_implemented(&JobType::Boring));
    assert!(!operation_implemented(&JobType::Drilling));
    assert!(operation_implemented(&JobType::Turning));
    assert!(operation_implemented(&JobType::Facing));
    assert!(operation_implemented(&JobType::FaceBoring));
}

#[test]
fn generation_is_idempotent() {
    let job = example_job(JobType::Turning);
    let machine = example_machine();
    let first = generate_gcode(&job, &machine).unwrap();
    let second = generate_gcode(&job, &machine).unwrap();
    assert_eq!(first, second);
}

#[test]
fn machine_settings_mm_diameter_cw() {
    let preamble = machine_settings_generation(&example_machine());
    assert_eq!(preamble, EXAMPLE_PREAMBLE);
}

#[test]
fn machine_settings_inch_radius_ccw() {
    let machine = MachineParams {
        rpm: 250,
        spindle_cw: false,
        units_inch: true,
        tool_num: 12,
        radius_mode: true,
    };
    let preamble = machine_settings_generation(&machine);
    assert_eq!(preamble, "G90 G20 G64 G18 G8\nM6 T12 G43\nG97 S250 M4\n");
}

#[test]
fn fixed_point_formatting() {
    assert_eq!(fmt_fixed3(10_200), "10.200");
    assert_eq!(fmt_fixed3(0), "0.000");
    assert_eq!(fmt_fixed3(-500), "-0.500");
    assert_eq!(fmt_fixed3(-5_000), "-5.000");
    assert_eq!(fmt_fixed3(1_234_567), "1234.567");
    assert_eq!(fmt_fixed3(1), "0.001");
}

#[test]
fn integer_formatting() {
    assert_eq!(fmt_u64(0), "0");
    assert_eq!(fmt_u64(1_234_567_890_123), "1234567890123");
    assert_eq!(fmt_i32(0), "0");
    assert_eq!(fmt_i32(-42), "-42");
    assert_eq!(fmt_i32(i32::MIN), "-2147483648");
    assert_eq!(fmt_i32(i32::MAX), "2147483647");
}

#[test]
fn bool_answers() {
    assert_eq!(get_bool("y"), Some(true));
    assert_eq!(get_bool("n"), Some(false));
    assert_eq!(get_bool(""), None);
    assert_eq!(get_bool("yes"), None);
    assert_eq!(get_bool("x"), None);
}

#[test]
fn integer_answers() {
    assert_eq!(get_i32("42"), Some(42));
    assert_eq!(get_i32("-17"), Some(-17));
    assert_eq!(get_i32("+5"), Some(5));
    assert_eq!(get_i32("007"), Some(7));
    assert_eq!(get_i32("0"), Some(0));
    assert_eq!(get_i32(""), None);
    assert_eq!(get_i32("-"), None);
    assert_eq!(get_i32("+"), None);
    assert_eq!(get_i32("12a"), None);
    assert_eq!(get_i32(" 12"), None);
    assert_eq!(get_i32("2147483647"), Some(i32::MAX));
    assert_eq!(get_i32("2147483648"), None);
    assert_eq!(get_i32("-2147483648"), Some(i32::MIN));
    assert_eq!(get_i32("-2147483649"), None);
    assert_eq!(get_i32("99999999999999999999"), None);
}

#[test]
fn parser_agrees_with_std() {
    let samples = [
        "42",
        "-17",
        "+5",
        "007",
        "0",
        "",
        "-",
        "+",
        "12a",
        " 12",
        "2147483647",
        "2147483648",
        "-2147483648",
        "-2147483649",
        "99999999999999999999",
        "+0",
        "-0",
    ];
    for s in samples {
        assert_eq!(get_i32(s), s.parse::<i32>().ok(), "input {:?}", s);
    }
}
