use proc_supervisor::liveness::ProcessStatus;
use proc_supervisor::registry::TrackedProcess;
use proc_supervisor::report::{render_report, render_status_line};

#[test]
fn line_holds_name_decimal_id_and_flag() {
    let status = ProcessStatus {
        process: TrackedProcess::new(42, "worker".to_string()),
        alive: true,
    };
    assert_eq!(render_status_line(&status), "worker(42) -- alive: true");
}

#[test]
fn dead_process_line() {
    let status = ProcessStatus {
        process: TrackedProcess::new(9, "./finishes_fast.sh".to_string()),
        alive: false,
    };
    assert_eq!(
        render_status_line(&status),
        "./finishes_fast.sh(9) -- alive: false"
    );
}

#[test]
fn id_extremes_render_in_full() {
    let zero = ProcessStatus {
        process: TrackedProcess::new(0, "z".to_string()),
        alive: false,
    };
    assert_eq!(render_status_line(&zero), "z(0) -- alive: false");
    let largest = ProcessStatus {
        process: TrackedProcess::new(u32::MAX, "big".to_string()),
        alive: true,
    };
    assert_eq!(render_status_line(&largest), "big(4294967295) -- alive: true");
}

#[test]
fn report_frames_the_lines() {
    let status = vec![
        ProcessStatus { process: TrackedProcess::new(1, "a".to_string()), alive: true },
        ProcessStatus { process: TrackedProcess::new(2, "b".to_string()), alive: false },
    ];
    let report = render_report(&status);
    assert_eq!(
        report,
        vec![
            "--".to_string(),
            "a(1) -- alive: true".to_string(),
            "b(2) -- alive: false".to_string(),
            "".to_string(),
        ]
    );
}

#[test]
fn empty_report_is_just_the_frame() {
    let status: Vec<ProcessStatus> = Vec::new();
    assert_eq!(render_report(&status), vec!["--".to_string(), "".to_string()]);
}
