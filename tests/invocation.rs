use upx_gui::failure::Failure;
use upx_gui::invocation::{success_report, Action, Invocation, Phase, ProcessOutput};
use upx_gui::request::InvocationRequest;

fn request(mode: &str, input: &str, output: &str, backup: bool) -> InvocationRequest {
    InvocationRequest {
        mode: mode.to_string(),
        input_file: input.to_string(),
        output_file: output.to_string(),
        compression_level: "9".to_string(),
        backup,
        ultra_brute: false,
        force: false,
    }
}

/// Drives an invocation through the checks, answering "exists" and "writable".
fn through_checks(req: InvocationRequest) -> (Invocation, Action) {
    let (mut inv, a) = Invocation::new(req);
    assert!(matches!(a, Action::LocateTool));
    let a = inv.on_tool_located(Some("upx.exe".to_string()));
    assert!(matches!(&a, Action::QueryVersion(p) if p == "upx.exe"));
    let a = inv.on_version_checked(true);
    assert!(matches!(&a, Action::CheckInput(p) if p == &inv.request.input_file));
    let a = inv.on_input_checked(true);
    (inv, a)
}

#[test]
fn read_only_target_fails_before_backup_or_spawn() {
    let (mut inv, a) = through_checks(request("compress", "a.exe", "a.exe", true));
    assert!(matches!(&a, Action::ReadAttributes(p) if p == "a.exe"));
    let a = inv.on_attributes(Ok(true));
    assert!(matches!(a, Action::Finish(Err(Failure::ReadOnlyTarget))));
    assert_eq!(inv.phase, Phase::Finished);
}

#[test]
fn missing_tool_and_unrunnable_tool() {
    let (mut inv, _) = Invocation::new(request("compress", "a.exe", "b.exe", false));
    assert!(matches!(inv.on_tool_located(None), Action::Finish(Err(Failure::ToolNotFound))));
    let (mut inv, _) = Invocation::new(request("compress", "a.exe", "b.exe", false));
    inv.on_tool_located(Some("upx.exe".to_string()));
    assert!(matches!(inv.on_version_checked(false), Action::Finish(Err(Failure::ToolUnavailable))));
}

#[test]
fn missing_input_is_reported_with_path() {
    let (mut inv, _) = Invocation::new(request("compress", "gone.exe", "b.exe", false));
    inv.on_tool_located(Some("upx.exe".to_string()));
    inv.on_version_checked(true);
    match inv.on_input_checked(false) {
        Action::Finish(Err(f @ Failure::InputMissing(_))) => {
            assert_eq!(f.message(), "Input file does not exist: gone.exe")
        }
        other => panic!("unexpected {:?}", other),
    }
}

#[test]
fn backup_comes_first_and_its_failure_stops_everything() {
    let (mut inv, a) = through_checks(request("compress", "a.exe", "b.exe", true));
    assert!(matches!(&a, Action::Backup(f, t) if f == "a.exe" && t == "a.exe.bak"));
    match inv.on_backup(Err("disk full".to_string())) {
        Action::Finish(Err(f)) => assert_eq!(f.message(), "Backing up the file failed: disk full"),
        other => panic!("unexpected {:?}", other),
    }
}

#[test]
fn unknown_mode_is_reported_after_checks() {
    let (mut inv, a) = through_checks(request("squash", "a.exe", "b.exe", false));
    assert!(matches!(a, Action::Finish(Err(Failure::UnknownMode))));
    assert_eq!(inv.phase, Phase::Finished);
    let _ = &mut inv;
}

#[test]
fn spawn_failure_is_distinct() {
    let (mut inv, a) = through_checks(request("compress", "a.exe", "b.exe", false));
    assert!(matches!(&a, Action::MeasureInput(p) if p == "a.exe"));
    let a = inv.on_input_measured(Some(10));
    assert!(matches!(&a, Action::Run(t, args) if t == "upx.exe" && args.len() == 5));
    match inv.on_process_finished(Err("access denied".to_string())) {
        Action::Finish(Err(f @ Failure::ProcessSpawnFailed(_))) => {
            assert_eq!(f.message(), "Running the packer failed: access denied")
        }
        other => panic!("unexpected {:?}", other),
    }
}

#[test]
fn tool_failure_is_classified() {
    let (mut inv, _) = through_checks(request("compress", "a.exe", "b.exe", false));
    inv.on_input_measured(Some(10));
    let out = ProcessOutput {
        success: false,
        stdout: Vec::new(),
        stderr: b"upx: a.exe: AlreadyPackedException: already packed by UPX\n".to_vec(),
    };
    assert!(matches!(
        inv.on_process_finished(Ok(out)),
        Action::Finish(Err(Failure::Rejected(upx_gui::diagnostics::Category::AlreadyPacked)))
    ));
}

/// Runs one request to completion, with the packer succeeding and the output
/// file having `new_size` bytes afterwards.
fn run_ok(req: InvocationRequest, original: u64, new_size: u64, stdout: &str) -> String {
    let (mut inv, a) = through_checks(req);
    let a = match a {
        Action::ReadAttributes(_) => inv.on_attributes(Ok(false)),
        other => other,
    };
    assert!(matches!(a, Action::MeasureInput(_)));
    inv.on_input_measured(Some(original));
    let out = ProcessOutput { success: true, stdout: stdout.as_bytes().to_vec(), stderr: Vec::new() };
    let a = inv.on_process_finished(Ok(out));
    assert!(matches!(&a, Action::MeasureOutput(p) if p == &inv.request.output_file));
    match inv.on_output_measured(Some(new_size)) {
        Action::Finish(Ok(report)) => report,
        other => panic!("unexpected {:?}", other),
    }
}

#[test]
fn compress_then_decompress_round_trip() {
    let packed = "        File size         Ratio      Format      Name\n   --------------------   ------   -----------   -----------\nPacked 1 file.\n";
    let r1 = run_ok(request("compress", "a.exe", "a.exe", false), 2048, 1024, packed);
    assert_eq!(
        r1,
        "Done.\nOutput: a.exe\nOriginal size: 2.00 KB\nProcessed size: 1.00 KB\nRatio: 50%"
    );
    let r2 = run_ok(request("decompress", "a.exe", "a.exe", false), 1024, 2048, "Unpacked 1 file.\n");
    assert_eq!(
        r2,
        "Done.\nOutput: a.exe\nOriginal size: 1.00 KB\nProcessed size: 2.00 KB\nRatio: 200%"
    );
}

#[test]
fn empty_original_reports_hundred_percent() {
    let r = run_ok(request("compress", "a.exe", "b.exe", false), 0, 0, "");
    assert!(r.ends_with("Ratio: 100%"));
}

#[test]
fn unreadable_sizes_count_as_zero_and_details_follow() {
    let (mut inv, _) = through_checks(request("compress", "a.exe", "b.exe", false));
    inv.on_input_measured(None);
    assert_eq!(inv.original_size, 0);
    let out = ProcessOutput { success: true, stdout: b"warning: odd section\n".to_vec(), stderr: Vec::new() };
    inv.on_process_finished(Ok(out));
    match inv.on_output_measured(None) {
        Action::Finish(Ok(report)) => assert_eq!(
            report,
            "Done.\nOutput: b.exe\nOriginal size: 0 bytes\nProcessed size: 0 bytes\nRatio: 100%\n\nPacker output:\nwarning: odd section"
        ),
        other => panic!("unexpected {:?}", other),
    }
}

#[test]
fn report_ratio_uses_rounding() {
    let r = success_report("o.exe", 100, 133, &Vec::new());
    assert_eq!(r, "Done.\nOutput: o.exe\nOriginal size: 100 bytes\nProcessed size: 133 bytes\nRatio: 133%");
}
