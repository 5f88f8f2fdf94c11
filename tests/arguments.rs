use upx_gui::args::build_args;
use upx_gui::request::{parse_mode, InvocationRequest, Mode};

fn request(mode: &str, input: &str, output: &str, level: &str, ultra: bool, force: bool) -> InvocationRequest {
    InvocationRequest {
        mode: mode.to_string(),
        input_file: input.to_string(),
        output_file: output.to_string(),
        compression_level: level.to_string(),
        backup: false,
        ultra_brute: ultra,
        force,
    }
}

#[test]
fn mode_names() {
    assert_eq!(parse_mode("compress"), Some(Mode::Compress));
    assert_eq!(parse_mode("decompress"), Some(Mode::Decompress));
    assert_eq!(parse_mode("Compress"), None);
    assert_eq!(parse_mode(""), None);
}

#[test]
fn compress_to_other_file_with_level() {
    let r = request("compress", "a.exe", "b.exe", "9", false, false);
    assert_eq!(build_args(&r).unwrap(), vec!["-9", "a.exe", "-o", "b.exe", "--force-overwrite"]);
}

#[test]
fn compress_in_place_best_forced() {
    let r = request("compress", "a.exe", "a.exe", "best", false, true);
    assert_eq!(build_args(&r).unwrap(), vec!["--best", "--force", "a.exe", "--force-overwrite"]);
}

#[test]
fn ultra_brute_overrides_level() {
    let r = request("compress", "a.exe", "a.exe", "9", true, false);
    let args = build_args(&r).unwrap();
    assert_eq!(args, vec!["--ultra-brute", "--no-lzma", "a.exe", "--force-overwrite"]);
    assert!(!args.iter().any(|a| a == "-9"));
}

#[test]
fn decompress_orders_input_before_force() {
    let r = request("decompress", "a.exe", "b.exe", "9", false, true);
    assert_eq!(
        build_args(&r).unwrap(),
        vec!["-d", "a.exe", "--force", "-o", "b.exe", "--force-overwrite"]
    );
    let r = request("decompress", "a.exe", "a.exe", "best", true, false);
    assert_eq!(build_args(&r).unwrap(), vec!["-d", "a.exe", "--force-overwrite"]);
}

#[test]
fn unknown_mode_builds_nothing() {
    let r = request("shrink", "a.exe", "b.exe", "9", false, false);
    assert!(build_args(&r).is_none());
}

#[test]
fn identical_requests_identical_args() {
    let a = request("compress", "x.dll", "y.dll", "5", false, true);
    let b = a.clone();
    assert_eq!(build_args(&a), build_args(&b));
}

#[test]
fn overwrite_never_selects_output() {
    for mode in ["compress", "decompress"] {
        for ultra in [false, true] {
            for force in [false, true] {
                let r = request(mode, "same.exe", "same.exe", "7", ultra, force);
                assert!(!build_args(&r).unwrap().iter().any(|a| a == "-o"));
            }
        }
    }
}
