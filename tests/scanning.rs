use upx_gui::icons::{icon_cache_file, is_thumbnail_cache, thumbnail_cache_dir};
use upx_gui::scan::{check_scan_root, decide_entry, is_candidate_file, EntryDecision, ScanError};
use upx_gui::tool::{choose_tool, development_tool_path, first_line, packaged_tool_subpath, version_banner};

#[test]
fn candidate_extensions() {
    assert!(is_candidate_file("a.exe"));
    assert!(is_candidate_file("LIB.DLL"));
    assert!(is_candidate_file("setup.v2.Exe"));
    assert!(!is_candidate_file("a.txt"));
    assert!(!is_candidate_file("a.exe.txt"));
    assert!(!is_candidate_file(".exe"));
    assert!(!is_candidate_file("exe"));
    assert!(!is_candidate_file("a."));
    assert!(!is_candidate_file(".."));
    assert!(!is_candidate_file("a.exee"));
}

#[test]
fn entries_without_subfolders() {
    assert_eq!(decide_entry("sub", true, false, false), EntryDecision::Skip);
    assert_eq!(decide_entry("a.exe", false, true, false), EntryDecision::Keep);
    assert_eq!(decide_entry("a.txt", false, true, false), EntryDecision::Skip);
}

#[test]
fn entries_with_subfolders() {
    assert_eq!(decide_entry("sub.exe", true, false, true), EntryDecision::Descend);
    assert_eq!(decide_entry("b.dll", false, true, true), EntryDecision::Keep);
    assert_eq!(decide_entry("b.md", false, true, true), EntryDecision::Skip);
}

#[test]
fn scan_root_checks() {
    assert!(check_scan_root("C:\\x", true, true).is_ok());
    match check_scan_root("C:\\x", false, false) {
        Err(e @ ScanError::PathNotFound(_)) => assert_eq!(e.message(), "Path does not exist: C:\\x"),
        other => panic!("unexpected {:?}", other),
    }
    match check_scan_root("f.exe", true, false) {
        Err(e @ ScanError::NotADirectory(_)) => assert_eq!(e.message(), "Not a folder: f.exe"),
        other => panic!("unexpected {:?}", other),
    }
}

#[test]
fn tool_location_order() {
    assert_eq!(packaged_tool_subpath(), "_up_/upx/upx.exe");
    assert_eq!(development_tool_path(), "../upx/upx.exe");
    let dev = development_tool_path();
    assert_eq!(choose_tool(Some("p".to_string()), true, dev.clone(), true), Some("p".to_string()));
    assert_eq!(choose_tool(Some("p".to_string()), false, dev.clone(), true), Some(dev.clone()));
    assert_eq!(choose_tool(None, true, dev.clone(), true), Some(dev.clone()));
    assert_eq!(choose_tool(Some("p".to_string()), false, dev, false), None);
}

#[test]
fn version_is_first_line() {
    assert_eq!(first_line("UPX 4.2.4\r\nUCL data compression library 1.03\n"), Some("UPX 4.2.4".to_string()));
    assert_eq!(first_line(""), None);
    assert_eq!(first_line("\nsecond"), Some(String::new()));
    assert_eq!(version_banner(&b"upx 4.2.4\nmore".to_vec()), Some("upx 4.2.4".to_string()));
    assert_eq!(version_banner(&Vec::new()), None);
}

#[test]
fn icon_cache_locations() {
    assert_eq!(icon_cache_file("C:\\Users\\me"), "C:\\Users\\me\\AppData\\Local\\IconCache.db");
    assert_eq!(thumbnail_cache_dir("C:\\Users\\me"), "C:\\Users\\me\\AppData\\Local\\Microsoft\\Windows\\Explorer");
    assert!(is_thumbnail_cache("thumbcache_256.db"));
    assert!(!is_thumbnail_cache("iconcache_256.db"));
    assert!(!is_thumbnail_cache("thumbcache"));
}

fn entry(path: &str, name: &str, is_dir: bool) -> upx_gui::scan::EntryInfo {
    upx_gui::scan::EntryInfo { path: path.to_string(), name: name.to_string(), is_dir, is_file: !is_dir }
}

#[test]
fn listing_without_subfolders_keeps_only_top_level_binaries() {
    let es = vec![
        entry("/d/a.exe", "a.exe", false),
        entry("/d/sub", "sub", true),
        entry("/d/readme.txt", "readme.txt", false),
        entry("/d/B.DLL", "B.DLL", false),
        entry("/d/x.exe", "x.exe", true),
    ];
    let l = upx_gui::scan::select_entries(&es, false);
    assert_eq!(l.files, vec!["/d/a.exe", "/d/B.DLL"]);
    assert!(l.subfolders.is_empty());
}

#[test]
fn listing_with_subfolders_enters_every_directory() {
    let es = vec![
        entry("/d/sub", "sub", true),
        entry("/d/a.dll", "a.dll", false),
        entry("/d/x.exe", "x.exe", true),
        entry("/d/notes.md", "notes.md", false),
    ];
    let l = upx_gui::scan::select_entries(&es, true);
    assert_eq!(l.files, vec!["/d/a.dll"]);
    assert_eq!(l.subfolders, vec!["/d/sub", "/d/x.exe"]);
    assert!(upx_gui::scan::select_entries(&Vec::new(), true).files.is_empty());
}

#[test]
fn shallow_scan_lists_root_only() {
    let mut scan = upx_gui::scan::FolderScan::new("/d".to_string(), false);
    assert_eq!(scan.next_folder(), Some("/d".to_string()));
    scan.on_listing(&vec![entry("/d/sub", "sub", true), entry("/d/a.exe", "a.exe", false)]);
    assert_eq!(scan.next_folder(), None);
    assert_eq!(scan.into_files(), vec!["/d/a.exe"]);
}

#[test]
fn deep_scan_collects_all_depths() {
    let mut scan = upx_gui::scan::FolderScan::new("/d".to_string(), true);
    assert_eq!(scan.next_folder(), Some("/d".to_string()));
    scan.on_listing(&vec![entry("/d/sub", "sub", true), entry("/d/a.exe", "a.exe", false)]);
    assert_eq!(scan.next_folder(), Some("/d/sub".to_string()));
    scan.on_listing(&vec![entry("/d/sub/deeper", "deeper", true), entry("/d/sub/b.txt", "b.txt", false)]);
    assert_eq!(scan.next_folder(), Some("/d/sub/deeper".to_string()));
    scan.on_listing(&vec![entry("/d/sub/deeper/c.DLL", "c.DLL", false)]);
    assert_eq!(scan.next_folder(), None);
    assert_eq!(scan.into_files(), vec!["/d/a.exe", "/d/sub/deeper/c.DLL"]);
}
