use upx_gui::diagnostics::{classify, decode_tool_text, filter_text, Category};
use upx_gui::failure::{failure_of_output, Failure};

fn chars(s: &str) -> Vec<char> {
    s.chars().collect()
}

fn text(v: &[char]) -> String {
    v.iter().collect()
}

const BANNER: &str = "                       Ultimate Packer for eXecutables\n                          Copyright (C) 1996 - 2024\nUPX 4.2.4       Markus Oberhumer, Laszlo Molnar & John Reiser    May 9th 2024\n\n        File size         Ratio      Format      Name\n   --------------------   ------   -----------   -----------\n";

#[test]
fn already_packed_wins_over_noise() {
    let t = format!("{BANNER}upx: a.exe: AlreadyPackedException: already packed by UPX\r\n\nUnpacked 0 files.\n");
    assert_eq!(classify(&chars(&t)), Some(Category::AlreadyPacked));
    assert_eq!(classify(&chars("xx already packed yy; CantPackException")), Some(Category::AlreadyPacked));
}

#[test]
fn each_category_is_recognised() {
    assert_eq!(classify(&chars("upx: a.exe: NotPackedException: not packed by UPX")), Some(Category::NotPacked));
    assert_eq!(classify(&chars("upx: a.exe: CantPackException: file has overlay")), Some(Category::Overlay));
    assert_eq!(classify(&chars("upx: a.exe: NotCompressibleException")), Some(Category::NotCompressible));
    assert_eq!(classify(&chars("upx: a.exe: CantPackException: .NET files are not yet supported")), Some(Category::CannotPack));
    assert_eq!(classify(&chars("upx: a.exe: IOException: can't open 'a.exe'")), Some(Category::FileAccess));
    assert_eq!(classify(&chars("Permission denied")), Some(Category::FileAccess));
    assert_eq!(classify(&chars("something else entirely")), None);
    assert_eq!(classify(&chars("")), None);
}

#[test]
fn filter_drops_banner_blank_and_summary() {
    let t = format!("{BANNER}   4096 ->   2048   50.00%   win64/pe   a.exe\n\nPacked 1 file.\n  \n");
    assert_eq!(text(&filter_text(&chars(&t))), "   4096 ->   2048   50.00%   win64/pe   a.exe");
    assert_eq!(text(&filter_text(&chars(BANNER))), "");
    assert_eq!(text(&filter_text(&chars("one\r\ntwo\n\nthree"))), "one\ntwo\nthree");
}

#[test]
fn unknown_failure_keeps_informative_lines() {
    let t = format!("{BANNER}upx: a.exe: weird problem\n");
    match failure_of_output(&chars(&t)) {
        Failure::ToolFailed(d) => assert_eq!(d, "upx: a.exe: weird problem"),
        other => panic!("unexpected {:?}", other),
    }
    let f = failure_of_output(&chars(&t));
    assert_eq!(f.message(), "The packer failed:\nupx: a.exe: weird problem");
}

#[test]
fn silent_failure_gets_generic_message() {
    let f = failure_of_output(&chars(BANNER));
    assert_eq!(f.message(), "The packer failed.");
    assert_eq!(failure_of_output(&chars("")).message(), "The packer failed.");
}

#[test]
fn rejected_failure_message_names_remedy() {
    let f = failure_of_output(&chars("AlreadyPackedException"));
    assert_eq!(
        f.message(),
        "The file is already packed. Decompress it first or pick another file."
    );
}

#[test]
fn tool_text_is_decoded_from_gbk() {
    // "中文" in GBK, then ASCII.
    let bytes = vec![0xD6, 0xD0, 0xCE, 0xC4, b' ', b'o', b'k'];
    assert_eq!(decode_tool_text(&bytes), "中文 ok");
    assert_eq!(decode_tool_text(&Vec::new()), "");
}

#[test]
fn invalid_gbk_is_replaced_not_rejected() {
    let bytes = vec![b'a', 0xFF, b'b'];
    let s = decode_tool_text(&bytes);
    assert!(s.starts_with('a') && s.ends_with('b'));
    assert!(s.contains('\u{FFFD}'));
}
