//! Locating the packer and reading its version banner.
use vstd::prelude::*;
use crate::diagnostics::{decode_tool_text, gbk_decoded};
use crate::lines::{first_line_of, split_lines};
use crate::text::{char_vec, owned, string_of};

verus! {

/// Where a packaged installation keeps the packer, relative to the
/// application's own directory.
pub fn packaged_tool_subpath() -> (r: String)
    ensures
        r@ == "_up_/upx/upx.exe"@,
{
    owned("_up_/upx/upx.exe")
}

/// Where a development tree keeps the packer, relative to the working directory.
pub fn development_tool_path() -> (r: String)
    ensures
        r@ == "../upx/upx.exe"@,
{
    owned("../upx/upx.exe")
}

/// Picks the packer: the packaged location when it is known and exists, else
/// the development location when it exists, else none.
pub fn choose_tool(
    packaged: Option<String>,
    packaged_exists: bool,
    development: String,
    development_exists: bool,
) -> (r: Option<String>)
    ensures
        match packaged {
            Some(p) if packaged_exists => r == Some(p),
            _ => if development_exists {
                r == Some(development)
            } else {
                r.is_none()
            },
        },
{
    match packaged {
        Some(p) if packaged_exists => Some(p),
        _ => if development_exists {
            Some(development)
        } else {
            None
        },
    }
}

/// The first line of a text, if it has any line.
pub fn first_line(text: &str) -> (r: Option<String>)
    ensures
        match r {
            Some(l) => first_line_of(text@) == Some(l@),
            None => first_line_of(text@).is_none(),
        },
{
    let cs = char_vec(text);
    let ls = split_lines(&cs);
    if ls.len() == 0 {
        None
    } else {
        assert(ls.deep_view()[0] == ls@[0]@);
        Some(string_of(&ls[0]))
    }
}

/// The packer's version banner: the first line of what `--version` printed.
pub fn version_banner(stdout: &Vec<u8>) -> (r: Option<String>)
    ensures
        match r {
            Some(l) => first_line_of(gbk_decoded(stdout@)) == Some(l@),
            None => first_line_of(gbk_decoded(stdout@)).is_none(),
        },
{
    let text = decode_tool_text(stdout);
    first_line(text.as_str())
}

} // verus!
