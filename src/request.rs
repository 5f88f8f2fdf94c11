//! What a caller asks the packer to do.
use vstd::prelude::*;
use crate::text::str_is;

verus! {

/// The two operations the packer performs.
#[derive(Clone, Copy, Debug, PartialEq, Eq, Structural)]
pub enum Mode {
    Compress,
    Decompress,
}

/// The mode a mode name selects, if any.
pub open spec fn mode_named(s: Seq<char>) -> Option<Mode> {
    if s == "compress"@ {
        Some(Mode::Compress)
    } else if s == "decompress"@ {
        Some(Mode::Decompress)
    } else {
        None
    }
}

/// Reads a mode name: `compress` or `decompress`.
pub fn parse_mode(s: &str) -> (r: Option<Mode>)
    ensures
        r == mode_named(s@),
{
    if str_is(s, "compress") {
        Some(Mode::Compress)
    } else if str_is(s, "decompress") {
        Some(Mode::Decompress)
    } else {
        None
    }
}

/// One request to compress or decompress a single file.
///
/// `mode` names the operation; `compression_level` is a digit or `best`;
/// `ultra_brute` overrides the level; equal input and output paths ask for the
/// file to be rewritten in place.
#[derive(Clone, Debug)]
pub struct InvocationRequest {
    pub mode: String,
    pub input_file: String,
    pub output_file: String,
    pub compression_level: String,
    pub backup: bool,
    pub ultra_brute: bool,
    pub force: bool,
}

impl InvocationRequest {
    /// Whether the request rewrites its input file in place.
    pub open spec fn overwrites(&self) -> bool {
        self.input_file@ == self.output_file@
    }

    pub fn is_overwrite(&self) -> (r: bool)
        ensures
            r == self.overwrites(),
    {
        self.input_file == self.output_file
    }
}

} // verus!
