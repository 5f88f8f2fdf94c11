//! The packer's command line for a request.
use vstd::prelude::*;
use crate::request::{mode_named, parse_mode, InvocationRequest, Mode};
use crate::text::{owned, push_string, str_is};

verus! {

/// Flags that choose how hard to compress.
pub open spec fn level_args(level: Seq<char>, ultra_brute: bool) -> Seq<Seq<char>> {
    if ultra_brute {
        seq!["--ultra-brute"@, "--no-lzma"@]
    } else if level == "best"@ {
        seq!["--best"@]
    } else {
        seq!["-"@ + level]
    }
}

pub open spec fn force_args(force: bool) -> Seq<Seq<char>> {
    if force {
        seq!["--force"@]
    } else {
        Seq::empty()
    }
}

/// Where the result goes: nothing when rewriting in place, else `-o <output>`.
pub open spec fn output_args(input: Seq<char>, output: Seq<char>) -> Seq<Seq<char>> {
    if input == output {
        Seq::empty()
    } else {
        seq!["-o"@, output]
    }
}

/// The full argument list for a mode and the request's options.
pub open spec fn command_args(
    mode: Mode,
    level: Seq<char>,
    ultra_brute: bool,
    force: bool,
    input: Seq<char>,
    output: Seq<char>,
) -> Seq<Seq<char>> {
    match mode {
        Mode::Compress => level_args(level, ultra_brute) + force_args(force) + seq![input]
            + output_args(input, output) + seq!["--force-overwrite"@],
        Mode::Decompress => seq!["-d"@, input] + force_args(force) + output_args(input, output)
            + seq!["--force-overwrite"@],
    }
}

/// The argument list for a request, or `None` when its mode is unknown.
pub open spec fn request_args(req: InvocationRequest) -> Option<Seq<Seq<char>>> {
    match mode_named(req.mode@) {
        Some(m) => Some(
            command_args(
                m,
                req.compression_level@,
                req.ultra_brute,
                req.force,
                req.input_file@,
                req.output_file@,
            ),
        ),
        None => None,
    }
}

/// Builds the ordered arguments for the packer; `None` when the request's
/// mode is neither `compress` nor `decompress`.
pub fn build_args(req: &InvocationRequest) -> (r: Option<Vec<String>>)
    ensures
        match r {
            Some(v) => request_args(*req) == Some(v.deep_view()),
            None => request_args(*req).is_none(),
        },
{
    let mode = match parse_mode(req.mode.as_str()) {
        Some(m) => m,
        None => return None,
    };
    let overwrite = req.is_overwrite();
    let mut v: Vec<String> = Vec::new();
    let ghost lv = req.compression_level@;
    let ghost inp = req.input_file@;
    let ghost outp = req.output_file@;
    match mode {
        Mode::Compress => {
            if req.ultra_brute {
                push_string(&mut v, owned("--ultra-brute"));
                push_string(&mut v, owned("--no-lzma"));
            } else if str_is(req.compression_level.as_str(), "best") {
                push_string(&mut v, owned("--best"));
            } else {
                let mut flag = owned("-");
                flag.append(req.compression_level.as_str());
                push_string(&mut v, flag);
            }
            assert(v.deep_view() =~= level_args(lv, req.ultra_brute));
            if req.force {
                push_string(&mut v, owned("--force"));
            }
            push_string(&mut v, req.input_file.clone());
        },
        Mode::Decompress => {
            push_string(&mut v, owned("-d"));
            push_string(&mut v, req.input_file.clone());
            if req.force {
                push_string(&mut v, owned("--force"));
            }
        },
    }
    let ghost before_output = v.deep_view();
    if !overwrite {
        push_string(&mut v, owned("-o"));
        push_string(&mut v, req.output_file.clone());
    }
    assert(v.deep_view() =~= before_output + output_args(inp, outp));
    push_string(&mut v, owned("--force-overwrite"));
    assert(v.deep_view() =~= command_args(mode, lv, req.ultra_brute, req.force, inp, outp));
    Some(v)
}

} // verus!

verus! {

/// A numeric level flag: a dash followed by decimal digits only.
pub open spec fn is_level_flag(s: Seq<char>) -> bool {
    s.len() >= 2 && s[0] == '-' && forall|i: int| 1 <= i < s.len() ==> crate::text::is_decimal_digit(#[trigger] s[i])
}

/// Requests with the same mode, options and paths get the same arguments.
pub proof fn args_are_deterministic(a: InvocationRequest, b: InvocationRequest)
    requires
        a.mode@ == b.mode@,
        a.input_file@ == b.input_file@,
        a.output_file@ == b.output_file@,
        a.compression_level@ == b.compression_level@,
        a.ultra_brute == b.ultra_brute,
        a.force == b.force,
    ensures
        request_args(a) == request_args(b),
{
}

/// Ultra-brute compression never passes a numeric level flag (paths that look
/// like one aside).
pub proof fn ultra_brute_has_no_level_flag(req: InvocationRequest)
    requires
        req.ultra_brute,
        !is_level_flag(req.input_file@),
        !is_level_flag(req.output_file@),
    ensures
        match request_args(req) {
            Some(args) => forall|i: int| 0 <= i < args.len() ==> !is_level_flag(#[trigger] args[i]),
            None => true,
        },
{
    reveal_strlit("--ultra-brute");
    reveal_strlit("--no-lzma");
    reveal_strlit("--force");
    reveal_strlit("-o");
    reveal_strlit("-d");
    reveal_strlit("--force-overwrite");
    assert(!crate::text::is_decimal_digit("--ultra-brute"@[1]));
    assert(!crate::text::is_decimal_digit("--no-lzma"@[1]));
    assert(!crate::text::is_decimal_digit("--force"@[1]));
    assert(!crate::text::is_decimal_digit("-o"@[1]));
    assert(!crate::text::is_decimal_digit("-d"@[1]));
    assert(!crate::text::is_decimal_digit("--force-overwrite"@[1]));
    assert(!is_level_flag("--ultra-brute"@));
    assert(!is_level_flag("--no-lzma"@));
    assert(!is_level_flag("--force"@));
    assert(!is_level_flag("-o"@));
    assert(!is_level_flag("-d"@));
    assert(!is_level_flag("--force-overwrite"@));
}

/// A valid compression level: `best` or a single decimal digit.
pub open spec fn is_valid_level(level: Seq<char>) -> bool {
    level == "best"@ || (level.len() == 1 && crate::text::is_decimal_digit(level[0]))
}

/// Rewriting in place never passes the output selector `-o` (an input path
/// that is itself `-o` aside).
pub proof fn overwrite_has_no_output_flag(req: InvocationRequest)
    requires
        req.overwrites(),
        is_valid_level(req.compression_level@),
        req.input_file@ != "-o"@,
    ensures
        match request_args(req) {
            Some(args) => !args.contains("-o"@),
            None => true,
        },
{
    reveal_strlit("--ultra-brute");
    reveal_strlit("--no-lzma");
    reveal_strlit("--best");
    reveal_strlit("--force");
    reveal_strlit("-o");
    reveal_strlit("-d");
    reveal_strlit("--force-overwrite");
    reveal_strlit("-");
    reveal_strlit("best");
    let o = "-o"@;
    assert(o.len() == 2 && o[1] == 'o');
    assert("--ultra-brute"@.len() != o.len());
    assert("--no-lzma"@.len() != o.len());
    assert("--best"@.len() != o.len());
    assert("--force"@.len() != o.len());
    assert("--force-overwrite"@.len() != o.len());
    assert("-d"@[1] != o[1]);
    let lv = req.compression_level@;
    if lv != "best"@ {
        assert(("-"@ + lv)[1] == lv[0]);
        assert(("-"@ + lv) != o);
    }
    assert(level_args(lv, req.ultra_brute).len() > 0 ==> !level_args(lv, req.ultra_brute).contains(o));
}

} // verus!
