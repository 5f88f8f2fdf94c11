//! One compress or decompress request, as a sequence of decisions.
//!
//! The caller performs each returned [`Action`] (locating the packer, probing
//! the file system, copying, running the process) and reports what happened
//! through the matching `on_...` method, which yields the next action, until
//! [`Action::Finish`] carries the outcome.
use vstd::prelude::*;
use crate::args::{build_args, request_args};
use crate::diagnostics::{decode_tool_text, filter_text, gbk_decoded, informative_lines};
use crate::failure::{explains, failure_of_output, Failure};
use crate::lines::join_lines;
use crate::request::InvocationRequest;
use crate::size::{byte_size_text, format_bytes, ratio_of, ratio_percent};
use crate::text::{char_vec, decimal, push_all, push_decimal, push_str, string_of};

verus! {

/// Where an invocation stands: which report it waits for.
#[derive(Clone, Copy, Debug, PartialEq, Eq, Structural)]
pub enum Phase {
    Locating,
    CheckingTool,
    CheckingInput,
    ReadingAttributes,
    BackingUp,
    MeasuringInput,
    Running,
    MeasuringOutput,
    Finished,
}

/// What the packer process left behind.
#[derive(Clone, Debug)]
pub struct ProcessOutput {
    pub success: bool,
    pub stdout: Vec<u8>,
    pub stderr: Vec<u8>,
}

/// The next thing the caller must do.
#[derive(Debug)]
pub enum Action {
    /// Find the packer executable and report its path, if any.
    LocateTool,
    /// Run the packer at this path with `--version`; report whether it started.
    QueryVersion(String),
    /// Report whether this path exists.
    CheckInput(String),
    /// Report whether the file at this path is read-only.
    ReadAttributes(String),
    /// Copy the first path to the second.
    Backup(String, String),
    /// Report the size of this file, if it can be read.
    MeasureInput(String),
    /// Run the packer at this path with these arguments.
    Run(String, Vec<String>),
    /// Report the size of this file, if it can be read.
    MeasureOutput(String),
    /// The invocation is over.
    Finish(Result<String, Failure>),
}

/// The state of one invocation.
pub struct Invocation {
    pub request: InvocationRequest,
    pub phase: Phase,
    pub tool: String,
    pub args: Vec<String>,
    pub original_size: u64,
    pub diagnostics: Vec<char>,
}

/// The success report for an output file, its sizes before and after, and the
/// packer's informative output.
pub open spec fn report_text(output: Seq<char>, original: nat, new: nat, details: Seq<char>) -> Seq<char> {
    "Done.\nOutput: "@ + output + "\nOriginal size: "@ + byte_size_text(original)
        + "\nProcessed size: "@ + byte_size_text(new) + "\nRatio: "@ + decimal(ratio_of(original, new))
        + "%"@ + if details.len() > 0 {
        "\n\nPacker output:\n"@ + details
    } else {
        Seq::empty()
    }
}

/// Builds the success report.
pub fn success_report(output: &str, original_size: u64, new_size: u64, details: &Vec<char>) -> (r: String)
    ensures
        r@ == report_text(output@, original_size as nat, new_size as nat, details@),
{
    let mut v: Vec<char> = Vec::new();
    push_str(&mut v, "Done.\nOutput: ");
    push_str(&mut v, output);
    push_str(&mut v, "\nOriginal size: ");
    push_str(&mut v, format_bytes(original_size).as_str());
    push_str(&mut v, "\nProcessed size: ");
    push_str(&mut v, format_bytes(new_size).as_str());
    push_str(&mut v, "\nRatio: ");
    push_decimal(&mut v, ratio_percent(original_size, new_size));
    push_str(&mut v, "%");
    if details.len() > 0 {
        push_str(&mut v, "\n\nPacker output:\n");
        push_all(&mut v, details);
    }
    assert(v@ =~= report_text(output@, original_size as nat, new_size as nat, details@));
    string_of(&v)
}

/// The combined text of the packer's two output streams.
pub open spec fn combined_output(o: ProcessOutput) -> Seq<char> {
    gbk_decoded(o.stdout@) + gbk_decoded(o.stderr@)
}

/// Whether `a` ends the invocation with exactly the string-free failure `f`.
pub open spec fn fails_with(a: Action, f: Failure) -> bool {
    a == Action::Finish(Err(f))
}

impl Invocation {
    /// The state invariant: once arguments are built they are the request's.
    pub open spec fn wf(&self) -> bool {
        (self.phase == Phase::MeasuringInput || self.phase == Phase::Running || self.phase
            == Phase::MeasuringOutput) ==> request_args(self.request) == Some(self.args.deep_view())
    }

    /// After every check passed: back up when asked, else prepare the run.
    pub open spec fn checks_passed(pre: Invocation, post: Invocation, a: Action) -> bool {
        if pre.request.backup {
            post.phase == Phase::BackingUp && post.request == pre.request && post.tool == pre.tool
                && match a {
                Action::Backup(from, to) => from@ == pre.request.input_file@ && to@
                    == pre.request.input_file@ + ".bak"@,
                _ => false,
            }
        } else {
            Self::prepared(pre, post, a)
        }
    }

    /// Building the arguments: fail on an unknown mode, else measure the input.
    pub open spec fn prepared(pre: Invocation, post: Invocation, a: Action) -> bool {
        post.request == pre.request && post.tool == pre.tool && match request_args(pre.request) {
            None => post.phase == Phase::Finished && fails_with(a, Failure::UnknownMode),
            Some(args) => post.phase == Phase::MeasuringInput && post.args.deep_view() == args
                && match a {
                Action::MeasureInput(p) => p@ == pre.request.input_file@,
                _ => false,
            },
        }
    }

    /// Starts an invocation; its first action is to locate the packer.
    pub fn new(request: InvocationRequest) -> (r: (Invocation, Action))
        ensures
            r.0.request == request,
            r.0.phase == Phase::Locating,
            r.0.wf(),
            r.1 == Action::LocateTool,
    {
        let inv = Invocation {
            request,
            phase: Phase::Locating,
            tool: String::new(),
            args: Vec::new(),
            original_size: 0,
            diagnostics: Vec::new(),
        };
        (inv, Action::LocateTool)
    }

    fn finish(&mut self, f: Failure) -> (a: Action)
        ensures
            final(self).phase == Phase::Finished,
            final(self).request == old(self).request,
            final(self).tool == old(self).tool,
            final(self).original_size == old(self).original_size,
            a == Action::Finish(Err(f)),
    {
        self.phase = Phase::Finished;
        Action::Finish(Err(f))
    }

    /// The packer's path was looked up.
    pub fn on_tool_located(&mut self, tool: Option<String>) -> (a: Action)
        requires
            old(self).phase == Phase::Locating,
        ensures
            final(self).wf(),
            final(self).request == old(self).request,
            match tool {
                None => final(self).phase == Phase::Finished && fails_with(a, Failure::ToolNotFound),
                Some(t) => final(self).phase == Phase::CheckingTool && final(self).tool == t
                    && match a {
                    Action::QueryVersion(p) => p@ == t@,
                    _ => false,
                },
            },
    {
        match tool {
            None => self.finish(Failure::ToolNotFound),
            Some(t) => {
                let probe = t.clone();
                self.tool = t;
                self.phase = Phase::CheckingTool;
                Action::QueryVersion(probe)
            },
        }
    }

    /// The version query ran (`true`) or could not be started (`false`).
    pub fn on_version_checked(&mut self, started: bool) -> (a: Action)
        requires
            old(self).phase == Phase::CheckingTool,
        ensures
            final(self).wf(),
            final(self).request == old(self).request,
            final(self).tool == old(self).tool,
            !started ==> final(self).phase == Phase::Finished && fails_with(a, Failure::ToolUnavailable),
            started ==> final(self).phase == Phase::CheckingInput && match a {
                Action::CheckInput(p) => p@ == old(self).request.input_file@,
                _ => false,
            },
    {
        if !started {
            return self.finish(Failure::ToolUnavailable);
        }
        self.phase = Phase::CheckingInput;
        Action::CheckInput(self.request.input_file.clone())
    }

    fn after_checks(&mut self) -> (a: Action)
        ensures
            Self::checks_passed(*old(self), *final(self), a),
            final(self).wf(),
    {
        if self.request.backup {
            let mut to = self.request.input_file.clone();
            to.append(".bak");
            self.phase = Phase::BackingUp;
            Action::Backup(self.request.input_file.clone(), to)
        } else {
            self.prepare()
        }
    }

    fn prepare(&mut self) -> (a: Action)
        ensures
            Self::prepared(*old(self), *final(self), a),
            final(self).wf(),
    {
        match build_args(&self.request) {
            None => self.finish(Failure::UnknownMode),
            Some(args) => {
                self.args = args;
                self.phase = Phase::MeasuringInput;
                Action::MeasureInput(self.request.input_file.clone())
            },
        }
    }

    /// Whether the input file exists.
    pub fn on_input_checked(&mut self, exists: bool) -> (a: Action)
        requires
            old(self).phase == Phase::CheckingInput,
        ensures
            final(self).wf(),
            !exists ==> final(self).phase == Phase::Finished && match a {
                Action::Finish(Err(Failure::InputMissing(p))) => p@ == old(self).request.input_file@,
                _ => false,
            },
            exists && old(self).request.overwrites() ==> final(self).phase == Phase::ReadingAttributes
                && final(self).request == old(self).request && final(self).tool == old(self).tool
                && match a {
                Action::ReadAttributes(p) => p@ == old(self).request.input_file@,
                _ => false,
            },
            exists && !old(self).request.overwrites() ==> Self::checks_passed(*old(self), *final(self), a),
    {
        if !exists {
            let p = self.request.input_file.clone();
            return self.finish(Failure::InputMissing(p));
        }
        if self.request.is_overwrite() {
            self.phase = Phase::ReadingAttributes;
            Action::ReadAttributes(self.request.input_file.clone())
        } else {
            self.after_checks()
        }
    }

    /// The input's read-only flag, or why it could not be read.
    pub fn on_attributes(&mut self, read_only: Result<bool, String>) -> (a: Action)
        requires
            old(self).phase == Phase::ReadingAttributes,
        ensures
            final(self).wf(),
            match read_only {
                Err(e) => final(self).phase == Phase::Finished && match a {
                    Action::Finish(Err(Failure::AttributesUnreadable(m))) => m@ == e@,
                    _ => false,
                },
                Ok(true) => final(self).phase == Phase::Finished && fails_with(a, Failure::ReadOnlyTarget),
                Ok(false) => Self::checks_passed(*old(self), *final(self), a),
            },
    {
        match read_only {
            Err(e) => self.finish(Failure::AttributesUnreadable(e)),
            Ok(true) => self.finish(Failure::ReadOnlyTarget),
            Ok(false) => self.after_checks(),
        }
    }

    /// The backup copy was made, or why it was not.
    pub fn on_backup(&mut self, copied: Result<(), String>) -> (a: Action)
        requires
            old(self).phase == Phase::BackingUp,
        ensures
            final(self).wf(),
            match copied {
                Err(e) => final(self).phase == Phase::Finished && match a {
                    Action::Finish(Err(Failure::BackupFailed(m))) => m@ == e@,
                    _ => false,
                },
                Ok(()) => Self::prepared(*old(self), *final(self), a),
            },
    {
        match copied {
            Err(e) => self.finish(Failure::BackupFailed(e)),
            Ok(()) => self.prepare(),
        }
    }

    /// The input's size, if it could be read; unreadable counts as zero.
    pub fn on_input_measured(&mut self, size: Option<u64>) -> (a: Action)
        requires
            old(self).phase == Phase::MeasuringInput,
            old(self).wf(),
        ensures
            final(self).wf(),
            final(self).request == old(self).request,
            final(self).phase == Phase::Running,
            final(self).original_size == match size {
                Some(n) => n,
                None => 0,
            },
            match a {
                Action::Run(t, args) => t@ == old(self).tool@ && request_args(old(self).request)
                    == Some(args.deep_view()),
                _ => false,
            },
    {
        self.original_size = match size {
            Some(n) => n,
            None => 0,
        };
        self.phase = Phase::Running;
        Action::Run(self.tool.clone(), clone_args(&self.args))
    }

    /// The packer ran to its end, or could not be spawned.
    pub fn on_process_finished(&mut self, outcome: Result<ProcessOutput, String>) -> (a: Action)
        requires
            old(self).phase == Phase::Running,
            old(self).wf(),
        ensures
            final(self).wf(),
            final(self).request == old(self).request,
            final(self).original_size == old(self).original_size,
            match outcome {
                Err(e) => final(self).phase == Phase::Finished && match a {
                    Action::Finish(Err(Failure::ProcessSpawnFailed(m))) => m@ == e@,
                    _ => false,
                },
                Ok(o) => if o.success {
                    final(self).phase == Phase::MeasuringOutput && final(self).diagnostics@
                        == join_lines(informative_lines(combined_output(o))) && match a {
                        Action::MeasureOutput(p) => p@ == old(self).request.output_file@,
                        _ => false,
                    }
                } else {
                    final(self).phase == Phase::Finished && match a {
                        Action::Finish(Err(f)) => explains(f, combined_output(o)),
                        _ => false,
                    }
                },
            },
    {
        match outcome {
            Err(e) => self.finish(Failure::ProcessSpawnFailed(e)),
            Ok(o) => {
                let mut text = char_vec(decode_tool_text(&o.stdout).as_str());
                let err_text = char_vec(decode_tool_text(&o.stderr).as_str());
                push_all(&mut text, &err_text);
                if o.success {
                    self.diagnostics = filter_text(&text);
                    self.phase = Phase::MeasuringOutput;
                    Action::MeasureOutput(self.request.output_file.clone())
                } else {
                    let f = failure_of_output(&text);
                    self.finish(f)
                }
            },
        }
    }

    /// The output's size, if it could be read; unreadable counts as zero.
    pub fn on_output_measured(&mut self, size: Option<u64>) -> (a: Action)
        requires
            old(self).phase == Phase::MeasuringOutput,
        ensures
            final(self).wf(),
            final(self).phase == Phase::Finished,
            match a {
                Action::Finish(Ok(report)) => report@ == report_text(
                    old(self).request.output_file@,
                    old(self).original_size as nat,
                    match size {
                        Some(n) => n as nat,
                        None => 0,
                    },
                    old(self).diagnostics@,
                ),
                _ => false,
            },
    {
        let new_size = match size {
            Some(n) => n,
            None => 0,
        };
        let report = success_report(
            self.request.output_file.as_str(),
            self.original_size,
            new_size,
            &self.diagnostics,
        );
        self.phase = Phase::Finished;
        Action::Finish(Ok(report))
    }
}

fn clone_args(v: &Vec<String>) -> (r: Vec<String>)
    ensures
        r.deep_view() == v.deep_view(),
{
    let mut r: Vec<String> = Vec::new();
    let mut i: usize = 0;
    while i < v.len()
        invariant
            i <= v@.len(),
            r.deep_view() == v.deep_view().take(i as int),
        decreases v@.len() - i,
    {
        let ghost before = r.deep_view();
        let s = v[i].clone();
        let ghost sv = s@;
        assert(sv == v.deep_view()[i as int]);
        r.push(s);
        assert(r.deep_view() =~= before.push(sv));
        assert(r.deep_view() =~= v.deep_view().take(i + 1));
        i = i + 1;
    }
    assert(v.deep_view().take(i as int) =~= v.deep_view());
    r
}

} // verus!
