//! Why an invocation stopped, and what the user is told.
use vstd::prelude::*;
use crate::diagnostics::{category_of, category_order, classify, filter_text, informative_lines, shows, signatures, Category};
use crate::lines::{contains, join_lines};
use crate::text::{owned, string_of};

verus! {

/// Every way an invocation can end without a result.
#[derive(Clone, Debug)]
pub enum Failure {
    /// No packer executable was found.
    ToolNotFound,
    /// The packer was found but could not be started.
    ToolUnavailable,
    /// The input file (its path attached) does not exist.
    InputMissing(String),
    /// The input file's attributes could not be read (the reason attached).
    AttributesUnreadable(String),
    /// The file to rewrite in place is read-only.
    ReadOnlyTarget,
    /// Copying the input to its backup failed (the reason attached).
    BackupFailed(String),
    /// The request names neither compression nor decompression.
    UnknownMode,
    /// The packer process could not be spawned (the reason attached).
    ProcessSpawnFailed(String),
    /// The packer refused the file for a recognised reason.
    Rejected(Category),
    /// The packer failed for another reason; its informative output attached.
    ToolFailed(String),
}

/// The explanation and remedy given for a recognised failure.
pub open spec fn category_text(c: Category) -> Seq<char> {
    match c {
        Category::AlreadyPacked => "The file is already packed. Decompress it first or pick another file."@,
        Category::NotPacked => "The file is not packed, so there is nothing to decompress."@,
        Category::Overlay => "The file has overlay data after its image. Enable force to pack it anyway."@,
        Category::NotCompressible => "The file cannot be made any smaller."@,
        Category::CannotPack => "This file cannot be packed: its format is unsupported or it is protected."@,
        Category::FileAccess => "The file could not be read or written. Check that it exists and is not in use."@,
    }
}

/// The message shown when the packer fails and its output matches no known failure.
pub open spec fn unrecognised_text(details: Seq<char>) -> Seq<char> {
    if details.len() == 0 {
        "The packer failed."@
    } else {
        "The packer failed:\n"@ + details
    }
}

/// The message for each failure.
pub open spec fn failure_text(f: Failure) -> Seq<char> {
    match f {
        Failure::ToolNotFound => "Packer not found. Make sure the installation is complete."@,
        Failure::ToolUnavailable => "The packer cannot be executed."@,
        Failure::InputMissing(p) => "Input file does not exist: "@ + p@,
        Failure::AttributesUnreadable(e) => "Cannot read file attributes: "@ + e@,
        Failure::ReadOnlyTarget => "The file is read-only. Change its attributes first."@,
        Failure::BackupFailed(e) => "Backing up the file failed: "@ + e@,
        Failure::UnknownMode => "Unknown operation mode."@,
        Failure::ProcessSpawnFailed(e) => "Running the packer failed: "@ + e@,
        Failure::Rejected(c) => category_text(c),
        Failure::ToolFailed(d) => unrecognised_text(d@),
    }
}

fn category_message(c: Category) -> (r: String)
    ensures
        r@ == category_text(c),
{
    match c {
        Category::AlreadyPacked => owned("The file is already packed. Decompress it first or pick another file."),
        Category::NotPacked => owned("The file is not packed, so there is nothing to decompress."),
        Category::Overlay => owned("The file has overlay data after its image. Enable force to pack it anyway."),
        Category::NotCompressible => owned("The file cannot be made any smaller."),
        Category::CannotPack => owned("This file cannot be packed: its format is unsupported or it is protected."),
        Category::FileAccess => owned("The file could not be read or written. Check that it exists and is not in use."),
    }
}

fn prefixed(prefix: &str, s: &String) -> (r: String)
    ensures
        r@ == prefix@ + s@,
{
    let mut r = owned(prefix);
    r.append(s.as_str());
    r
}

impl Failure {
    /// The text shown to the user for this failure.
    pub fn message(&self) -> (r: String)
        ensures
            r@ == failure_text(*self),
    {
        match self {
            Failure::ToolNotFound => owned("Packer not found. Make sure the installation is complete."),
            Failure::ToolUnavailable => owned("The packer cannot be executed."),
            Failure::InputMissing(p) => prefixed("Input file does not exist: ", p),
            Failure::AttributesUnreadable(e) => prefixed("Cannot read file attributes: ", e),
            Failure::ReadOnlyTarget => owned("The file is read-only. Change its attributes first."),
            Failure::BackupFailed(e) => prefixed("Backing up the file failed: ", e),
            Failure::UnknownMode => owned("Unknown operation mode."),
            Failure::ProcessSpawnFailed(e) => prefixed("Running the packer failed: ", e),
            Failure::Rejected(c) => category_message(*c),
            Failure::ToolFailed(d) => {
                if d.as_str().unicode_len() == 0 {
                    owned("The packer failed.")
                } else {
                    prefixed("The packer failed:\n", d)
                }
            },
        }
    }
}

/// Whether `f` is the failure that the packer's output `text` reports.
pub open spec fn explains(f: Failure, text: Seq<char>) -> bool {
    match category_of(text) {
        Some(c) => f == Failure::Rejected(c),
        None => match f {
            Failure::ToolFailed(d) => d@ == join_lines(informative_lines(text)),
            _ => false,
        },
    }
}

/// The failure that the packer's combined output reports.
pub fn failure_of_output(text: &Vec<char>) -> (f: Failure)
    ensures
        explains(f, text@),
{
    match classify(text) {
        Some(c) => Failure::Rejected(c),
        None => Failure::ToolFailed(string_of(&filter_text(text))),
    }
}

} // verus!

verus! {

/// Output that mentions `already packed` is always classified as already
/// packed, whatever surrounds it.
pub proof fn already_packed_is_recognised(text: Seq<char>)
    requires
        contains(text, "already packed"@),
    ensures
        category_of(text) == Some(Category::AlreadyPacked),
{
    assert(signatures(Category::AlreadyPacked)[1] == "already packed"@);
    assert(shows(text, Category::AlreadyPacked));
    assert(category_order()[0] == Category::AlreadyPacked);
}

/// Output with no known signature and nothing informative yields the minimal
/// generic message.
pub proof fn silent_failure_gets_generic_message(text: Seq<char>, f: Failure)
    requires
        category_of(text).is_none(),
        informative_lines(text).len() == 0,
        explains(f, text),
    ensures
        failure_text(f) == "The packer failed."@,
{
}

} // verus!
