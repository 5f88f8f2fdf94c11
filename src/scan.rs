//! Decisions of the folder scan that collects packable files.
use vstd::prelude::*;
use crate::text::{char_vec, owned, push_string};

verus! {

/// Why a folder cannot be scanned; the offending path attached.
#[derive(Clone, Debug)]
pub enum ScanError {
    PathNotFound(String),
    NotADirectory(String),
}

impl ScanError {
    pub open spec fn text(&self) -> Seq<char> {
        match self {
            ScanError::PathNotFound(p) => "Path does not exist: "@ + p@,
            ScanError::NotADirectory(p) => "Not a folder: "@ + p@,
        }
    }

    /// The text shown to the user.
    pub fn message(&self) -> (r: String)
        ensures
            r@ == self.text(),
    {
        let (mut r, p) = match self {
            ScanError::PathNotFound(p) => (owned("Path does not exist: "), p),
            ScanError::NotADirectory(p) => (owned("Not a folder: "), p),
        };
        r.append(p.as_str());
        r
    }
}

/// Accepts a scan root that exists and is a directory.
pub fn check_scan_root(path: &str, exists: bool, is_dir: bool) -> (r: Result<(), ScanError>)
    ensures
        match r {
            Ok(()) => exists && is_dir,
            Err(ScanError::PathNotFound(p)) => !exists && p@ == path@,
            Err(ScanError::NotADirectory(p)) => exists && !is_dir && p@ == path@,
        },
{
    if !exists {
        Err(ScanError::PathNotFound(owned(path)))
    } else if !is_dir {
        Err(ScanError::NotADirectory(owned(path)))
    } else {
        Ok(())
    }
}

/// Index of the last `.` in `s`, or -1.
pub open spec fn last_dot(s: Seq<char>) -> int
    decreases s.len(),
{
    if s.len() == 0 {
        -1
    } else if s.last() == '.' {
        s.len() - 1
    } else {
        last_dot(s.drop_last())
    }
}

/// The extension of a file name: what follows its last dot, provided the dot
/// does not start the name and the name is not `..`.
pub open spec fn extension_of(name: Seq<char>) -> Option<Seq<char>> {
    if name == ".."@ || last_dot(name) <= 0 {
        None
    } else {
        Some(name.subrange(last_dot(name) + 1, name.len() as int))
    }
}

pub open spec fn letter_is(c: char, lower: char, upper: char) -> bool {
    c == lower || c == upper
}

/// `exe` or `dll`, in any mix of case.
pub open spec fn is_binary_extension(e: Seq<char>) -> bool {
    e.len() == 3 && ((letter_is(e[0], 'e', 'E') && letter_is(e[1], 'x', 'X') && letter_is(
        e[2],
        'e',
        'E',
    )) || (letter_is(e[0], 'd', 'D') && letter_is(e[1], 'l', 'L') && letter_is(e[2], 'l', 'L')))
}

/// Whether a file of this name is collected by the scan.
pub open spec fn is_candidate(name: Seq<char>) -> bool {
    match extension_of(name) {
        Some(e) => is_binary_extension(e),
        None => false,
    }
}

proof fn lemma_last_dot_bounds(s: Seq<char>)
    ensures
        -1 <= last_dot(s) < s.len(),
        last_dot(s) >= 0 ==> s[last_dot(s)] == '.',
    decreases s.len(),
{
    if s.len() > 0 && s.last() != '.' {
        lemma_last_dot_bounds(s.drop_last());
    }
}

fn extension(name: &Vec<char>) -> (r: Option<Vec<char>>)
    ensures
        match r {
            Some(e) => extension_of(name@) == Some(e@),
            None => extension_of(name@).is_none(),
        },
{
    let dotdot = char_vec("..");
    if crate::text::chars_equal(name, &dotdot) {
        return None;
    }
    let mut k: usize = name.len();
    assert(name@.take(k as int) =~= name@);
    while k > 0 && name[k - 1] != '.'
        invariant
            k <= name@.len(),
            last_dot(name@) == last_dot(name@.take(k as int)),
        decreases k,
    {
        assert(name@.take(k as int).drop_last() =~= name@.take(k - 1));
        k = k - 1;
    }
    if k > 0 {
        assert(name@.take(k as int).drop_last() =~= name@.take(k - 1));
        assert(name@.take(k as int).last() == '.');
    } else {
        assert(name@.take(0) =~= Seq::<char>::empty());
    }
    proof {
        lemma_last_dot_bounds(name@);
    }
    if k <= 1 {
        return None;
    }
    let mut e: Vec<char> = Vec::new();
    let mut i: usize = k;
    while i < name.len()
        invariant
            k <= i <= name@.len(),
            e@ == name@.subrange(k as int, i as int),
        decreases name@.len() - i,
    {
        e.push(name[i]);
        i = i + 1;
        assert(e@ =~= name@.subrange(k as int, i as int));
    }
    Some(e)
}

/// Whether a file of this name is collected by the scan: its extension is
/// `exe` or `dll`, compared without regard to case.
pub fn is_candidate_file(name: &str) -> (r: bool)
    ensures
        r == is_candidate(name@),
{
    let cs = char_vec(name);
    match extension(&cs) {
        None => false,
        Some(e) => {
            e.len() == 3 && (((e[0] == 'e' || e[0] == 'E') && (e[1] == 'x' || e[1] == 'X') && (e[2]
                == 'e' || e[2] == 'E')) || ((e[0] == 'd' || e[0] == 'D') && (e[1] == 'l' || e[1]
                == 'L') && (e[2] == 'l' || e[2] == 'L')))
        },
    }
}

/// What the scan does with one directory entry.
#[derive(Clone, Copy, Debug, PartialEq, Eq, Structural)]
pub enum EntryDecision {
    /// Scan this directory too.
    Descend,
    /// Collect this file.
    Keep,
    /// Ignore this entry.
    Skip,
}

pub open spec fn decision_for(name: Seq<char>, is_dir: bool, is_file: bool, include_subfolders: bool) -> EntryDecision {
    if is_dir && include_subfolders {
        EntryDecision::Descend
    } else if is_file && is_candidate(name) {
        EntryDecision::Keep
    } else {
        EntryDecision::Skip
    }
}

/// Decides an entry: directories are entered only when sub-folders are
/// included, and only candidate files are kept.
pub fn decide_entry(name: &str, is_dir: bool, is_file: bool, include_subfolders: bool) -> (r: EntryDecision)
    ensures
        r == decision_for(name@, is_dir, is_file, include_subfolders),
{
    if is_dir && include_subfolders {
        EntryDecision::Descend
    } else if is_file && is_candidate_file(name) {
        EntryDecision::Keep
    } else {
        EntryDecision::Skip
    }
}

} // verus!

verus! {

/// Without sub-folders no directory is entered, so nothing nested is found;
/// with them every directory is entered; a file whose extension is not `exe`
/// or `dll` is never kept.
pub proof fn scan_decision_laws(name: Seq<char>, is_dir: bool, is_file: bool, include_subfolders: bool)
    ensures
        !include_subfolders ==> decision_for(name, is_dir, is_file, include_subfolders)
            != EntryDecision::Descend,
        include_subfolders && is_dir ==> decision_for(name, is_dir, is_file, include_subfolders)
            == EntryDecision::Descend,
        !is_candidate(name) ==> decision_for(name, is_dir, is_file, include_subfolders)
            != EntryDecision::Keep,
{
}

} // verus!

verus! {

/// One entry of a directory listing, as the file system describes it.
#[derive(Clone, Debug)]
pub struct EntryInfo {
    pub path: String,
    pub name: String,
    pub is_dir: bool,
    pub is_file: bool,
}

/// What the scan takes from one directory: the files it keeps and the
/// sub-folders it must scan next, both in listing order.
#[derive(Debug)]
pub struct Listing {
    pub files: Vec<String>,
    pub subfolders: Vec<String>,
}

pub open spec fn decision_of_entry(e: EntryInfo, include_subfolders: bool) -> EntryDecision {
    decision_for(e.name@, e.is_dir, e.is_file, include_subfolders)
}

/// The paths of the entries that receive decision `d`, in order.
pub open spec fn paths_with(es: Seq<EntryInfo>, include_subfolders: bool, d: EntryDecision) -> Seq<Seq<char>>
    decreases es.len(),
{
    if es.len() == 0 {
        Seq::empty()
    } else {
        let rest = paths_with(es.drop_last(), include_subfolders, d);
        if decision_of_entry(es.last(), include_subfolders) == d {
            rest.push(es.last().path@)
        } else {
            rest
        }
    }
}

/// Sorts a directory's entries into kept files and sub-folders to enter.
pub fn select_entries(entries: &Vec<EntryInfo>, include_subfolders: bool) -> (r: Listing)
    ensures
        r.files.deep_view() == paths_with(entries@, include_subfolders, EntryDecision::Keep),
        r.subfolders.deep_view() == paths_with(entries@, include_subfolders, EntryDecision::Descend),
{
    let mut files: Vec<String> = Vec::new();
    let mut subfolders: Vec<String> = Vec::new();
    let mut i: usize = 0;
    while i < entries.len()
        invariant
            i <= entries@.len(),
            files.deep_view() == paths_with(entries@.take(i as int), include_subfolders, EntryDecision::Keep),
            subfolders.deep_view() == paths_with(entries@.take(i as int), include_subfolders, EntryDecision::Descend),
        decreases entries@.len() - i,
    {
        let e = &entries[i];
        assert(entries@.take(i + 1).drop_last() =~= entries@.take(i as int));
        assert(entries@.take(i + 1).last() == *e);
        let d = decide_entry(e.name.as_str(), e.is_dir, e.is_file, include_subfolders);
        match d {
            EntryDecision::Keep => push_string(&mut files, e.path.clone()),
            EntryDecision::Descend => push_string(&mut subfolders, e.path.clone()),
            EntryDecision::Skip => {},
        }
        i = i + 1;
    }
    assert(entries@.take(i as int) =~= entries@);
    Listing { files, subfolders }
}

/// Without sub-folders a listing names no folder to enter, so a scan never
/// reaches a nested directory.
pub proof fn no_subfolders_without_recursion(es: Seq<EntryInfo>)
    ensures
        paths_with(es, false, EntryDecision::Descend).len() == 0,
    decreases es.len(),
{
    if es.len() > 0 {
        no_subfolders_without_recursion(es.drop_last());
    }
}

/// With sub-folders every directory of a listing is entered.
pub proof fn every_subfolder_with_recursion(es: Seq<EntryInfo>)
    ensures
        paths_with(es, true, EntryDecision::Descend).len() == es.filter(|e: EntryInfo| e.is_dir).len(),
    decreases es.len(),
{
    reveal(Seq::filter);
    if es.len() > 0 {
        every_subfolder_with_recursion(es.drop_last());
    }
}

/// Every kept path belongs to a file entry whose extension is `exe` or `dll`.
pub proof fn kept_files_are_candidates(es: Seq<EntryInfo>, include_subfolders: bool, k: int)
    requires
        0 <= k < paths_with(es, include_subfolders, EntryDecision::Keep).len(),
    ensures
        exists|j: int|
            0 <= j < es.len() && (#[trigger] es[j]).path@ == paths_with(es, include_subfolders, EntryDecision::Keep)[k]
                && es[j].is_file && is_candidate(es[j].name@),
    decreases es.len(),
{
    let rest = paths_with(es.drop_last(), include_subfolders, EntryDecision::Keep);
    if k < rest.len() {
        kept_files_are_candidates(es.drop_last(), include_subfolders, k);
        let j = choose|j: int|
            0 <= j < es.drop_last().len() && (#[trigger] es.drop_last()[j]).path@ == rest[k]
                && es.drop_last()[j].is_file && is_candidate(es.drop_last()[j].name@);
        assert(es[j] == es.drop_last()[j]);
    } else {
        assert(es[es.len() - 1] == es.last());
    }
}

} // verus!

verus! {

/// A scan in progress: folders still to list, and files collected so far.
///
/// The caller lists each folder that [`FolderScan::next_folder`] hands out
/// and reports the entries through [`FolderScan::on_listing`] until no folder
/// is left.
pub struct FolderScan {
    pub include_subfolders: bool,
    pub pending: Vec<String>,
    pub found: Vec<String>,
}

impl FolderScan {
    /// A scan of `root` alone.
    pub fn new(root: String, include_subfolders: bool) -> (r: FolderScan)
        ensures
            r.include_subfolders == include_subfolders,
            r.pending.deep_view() == seq![root@],
            r.found.deep_view() == Seq::<Seq<char>>::empty(),
    {
        let ghost root_view = root@;
        let mut pending: Vec<String> = Vec::new();
        push_string(&mut pending, root);
        let found: Vec<String> = Vec::new();
        assert(found.deep_view() =~= Seq::<Seq<char>>::empty());
        assert(pending.deep_view() =~= seq![root_view]);
        FolderScan { include_subfolders, pending, found }
    }

    /// The next folder to list, most recently discovered first; `None` when
    /// the scan is complete.
    pub fn next_folder(&mut self) -> (r: Option<String>)
        ensures
            final(self).include_subfolders == old(self).include_subfolders,
            final(self).found == old(self).found,
            old(self).pending@.len() == 0 ==> r.is_none() && final(self).pending == old(self).pending,
            old(self).pending@.len() > 0 ==> match r {
                Some(f) => f@ == old(self).pending.deep_view().last() && final(self).pending.deep_view()
                    == old(self).pending.deep_view().drop_last(),
                None => false,
            },
    {
        if self.pending.len() == 0 {
            return None;
        }
        let r = self.pending.pop();
        proof {
            if old(self).pending@.len() > 0 {
                assert(self.pending.deep_view() =~= old(self).pending.deep_view().drop_last());
            }
        }
        r
    }

    /// Takes in the entries of the folder last handed out: candidate files are
    /// collected and, when sub-folders are included, directories are queued.
    pub fn on_listing(&mut self, entries: &Vec<EntryInfo>)
        ensures
            final(self).include_subfolders == old(self).include_subfolders,
            final(self).found.deep_view() == old(self).found.deep_view() + paths_with(
                entries@,
                old(self).include_subfolders,
                EntryDecision::Keep,
            ),
            final(self).pending.deep_view() == old(self).pending.deep_view() + paths_with(
                entries@,
                old(self).include_subfolders,
                EntryDecision::Descend,
            ),
    {
        let listing = select_entries(entries, self.include_subfolders);
        append_strings(&mut self.found, listing.files);
        append_strings(&mut self.pending, listing.subfolders);
    }

    /// The files collected.
    pub fn into_files(self) -> (r: Vec<String>)
        ensures
            r.deep_view() == self.found.deep_view(),
    {
        self.found
    }
}

fn append_strings(v: &mut Vec<String>, more: Vec<String>)
    ensures
        final(v).deep_view() == old(v).deep_view() + more.deep_view(),
{
    let ghost start = v.deep_view();
    let mut i: usize = 0;
    while i < more.len()
        invariant
            i <= more@.len(),
            v.deep_view() == start + more.deep_view().take(i as int),
        decreases more@.len() - i,
    {
        let s = more[i].clone();
        assert(s@ == more.deep_view()[i as int]);
        push_string(v, s);
        assert(v.deep_view() =~= start + more.deep_view().take(i + 1));
        i = i + 1;
    }
    assert(more.deep_view().take(i as int) =~= more.deep_view());
}

/// Without sub-folders a listing queues nothing: once the root is listed no
/// folder is left, so no nested file is ever collected.
pub proof fn shallow_scan_stops_after_root(pre: FolderScan, post: FolderScan, entries: Seq<EntryInfo>)
    requires
        !pre.include_subfolders,
        post.pending.deep_view() == pre.pending.deep_view() + paths_with(
            entries,
            pre.include_subfolders,
            EntryDecision::Descend,
        ),
    ensures
        post.pending.deep_view() == pre.pending.deep_view(),
{
    no_subfolders_without_recursion(entries);
    assert(post.pending.deep_view() =~= pre.pending.deep_view());
}

} // verus!
