//! Diffs as the commit and merge request pages show them.
use vstd::prelude::*;
use vstd::string::*;
use crate::text::owned;

verus! {

/// One line of a diff: `add`, `del` or `context`, its numbers in the old
/// and new file (0 where it has none), and its text.
#[derive(Debug, Clone, PartialEq, Eq)]
pub struct DiffLine {
    pub line_type: String,
    pub old_lineno: Option<u32>,
    pub new_lineno: Option<u32>,
    pub content: String,
}

/// The changes to one file.
#[derive(Debug, Clone, PartialEq, Eq)]
pub struct DiffFile {
    pub old_path: String,
    pub new_path: String,
    pub status: String,
    pub lines: Vec<DiffLine>,
}

/// How git classifies a file's change.
#[derive(Debug, Clone, PartialEq, Eq)]
pub enum DeltaKind {
    Added,
    Deleted,
    Modified,
    Renamed,
    Other,
}

/// The label of a change kind.
pub open spec fn status_text(kind: DeltaKind) -> Seq<char> {
    match kind {
        DeltaKind::Added => "added"@,
        DeltaKind::Deleted => "deleted"@,
        DeltaKind::Modified => "modified"@,
        DeltaKind::Renamed => "renamed"@,
        DeltaKind::Other => "unknown"@,
    }
}

/// The kind of a diff line from its origin marker.
pub open spec fn line_type_text(origin: char) -> Seq<char> {
    if origin == '+' {
        "add"@
    } else if origin == '-' {
        "del"@
    } else {
        "context"@
    }
}

/// The label of a change kind.
pub fn status_label(kind: &DeltaKind) -> (s: String)
    ensures
        s@ == status_text(*kind),
{
    match kind {
        DeltaKind::Added => owned("added"),
        DeltaKind::Deleted => owned("deleted"),
        DeltaKind::Modified => owned("modified"),
        DeltaKind::Renamed => owned("renamed"),
        DeltaKind::Other => owned("unknown"),
    }
}

/// A diff line from git's origin marker, line numbers and text; a missing
/// line number is shown as 0.
pub fn diff_line(origin: char, old_lineno: Option<u32>, new_lineno: Option<u32>, content: String) -> (l: DiffLine)
    ensures
        l.line_type@ == line_type_text(origin),
        l.old_lineno == Some(match old_lineno { Some(n) => n, None => 0u32 }),
        l.new_lineno == Some(match new_lineno { Some(n) => n, None => 0u32 }),
        l.content == content,
{
    let line_type = if origin == '+' {
        owned("add")
    } else if origin == '-' {
        owned("del")
    } else {
        owned("context")
    };
    DiffLine {
        line_type,
        old_lineno: Some(match old_lineno { Some(n) => n, None => 0 }),
        new_lineno: Some(match new_lineno { Some(n) => n, None => 0 }),
        content,
    }
}

/// A file's diff from its old and new paths (empty where git has none),
/// its change kind and its lines.
pub fn diff_file(old_path: Option<String>, new_path: Option<String>, kind: DeltaKind, lines: Vec<DiffLine>) -> (f: DiffFile)
    ensures
        f.old_path@ == (match old_path { Some(p) => p@, None => Seq::<char>::empty() }),
        f.new_path@ == (match new_path { Some(p) => p@, None => Seq::<char>::empty() }),
        f.status@ == status_text(kind),
        f.lines == lines,
{
    let status = status_label(&kind);
    DiffFile {
        old_path: match old_path { Some(p) => p, None => String::new() },
        new_path: match new_path { Some(p) => p, None => String::new() },
        status,
        lines,
    }
}

} // verus!
