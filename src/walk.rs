//! The decisions of the directory walk and of the placement policy.
use vstd::prelude::*;
use crate::Params;

verus! {

/// What the walk does with one entry of a directory.
pub enum EntryAction {
    /// Walk the subdirectory with the same memo.
    Descend,
    /// Announce the subdirectory and leave it alone.
    SkipDirectory,
    /// Hand the file to the extraction.
    Examine,
}

/// How a file reaches its destination.
pub enum PlaceKind {
    /// The source stays where it is.
    Copy,
    /// The source is moved.
    Rename,
}

/// What a placement's result means for the run.
pub enum Verdict {
    /// The file is at its destination; the run goes on.
    Placed,
    /// A copy failed: it is reported, the source is intact and the run goes on.
    CopyFailed,
    /// A move failed: the run ends with an error.
    Fatal,
}

/// Subdirectories are walked only in recursive mode; files are always examined.
pub fn entry_action(is_dir: bool, params: &Params) -> (r: EntryAction)
    ensures
        r is Descend <==> is_dir && params.recursive,
        r is SkipDirectory <==> is_dir && !params.recursive,
        r is Examine <==> !is_dir,
{
    if is_dir {
        if params.recursive {
            EntryAction::Descend
        } else {
            EntryAction::SkipDirectory
        }
    } else {
        EntryAction::Examine
    }
}

/// Files are copied in copy mode and moved otherwise.
pub fn place_kind(params: &Params) -> (r: PlaceKind)
    ensures
        r is Copy <==> params.copy,
        r is Rename <==> !params.copy,
{
    if params.copy {
        PlaceKind::Copy
    } else {
        PlaceKind::Rename
    }
}

/// A failed copy is reported and passed over; a failed move ends the run.
pub fn placement_verdict(params: &Params, succeeded: bool) -> (r: Verdict)
    ensures
        r is Placed <==> succeeded,
        r is CopyFailed <==> !succeeded && params.copy,
        r is Fatal <==> !succeeded && !params.copy,
{
    if succeeded {
        Verdict::Placed
    } else if params.copy {
        Verdict::CopyFailed
    } else {
        Verdict::Fatal
    }
}

} // verus!
