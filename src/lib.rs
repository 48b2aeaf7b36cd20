//! Sorting audio files into an `Artist/Album/Track Song.ext` tree.
//!
//! The library holds the decisions of the sorting pipeline: how the five
//! fields of a file are found (from its leaf name or from its tags), where
//! the file goes, which directories must be probed and created, and which
//! failures end a run. The filesystem work itself is done by the caller.
use vstd::prelude::*;

pub mod info;
pub mod pattern;
pub mod extract;
pub mod layout;
pub mod cache;
pub mod walk;

verus! {

/// The options of one run, fixed for its whole duration.
pub struct Params {
    /// Copy files instead of moving them.
    pub copy: bool,
    /// Take the fields from the embedded tags instead of the leaf name.
    pub metadata: bool,
    /// Walk subdirectories of the input instead of skipping them.
    pub recursive: bool,
}

} // verus!
