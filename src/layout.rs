//! Destination paths: `<root>/<artist>/<album>/<track> <song>.<ext>`.
use vstd::prelude::*;
use crate::info::{Info, InfoView};

verus! {

/// A filesystem path as a sequence of segments; the first is the root as given.
pub struct FsPath {
    pub segs: Vec<String>,
}

impl View for FsPath {
    type V = Seq<Seq<char>>;

    open spec fn view(&self) -> Seq<Seq<char>> {
        self.segs@.map_values(|s: String| s@)
    }
}

/// The leaf name of a placed file: `<track> <song>.<ext>`.
pub open spec fn placed_leaf(f: InfoView) -> Seq<char> {
    f.track + seq![' '] + f.song + seq!['.'] + f.ext
}

/// The directory of an artist under the output root.
pub open spec fn artist_dir_of(root: Seq<Seq<char>>, f: InfoView) -> Seq<Seq<char>> {
    root.push(f.artist)
}

/// The directory of an album under the output root.
pub open spec fn album_dir_of(root: Seq<Seq<char>>, f: InfoView) -> Seq<Seq<char>> {
    artist_dir_of(root, f).push(f.album)
}

/// Where a file with fields `f` is placed under the output root.
pub open spec fn dest_of(root: Seq<Seq<char>>, f: InfoView) -> Seq<Seq<char>> {
    album_dir_of(root, f).push(placed_leaf(f))
}

impl FsPath {
    /// The path of one segment, `root`.
    pub fn from_root(root: String) -> (r: FsPath)
        ensures
            r@ == seq![root@],
    {
        let mut segs: Vec<String> = Vec::new();
        segs.push(root);
        let r = FsPath { segs };
        assert(r@ =~= seq![segs@[0]@]);
        r
    }

    /// This path with `seg` appended.
    pub fn join(&self, seg: &str) -> (r: FsPath)
        ensures
            r@ == self@.push(seg@),
    {
        let mut r = self.duplicate();
        r.segs.push(String::from_str(seg));
        assert(r@ =~= self@.push(seg@));
        r
    }

    /// A copy of this path.
    pub fn duplicate(&self) -> (r: FsPath)
        ensures
            r@ == self@,
    {
        let mut segs: Vec<String> = Vec::new();
        let mut i: usize = 0;
        while i < self.segs.len()
            invariant
                i <= self.segs@.len(),
                segs@.len() == i,
                forall|k: int| 0 <= k < i ==> segs@[k]@ == self.segs@[k]@,
            decreases self.segs@.len() - i,
        {
            segs.push(self.segs[i].clone());
            i = i + 1;
        }
        let r = FsPath { segs };
        assert(r@ =~= self@);
        r
    }

    /// Whether the two paths have the same segments.
    pub fn same_as(&self, other: &FsPath) -> (r: bool)
        ensures
            r == (self@ == other@),
    {
        if self.segs.len() != other.segs.len() {
            assert(self@.len() != other@.len());
            return false;
        }
        let mut i: usize = 0;
        while i < self.segs.len()
            invariant
                i <= self.segs@.len(),
                self.segs@.len() == other.segs@.len(),
                forall|k: int| 0 <= k < i ==> self@[k] == other@[k],
            decreases self.segs@.len() - i,
        {
            if self.segs[i] != other.segs[i] {
                assert(self@[i as int] != other@[i as int]);
                return false;
            }
            i = i + 1;
        }
        assert(self@ =~= other@);
        true
    }
}

/// The leaf name under which a file with these fields is placed.
pub fn placed_file_name(info: &Info) -> (r: String)
    ensures
        r@ == placed_leaf(info@),
{
    proof {
        reveal_strlit(" ");
        reveal_strlit(".");
    }
    let mut r = info.track.clone();
    r.append(" ");
    r.append(info.song.as_str());
    r.append(".");
    r.append(info.ext.as_str());
    assert(r@ =~= placed_leaf(info@));
    r
}

/// The three paths of one placement.
pub struct Destination {
    /// `<root>/<artist>`
    pub artist_dir: FsPath,
    /// `<root>/<artist>/<album>`
    pub album_dir: FsPath,
    /// `<root>/<artist>/<album>/<track> <song>.<ext>`
    pub file: FsPath,
}

/// The directories and the file path where a file with fields `info` goes,
/// each field taken as it is.
pub fn destination(root: &FsPath, info: &Info) -> (r: Destination)
    ensures
        r.artist_dir@ == artist_dir_of(root@, info@),
        r.album_dir@ == album_dir_of(root@, info@),
        r.file@ == dest_of(root@, info@),
{
    let artist_dir = root.join(info.artist.as_str());
    let album_dir = artist_dir.join(info.album.as_str());
    let leaf = placed_file_name(info);
    let file = album_dir.join(leaf.as_str());
    Destination { artist_dir, album_dir, file }
}

} // verus!
