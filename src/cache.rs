//! The memo of directories a run has already made sure of.
use vstd::prelude::*;
use crate::info::Info;
use crate::layout::{FsPath, Destination, destination, artist_dir_of, album_dir_of, dest_of};

verus! {

/// The directories that the current run has already ensured exist.
pub struct DirCache {
    dirs: Vec<FsPath>,
}

/// One request to make sure that `dir` exists, against the memo `seen`:
/// the filesystem is probed only for a directory the memo lacks.
pub open spec fn needs_probe(seen: Set<Seq<Seq<char>>>, dir: Seq<Seq<char>>) -> bool {
    !seen.contains(dir)
}

/// How many of the requests `reqs`, made in order from the memo `seen`,
/// probe the filesystem for `dir`.
pub open spec fn probe_count(
    seen: Set<Seq<Seq<char>>>,
    reqs: Seq<Seq<Seq<char>>>,
    dir: Seq<Seq<char>>,
) -> nat
    decreases reqs.len(),
{
    if reqs.len() == 0 {
        0
    } else {
        (if reqs[0] == dir && needs_probe(seen, reqs[0]) {
            1nat
        } else {
            0nat
        }) + probe_count(seen.insert(reqs[0]), reqs.drop_first(), dir)
    }
}

/// However many requests name a directory, the filesystem is probed for it at
/// most once in a run, and not at all once the memo holds it.
pub proof fn lemma_probe_at_most_once(
    seen: Set<Seq<Seq<char>>>,
    reqs: Seq<Seq<Seq<char>>>,
    dir: Seq<Seq<char>>,
)
    ensures
        probe_count(seen, reqs, dir) <= 1,
        seen.contains(dir) ==> probe_count(seen, reqs, dir) == 0,
    decreases reqs.len(),
{
    if reqs.len() > 0 {
        lemma_probe_at_most_once(seen.insert(reqs[0]), reqs.drop_first(), dir);
    }
}

impl View for DirCache {
    type V = Set<Seq<Seq<char>>>;

    closed spec fn view(&self) -> Set<Seq<Seq<char>>> {
        self.dirs@.map_values(|p: FsPath| p@).to_set()
    }
}

impl DirCache {
    /// An empty memo.
    pub fn new() -> (r: DirCache)
        ensures
            r@ == Set::<Seq<Seq<char>>>::empty(),
    {
        let r = DirCache { dirs: Vec::new() };
        assert(r@ =~= Set::<Seq<Seq<char>>>::empty());
        r
    }

    /// Whether the memo holds `dir`.
    pub fn contains(&self, dir: &FsPath) -> (r: bool)
        ensures
            r == self@.contains(dir@),
    {
        let ghost paths = self.dirs@.map_values(|p: FsPath| p@);
        let mut i: usize = 0;
        while i < self.dirs.len()
            invariant
                i <= self.dirs@.len(),
                paths == self.dirs@.map_values(|p: FsPath| p@),
                forall|k: int| 0 <= k < i ==> paths[k] != dir@,
            decreases self.dirs@.len() - i,
        {
            if self.dirs[i].same_as(dir) {
                assert(paths[i as int] == dir@);
                return true;
            }
            i = i + 1;
        }
        assert(!paths.contains(dir@));
        false
    }

    /// Records that `dir` is being made sure of; the result tells whether the
    /// filesystem must be probed for it, which is so only where the memo
    /// lacked it.
    pub fn ensure(&mut self, dir: &FsPath) -> (probe: bool)
        ensures
            probe == needs_probe(old(self)@, dir@),
            final(self)@ == old(self)@.insert(dir@),
    {
        if self.contains(dir) {
            assert(self@.insert(dir@) =~= self@);
            false
        } else {
            let ghost before = self.dirs@.map_values(|p: FsPath| p@);
            let copy = dir.duplicate();
            self.dirs.push(copy);
            assert(self.dirs@.map_values(|p: FsPath| p@) =~= before.push(dir@));
            proof {
                before.lemma_push_to_set_commute(dir@);
            }
            true
        }
    }
}

/// The paths of one placement, and which of its two directories the
/// filesystem must be probed for.
pub struct PlacePlan {
    pub dest: Destination,
    /// The artist directory is not yet in the memo.
    pub probe_artist: bool,
    /// The album directory is not yet in the memo.
    pub probe_album: bool,
}

/// Plans the placement of a file with fields `info` under `root`: the artist
/// directory is made sure of first, then the album directory, and both end
/// up in the memo.
pub fn plan_placement(cache: &mut DirCache, root: &FsPath, info: &Info) -> (r: PlacePlan)
    ensures
        r.dest.artist_dir@ == artist_dir_of(root@, info@),
        r.dest.album_dir@ == album_dir_of(root@, info@),
        r.dest.file@ == dest_of(root@, info@),
        r.probe_artist == needs_probe(old(cache)@, artist_dir_of(root@, info@)),
        r.probe_album == needs_probe(
            old(cache)@.insert(artist_dir_of(root@, info@)),
            album_dir_of(root@, info@),
        ),
        final(cache)@ == old(cache)@.insert(artist_dir_of(root@, info@)).insert(
            album_dir_of(root@, info@),
        ),
{
    let dest = destination(root, info);
    let probe_artist = cache.ensure(&dest.artist_dir);
    let probe_album = cache.ensure(&dest.album_dir);
    PlacePlan { dest, probe_artist, probe_album }
}

} // verus!
