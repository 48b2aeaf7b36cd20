//! The leaf-name grammar `artist-album-NN song.ext`.
//!
//! A name matches when the whole of it has the shape of the pattern
//! `([^-]*)-([^-]*)-(\d+) (.*)\.(flac|mp3)`: an artist and an album without
//! hyphens, a run of decimal digits, one space, a song title on one line, a
//! dot and a supported extension.
use vstd::prelude::*;
use crate::info::{Info, InfoView, is_audio_ext, mp3_ext, flac_ext};

verus! {

pub open spec fn is_digit(c: char) -> bool {
    '0' <= c && c <= '9'
}

pub open spec fn no_hyphen(s: Seq<char>) -> bool {
    forall|i: int| 0 <= i < s.len() ==> s[i] != '-'
}

pub open spec fn all_digits(s: Seq<char>) -> bool {
    forall|i: int| 0 <= i < s.len() ==> is_digit(s[i])
}

pub open spec fn single_line(s: Seq<char>) -> bool {
    forall|i: int| 0 <= i < s.len() ==> s[i] != '\n'
}

/// `s` ends with `suffix`.
pub open spec fn ends_with(s: Seq<char>, suffix: Seq<char>) -> bool {
    suffix.len() <= s.len() && s.subrange(s.len() - suffix.len(), s.len() as int) == suffix
}

/// The leaf name `artist-album-track song.ext` written from its fields.
pub open spec fn leaf_name(f: InfoView) -> Seq<char> {
    f.artist + seq!['-'] + f.album + seq!['-'] + f.track + seq![' '] + f.song + seq!['.'] + f.ext
}

/// `f` holds the fields of the leaf name `name` under the pattern.
pub open spec fn fields_of(name: Seq<char>, f: InfoView) -> bool {
    &&& no_hyphen(f.artist)
    &&& no_hyphen(f.album)
    &&& f.track.len() > 0
    &&& all_digits(f.track)
    &&& single_line(f.song)
    &&& is_audio_ext(f.ext)
    &&& name == leaf_name(f)
}

/// The leaf name `name` matches the pattern.
pub open spec fn matches_pattern(name: Seq<char>) -> bool {
    exists|f: InfoView| fields_of(name, f)
}

/// Where each field of `f` stands in `name`, and the separators between them.
pub open spec fn laid_out(name: Seq<char>, f: InfoView) -> bool {
    let c1 = f.artist.len() as int;
    let c2 = c1 + 1 + f.album.len();
    let c3 = c2 + 1 + f.track.len();
    let c4 = c3 + 1 + f.song.len();
    &&& name.len() == c4 + 1 + f.ext.len()
    &&& name.subrange(0, c1) == f.artist
    &&& name[c1] == '-'
    &&& name.subrange(c1 + 1, c2) == f.album
    &&& name[c2] == '-'
    &&& name.subrange(c2 + 1, c3) == f.track
    &&& name[c3] == ' '
    &&& name.subrange(c3 + 1, c4) == f.song
    &&& name[c4] == '.'
    &&& name.subrange(c4 + 1, name.len() as int) == f.ext
}

proof fn lemma_leaf_name_laid_out(name: Seq<char>, f: InfoView)
    ensures
        name == leaf_name(f) <==> laid_out(name, f),
{
    let c1 = f.artist.len() as int;
    let c2 = c1 + 1 + f.album.len();
    let c3 = c2 + 1 + f.track.len();
    let c4 = c3 + 1 + f.song.len();
    let l = leaf_name(f);
    assert(l.subrange(0, c1) =~= f.artist);
    assert(l.subrange(c1 + 1, c2) =~= f.album);
    assert(l.subrange(c2 + 1, c3) =~= f.track);
    assert(l.subrange(c3 + 1, c4) =~= f.song);
    assert(l.subrange(c4 + 1, l.len() as int) =~= f.ext);
    if laid_out(name, f) {
        assert forall|k: int| 0 <= k < name.len() implies name[k] == l[k] by {
            if k < c1 {
                assert(name[k] == name.subrange(0, c1)[k]);
            } else if c1 < k < c2 {
                assert(name[k] == name.subrange(c1 + 1, c2)[k - c1 - 1]);
            } else if c2 < k < c3 {
                assert(name[k] == name.subrange(c2 + 1, c3)[k - c2 - 1]);
            } else if c3 < k < c4 {
                assert(name[k] == name.subrange(c3 + 1, c4)[k - c3 - 1]);
            } else if c4 < k {
                assert(name[k] == name.subrange(c4 + 1, name.len() as int)[k - c4 - 1]);
            }
        }
        assert(name =~= l);
    }
}

/// The separators and field characters of a matching name, position by position.
proof fn lemma_cuts(name: Seq<char>, f: InfoView)
    requires
        fields_of(name, f),
    ensures
        ({
            let c1 = f.artist.len() as int;
            let c2 = c1 + 1 + f.album.len();
            let c3 = c2 + 1 + f.track.len();
            let c4 = c3 + 1 + f.song.len();
            &&& laid_out(name, f)
            &&& forall|k: int| 0 <= k < c1 ==> name[k] != '-'
            &&& forall|k: int| c1 < k < c2 ==> name[k] != '-'
            &&& forall|k: int| c2 < k < c3 ==> is_digit(name[k])
            &&& forall|k: int| c3 < k < c4 ==> name[k] != '\n'
            &&& c2 + 1 < c3
            &&& ends_with(name, seq!['.'] + f.ext)
        }),
{
    lemma_leaf_name_laid_out(name, f);
    let c1 = f.artist.len() as int;
    let c2 = c1 + 1 + f.album.len();
    let c3 = c2 + 1 + f.track.len();
    let c4 = c3 + 1 + f.song.len();
    assert forall|k: int| 0 <= k < c1 implies name[k] != '-' by {
        assert(name[k] == name.subrange(0, c1)[k]);
    }
    assert forall|k: int| c1 < k < c2 implies name[k] != '-' by {
        assert(name[k] == name.subrange(c1 + 1, c2)[k - c1 - 1]);
    }
    assert forall|k: int| c2 < k < c3 implies is_digit(name[k]) by {
        assert(name[k] == name.subrange(c2 + 1, c3)[k - c2 - 1]);
    }
    assert forall|k: int| c3 < k < c4 implies name[k] != '\n' by {
        assert(name[k] == name.subrange(c3 + 1, c4)[k - c3 - 1]);
    }
    assert(name.subrange(c4, name.len() as int) =~= seq!['.'] + f.ext) by {
        assert forall|k: int| 0 <= k < 1 + f.ext.len() implies name.subrange(
            c4,
            name.len() as int,
        )[k] == (seq!['.'] + f.ext)[k] by {
            if k > 0 {
                assert(name[c4 + k] == name.subrange(c4 + 1, name.len() as int)[k - 1]);
            }
        }
    }
}

/// A leaf name that matches the pattern holds one set of fields only.
pub proof fn lemma_fields_unique(name: Seq<char>, f: InfoView, g: InfoView)
    requires
        fields_of(name, f),
        fields_of(name, g),
    ensures
        f == g,
{
    lemma_cuts(name, f);
    lemma_cuts(name, g);
    let fc1 = f.artist.len() as int;
    let gc1 = g.artist.len() as int;
    assert(fc1 == gc1) by {
        if fc1 < gc1 {
            assert(name[fc1] == '-');
        } else if gc1 < fc1 {
            assert(name[gc1] == '-');
        }
    }
    let fc2 = fc1 + 1 + f.album.len();
    let gc2 = gc1 + 1 + g.album.len();
    assert(fc2 == gc2) by {
        if fc2 < gc2 {
            assert(name[fc2] == '-');
        } else if gc2 < fc2 {
            assert(name[gc2] == '-');
        }
    }
    let fc3 = fc2 + 1 + f.track.len();
    let gc3 = gc2 + 1 + g.track.len();
    assert(fc3 == gc3) by {
        if fc3 < gc3 {
            assert(name[fc3] == ' ');
            assert(is_digit(name[fc3]));
        } else if gc3 < fc3 {
            assert(name[gc3] == ' ');
            assert(is_digit(name[gc3]));
        }
    }
    let n = name.len() as int;
    assert(f.ext == g.ext) by {
        assert(name.subrange(n - 1 - f.ext.len(), n)[f.ext.len() as int] == name[n - 1]);
        assert(name.subrange(n - 1 - g.ext.len(), n)[g.ext.len() as int] == name[n - 1]);
        assert((seq!['.'] + f.ext)[f.ext.len() as int] == f.ext[f.ext.len() - 1]);
        assert((seq!['.'] + g.ext)[g.ext.len() as int] == g.ext[g.ext.len() - 1]);
    }
    assert(f.song.len() == g.song.len());
}

/// The first position at or after `from` that holds a `-`, or `n` where none does.
fn find_hyphen(name: &str, n: usize, from: usize) -> (r: usize)
    requires
        n == name@.len(),
        from <= n,
    ensures
        from <= r <= n,
        forall|k: int| from <= k < r ==> name@[k] != '-',
        r < n ==> name@[r as int] == '-',
{
    let mut i: usize = from;
    while i < n
        invariant
            n == name@.len(),
            from <= i <= n,
            forall|k: int| from <= k < i ==> name@[k] != '-',
        decreases n - i,
    {
        if name.get_char(i) == '-' {
            return i;
        }
        i = i + 1;
    }
    i
}

/// The end of the run of decimal digits that starts at `from`.
fn digit_run_end(name: &str, n: usize, from: usize) -> (r: usize)
    requires
        n == name@.len(),
        from <= n,
    ensures
        from <= r <= n,
        forall|k: int| from <= k < r ==> is_digit(name@[k]),
        r < n ==> !is_digit(name@[r as int]),
{
    let mut i: usize = from;
    while i < n
        invariant
            n == name@.len(),
            from <= i <= n,
            forall|k: int| from <= k < i ==> is_digit(name@[k]),
        decreases n - i,
    {
        let c = name.get_char(i);
        if !('0' <= c && c <= '9') {
            return i;
        }
        i = i + 1;
    }
    i
}

/// The first position in `from..to` that holds a line feed, or `to` where none does.
fn find_newline(name: &str, from: usize, to: usize) -> (r: usize)
    requires
        from <= to <= name@.len(),
    ensures
        from <= r <= to,
        forall|k: int| from <= k < r ==> name@[k] != '\n',
        r < to ==> name@[r as int] == '\n',
{
    let mut i: usize = from;
    while i < to
        invariant
            from <= i <= to <= name@.len(),
            forall|k: int| from <= k < i ==> name@[k] != '\n',
        decreases to - i,
    {
        if name.get_char(i) == '\n' {
            return i;
        }
        i = i + 1;
    }
    i
}

/// Whether `name` ends with `suffix`.
pub fn has_suffix(name: &str, suffix: &str) -> (r: bool)
    ensures
        r == ends_with(name@, suffix@),
{
    let n = name.unicode_len();
    let m = suffix.unicode_len();
    if m > n {
        return false;
    }
    let mut i: usize = 0;
    while i < m
        invariant
            n == name@.len(),
            m == suffix@.len(),
            m <= n,
            i <= m,
            forall|k: int| 0 <= k < i ==> name@[n - m + k] == suffix@[k],
        decreases m - i,
    {
        if name.get_char(n - m + i) != suffix.get_char(i) {
            assert(name@.subrange(n - m, n as int)[i as int] == name@[n - m + i]);
            return false;
        }
        i = i + 1;
    }
    assert(name@.subrange(n - m, n as int) =~= suffix@);
    true
}

/// The fields of the leaf name `name`, or `None` where it does not match the pattern.
pub fn parse_filename(name: &str) -> (r: Option<Info>)
    ensures
        match r {
            Some(info) => fields_of(name@, info@),
            None => !matches_pattern(name@),
        },
{
    proof {
        reveal_strlit(".mp3");
        reveal_strlit(".flac");
        reveal_strlit("mp3");
        reveal_strlit("flac");
        assert(seq!['.'] + mp3_ext() =~= ".mp3"@);
        assert(seq!['.'] + flac_ext() =~= ".flac"@);
        assert("mp3"@ =~= mp3_ext());
        assert("flac"@ =~= flac_ext());
    }
    let n = name.unicode_len();
    let i1 = find_hyphen(name, n, 0);
    if i1 == n {
        proof {
            assert forall|f: InfoView| !fields_of(name@, f) by {
                if fields_of(name@, f) {
                    lemma_cuts(name@, f);
                    assert(name@[f.artist.len() as int] == '-');
                }
            }
        }
        return None;
    }
    let i2 = find_hyphen(name, n, i1 + 1);
    if i2 == n {
        proof {
            assert forall|f: InfoView| !fields_of(name@, f) by {
                if fields_of(name@, f) {
                    lemma_cuts(name@, f);
                    let c1 = f.artist.len() as int;
                    let c2 = c1 + 1 + f.album.len();
                    assert(name@[c1] == '-');
                    assert(name@[c2] == '-');
                    if c1 > i1 {
                        assert(name@[i1 as int] != '-');
                    }
                }
            }
        }
        return None;
    }
    let j = digit_run_end(name, n, i2 + 1);
    if j == i2 + 1 || j == n || name.get_char(j) != ' ' {
        proof {
            assert forall|f: InfoView| !fields_of(name@, f) by {
                if fields_of(name@, f) {
                    lemma_cuts_match(name@, f, i1, i2, j);
                }
            }
        }
        return None;
    }
    let ext;
    let dot: usize;
    let is_mp3 = has_suffix(name, ".mp3") && n - 4 >= j + 1;
    let is_flac = has_suffix(name, ".flac") && n - 5 >= j + 1;
    if is_mp3 {
        ext = String::from_str("mp3");
        dot = n - 4;
    } else if is_flac {
        ext = String::from_str("flac");
        dot = n - 5;
    } else {
        proof {
            assert forall|f: InfoView| !fields_of(name@, f) by {
                if fields_of(name@, f) {
                    lemma_cuts_match(name@, f, i1, i2, j);
                    lemma_cuts(name@, f);
                    if f.ext == mp3_ext() {
                        assert(ends_with(name@, ".mp3"@));
                    } else {
                        assert(ends_with(name@, ".flac"@));
                    }
                }
            }
        }
        return None;
    }
    let nl = find_newline(name, j + 1, dot);
    if nl < dot {
        proof {
            assert forall|f: InfoView| !fields_of(name@, f) by {
                if fields_of(name@, f) {
                    lemma_cuts_match(name@, f, i1, i2, j);
                    assert(f.ext == ext@);
                }
            }
        }
        return None;
    }
    let info = Info {
        artist: String::from_str(name.substring_char(0, i1)),
        album: String::from_str(name.substring_char(i1 + 1, i2)),
        track: String::from_str(name.substring_char(i2 + 1, j)),
        song: String::from_str(name.substring_char(j + 1, dot)),
        ext,
    };
    proof {
        lemma_assembled(name@, info@, i1, i2, j, dot);
    }
    Some(info)
}

/// Where a name matches, its cut points are the ones the scans find.
proof fn lemma_cuts_match(name: Seq<char>, f: InfoView, i1: usize, i2: usize, j: usize)
    requires
        fields_of(name, f),
        i1 < name.len(),
        name[i1 as int] == '-',
        forall|k: int| 0 <= k < i1 ==> name[k] != '-',
        i1 < i2 < name.len(),
        name[i2 as int] == '-',
        forall|k: int| i1 < k < i2 ==> name[k] != '-',
        i2 < j <= name.len(),
        forall|k: int| i2 < k < j ==> is_digit(name[k]),
        j < name.len() ==> !is_digit(name[j as int]),
    ensures
        f.artist.len() == i1,
        f.artist.len() + 1 + f.album.len() == i2,
        f.artist.len() + 1 + f.album.len() + 1 + f.track.len() == j,
        j < name.len(),
        name[j as int] == ' ',
        j > i2 + 1,
{
    lemma_cuts(name, f);
    let c1 = f.artist.len() as int;
    let c2 = c1 + 1 + f.album.len();
    let c3 = c2 + 1 + f.track.len();
    assert(name[c1] == '-');
    assert(name[c2] == '-');
    assert(name[c3] == ' ');
    if c1 > i1 {
        assert(name[i1 as int] != '-');
    }
    if c2 > i2 {
        assert(name[i2 as int] != '-');
    }
    if c3 > j {
        assert(is_digit(name[j as int]));
    }
    if c3 < j {
        assert(is_digit(name[c3]));
    }
}


/// The pieces cut at the scanned positions are the fields of the name.
proof fn lemma_assembled(name: Seq<char>, f: InfoView, i1: usize, i2: usize, j: usize, dot: usize)
    requires
        i1 < i2 < j < dot < name.len(),
        name[i1 as int] == '-',
        forall|k: int| 0 <= k < i1 ==> name[k] != '-',
        name[i2 as int] == '-',
        forall|k: int| i1 < k < i2 ==> name[k] != '-',
        forall|k: int| i2 < k < j ==> is_digit(name[k]),
        j > i2 + 1,
        name[j as int] == ' ',
        forall|k: int| j < k < dot ==> name[k] != '\n',
        ends_with(name, seq!['.'] + f.ext),
        is_audio_ext(f.ext),
        dot + 1 + f.ext.len() == name.len(),
        f.artist == name.subrange(0, i1 as int),
        f.album == name.subrange(i1 + 1, i2 as int),
        f.track == name.subrange(i2 + 1, j as int),
        f.song == name.subrange(j + 1, dot as int),
    ensures
        fields_of(name, f),
{
    lemma_leaf_name_laid_out(name, f);
    let n = name.len() as int;
    let tail = name.subrange(dot as int, n);
    assert(tail[0] == (seq!['.'] + f.ext)[0]);
    assert(name.subrange(dot + 1, n) =~= f.ext) by {
        assert forall|k: int| 0 <= k < f.ext.len() implies name.subrange(dot + 1, n)[k]
            == f.ext[k] by {
            assert(tail[k + 1] == (seq!['.'] + f.ext)[k + 1]);
        }
    }
    assert(laid_out(name, f));
}

} // verus!
