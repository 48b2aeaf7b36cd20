//! Choosing the strategy that finds the fields of one file.
use vstd::prelude::*;
use crate::Params;
use crate::info::{Info, InfoView, mp3_ext, flac_ext};
use crate::pattern::{ends_with, fields_of, has_suffix, matches_pattern, parse_filename};

verus! {

/// The four tags a reader hands over for one file; any of them may be absent.
pub struct TagData {
    pub artist: Option<String>,
    pub album: Option<String>,
    pub track: Option<u16>,
    pub title: Option<String>,
}

/// Why a file is left where it is.
pub enum SkipReason {
    /// Filename mode: the leaf name does not match the pattern.
    PatternNotMatched,
    /// Metadata mode: the leaf name ends neither in `.mp3` nor in `.flac`.
    ExtensionNotSupported,
}

/// What becomes of one file once its leaf name has been looked at.
pub enum Extraction {
    /// The leaf name gave every field.
    Parsed(Info),
    /// The tags of the file are to be read; it carries the extension.
    ReadTags(String),
    /// The file is skipped.
    Skipped(SkipReason),
}

pub open spec fn digit_chars() -> Seq<char> {
    seq!['0', '1', '2', '3', '4', '5', '6', '7', '8', '9']
}

/// The decimal digits of `n`, without leading zeros.
pub open spec fn decimal(n: nat) -> Seq<char>
    decreases n,
{
    if n < 10 {
        seq![digit_chars()[n as int]]
    } else {
        decimal(n / 10) + seq![digit_chars()[(n % 10) as int]]
    }
}

/// The text of a tag, or nothing where the tag is absent.
pub open spec fn text_or_empty(t: Option<String>) -> Seq<char> {
    match t {
        Some(s) => s@,
        None => Seq::empty(),
    }
}

/// The fields that the tags of a file give, with `ext` found from its name.
pub open spec fn tag_fields(tags: TagData, ext: Seq<char>) -> InfoView {
    InfoView {
        artist: text_or_empty(tags.artist),
        album: text_or_empty(tags.album),
        track: decimal(
            match tags.track {
                Some(t) => t as nat,
                None => 0,
            },
        ),
        song: text_or_empty(tags.title),
        ext,
    }
}

/// The extension that metadata mode reads from a leaf name, if it is supported.
pub open spec fn supported_ext(name: Seq<char>) -> Option<Seq<char>> {
    if ends_with(name, seq!['.'] + mp3_ext()) {
        Some(mp3_ext())
    } else if ends_with(name, seq!['.'] + flac_ext()) {
        Some(flac_ext())
    } else {
        None
    }
}

/// `n` in decimal digits.
pub fn decimal_text(n: u16) -> (r: String)
    ensures
        r@ == decimal(n as nat),
    decreases n,
{
    let digits = "0123456789";
    proof {
        reveal_strlit("0123456789");
        assert(digits@ =~= digit_chars());
    }
    if n < 10 {
        let d = n as usize;
        let r = String::from_str(digits.substring_char(d, d + 1));
        assert(r@ =~= seq![digit_chars()[n as int]]);
        r
    } else {
        let d = (n % 10) as usize;
        let mut r = decimal_text(n / 10);
        let last = digits.substring_char(d, d + 1);
        assert(last@ =~= seq![digit_chars()[(n % 10) as int]]);
        r.append(last);
        r
    }
}

fn text_of(t: Option<String>) -> (r: String)
    ensures
        r@ == text_or_empty(t),
{
    match t {
        Some(s) => s,
        None => String::new(),
    }
}

/// The extension of a leaf name in metadata mode: `mp3`, `flac`, or `None`.
pub fn extension_of(name: &str) -> (r: Option<String>)
    ensures
        match r {
            Some(e) => supported_ext(name@) == Some(e@),
            None => supported_ext(name@) is None,
        },
{
    proof {
        reveal_strlit(".mp3");
        reveal_strlit(".flac");
        reveal_strlit("mp3");
        reveal_strlit("flac");
        assert(seq!['.'] + mp3_ext() =~= ".mp3"@);
        assert(seq!['.'] + flac_ext() =~= ".flac"@);
        assert("mp3"@ =~= mp3_ext());
        assert("flac"@ =~= flac_ext());
    }
    if has_suffix(name, ".mp3") {
        Some(String::from_str("mp3"))
    } else if has_suffix(name, ".flac") {
        Some(String::from_str("flac"))
    } else {
        None
    }
}

/// The fields of a file in metadata mode: absent text tags become empty and
/// an absent track number becomes `0`.
pub fn info_from_tags(tags: TagData, ext: String) -> (r: Info)
    ensures
        r@ == tag_fields(tags, ext@),
{
    let track = match tags.track {
        Some(t) => t,
        None => 0,
    };
    Info {
        artist: text_of(tags.artist),
        album: text_of(tags.album),
        track: decimal_text(track),
        song: text_of(tags.title),
        ext,
    }
}

/// Decides, from its leaf name alone, how the fields of a file are found.
///
/// In metadata mode a supported extension asks for the tags and any other
/// name is skipped; in filename mode the name is parsed and skipped where it
/// does not match.
pub fn classify_file(name: &str, params: &Params) -> (r: Extraction)
    ensures
        params.metadata ==> match supported_ext(name@) {
            Some(e) => r is ReadTags && r->ReadTags_0@ == e,
            None => r matches Extraction::Skipped(SkipReason::ExtensionNotSupported),
        },
        !params.metadata ==> match r {
            Extraction::Parsed(info) => fields_of(name@, info@),
            Extraction::Skipped(reason) => reason is PatternNotMatched && !matches_pattern(name@),
            Extraction::ReadTags(_) => false,
        },
        !params.metadata && !matches_pattern(name@) ==> r matches Extraction::Skipped(
            SkipReason::PatternNotMatched,
        ),
{
    if params.metadata {
        match extension_of(name) {
            Some(e) => Extraction::ReadTags(e),
            None => Extraction::Skipped(SkipReason::ExtensionNotSupported),
        }
    } else {
        match parse_filename(name) {
            Some(info) => Extraction::Parsed(info),
            None => Extraction::Skipped(SkipReason::PatternNotMatched),
        }
    }
}

} // verus!
