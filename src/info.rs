//! The descriptor of one audio file.
use vstd::prelude::*;

verus! {

/// The fields that decide where one audio file is placed.
pub struct Info {
    pub artist: String,
    pub album: String,
    /// The track number as decimal digits.
    pub track: String,
    pub song: String,
    /// `mp3` or `flac`, without a leading dot.
    pub ext: String,
}

/// The text of each field of an [`Info`].
pub struct InfoView {
    pub artist: Seq<char>,
    pub album: Seq<char>,
    pub track: Seq<char>,
    pub song: Seq<char>,
    pub ext: Seq<char>,
}

impl View for Info {
    type V = InfoView;

    open spec fn view(&self) -> InfoView {
        InfoView {
            artist: self.artist@,
            album: self.album@,
            track: self.track@,
            song: self.song@,
            ext: self.ext@,
        }
    }
}

pub open spec fn mp3_ext() -> Seq<char> {
    seq!['m', 'p', '3']
}

pub open spec fn flac_ext() -> Seq<char> {
    seq!['f', 'l', 'a', 'c']
}

/// The extensions the sorter handles.
pub open spec fn is_audio_ext(e: Seq<char>) -> bool {
    e == mp3_ext() || e == flac_ext()
}

} // verus!
