use audio_sort::cache::{plan_placement, DirCache};
use audio_sort::extract::{
    classify_file, decimal_text, extension_of, info_from_tags, Extraction, SkipReason, TagData,
};
use audio_sort::info::Info;
use audio_sort::layout::{destination, placed_file_name, FsPath};
use audio_sort::pattern::{has_suffix, parse_filename};
use audio_sort::walk::{entry_action, place_kind, placement_verdict, EntryAction, PlaceKind, Verdict};
use audio_sort::Params;

fn params(copy: bool, metadata: bool, recursive: bool) -> Params {
    Params { copy, metadata, recursive }
}

fn root(s: &str) -> FsPath {
    FsPath::from_root(s.to_string())
}

fn segs(p: &FsPath) -> Vec<&str> {
    p.segs.iter().map(|s| s.as_str()).collect()
}

fn fields(info: &Info) -> (&str, &str, &str, &str, &str) {
    (&info.artist, &info.album, &info.track, &info.song, &info.ext)
}

#[test]
fn filename_mode_happy_path() {
    let name = "Beatles-Abbey Road-07 Here Comes The Sun.flac";
    let p = params(false, false, false);
    let info = match classify_file(name, &p) {
        Extraction::Parsed(info) => info,
        _ => panic!("expected the name to parse"),
    };
    assert_eq!(fields(&info), ("Beatles", "Abbey Road", "07", "Here Comes The Sun", "flac"));
    let mut cache = DirCache::new();
    let plan = plan_placement(&mut cache, &root("/out"), &info);
    assert!(plan.probe_artist);
    assert!(plan.probe_album);
    assert_eq!(segs(&plan.dest.artist_dir), vec!["/out", "Beatles"]);
    assert_eq!(segs(&plan.dest.album_dir), vec!["/out", "Beatles", "Abbey Road"]);
    assert_eq!(
        segs(&plan.dest.file),
        vec!["/out", "Beatles", "Abbey Road", "07 Here Comes The Sun.flac"]
    );
    assert!(matches!(place_kind(&p), PlaceKind::Rename));
}

#[test]
fn hyphen_in_artist_is_rejected() {
    let name = "A-B-Band-Album-01 Song.mp3";
    assert!(parse_filename(name).is_none());
    let r = classify_file(name, &params(false, false, false));
    assert!(matches!(r, Extraction::Skipped(SkipReason::PatternNotMatched)));
}

#[test]
fn metadata_mode_missing_track_tag() {
    let p = params(false, true, false);
    let ext = match classify_file("anything.mp3", &p) {
        Extraction::ReadTags(e) => e,
        _ => panic!("expected a tag read"),
    };
    assert_eq!(ext, "mp3");
    let tags = TagData {
        artist: Some("X".to_string()),
        album: Some("Y".to_string()),
        track: None,
        title: Some("Z".to_string()),
    };
    let info = info_from_tags(tags, ext);
    assert_eq!(fields(&info), ("X", "Y", "0", "Z", "mp3"));
    let dest = destination(&root("/out"), &info);
    assert_eq!(segs(&dest.file), vec!["/out", "X", "Y", "0 Z.mp3"]);
}

#[test]
fn metadata_mode_absent_text_tags_are_empty() {
    let tags = TagData { artist: None, album: None, track: Some(12), title: None };
    let info = info_from_tags(tags, "flac".to_string());
    assert_eq!(fields(&info), ("", "", "12", "", "flac"));
    assert_eq!(placed_file_name(&info), "12 .flac");
}

#[test]
fn copy_failure_is_passed_over() {
    let p = params(true, false, false);
    assert!(matches!(place_kind(&p), PlaceKind::Copy));
    assert!(matches!(placement_verdict(&p, false), Verdict::CopyFailed));
    assert!(matches!(placement_verdict(&p, true), Verdict::Placed));
}

#[test]
fn rename_failure_is_fatal() {
    let p = params(false, false, false);
    assert!(matches!(placement_verdict(&p, false), Verdict::Fatal));
    assert!(matches!(placement_verdict(&p, true), Verdict::Placed));
}

#[test]
fn directory_memoization() {
    let mut cache = DirCache::new();
    let out = root("/out");
    let mut artist_probes = 0;
    let mut album_probes = 0;
    for i in 1..=10 {
        let name = format!("A-B-{:02} Song {}.mp3", i, i);
        let info = parse_filename(&name).expect("name parses");
        let plan = plan_placement(&mut cache, &out, &info);
        if plan.probe_artist {
            artist_probes += 1;
        }
        if plan.probe_album {
            album_probes += 1;
        }
        assert_eq!(segs(&plan.dest.album_dir), vec!["/out", "A", "B"]);
    }
    assert_eq!(artist_probes, 1);
    assert_eq!(album_probes, 1);
    assert!(cache.contains(&out.join("A")));
    assert!(cache.contains(&out.join("A").join("B")));
    assert!(!cache.contains(&out.join("B")));
}

#[test]
fn memo_is_per_path() {
    let mut cache = DirCache::new();
    let out = root("/out");
    assert!(cache.ensure(&out.join("A")));
    assert!(cache.ensure(&out.join("C")));
    assert!(!cache.ensure(&out.join("A")));
    assert!(cache.ensure(&out.join("A").join("B")));
    assert!(!cache.ensure(&out.join("C")));
}

#[test]
fn non_recursive_skips_directories() {
    let p = params(false, false, false);
    assert!(matches!(entry_action(true, &p), EntryAction::SkipDirectory));
    assert!(matches!(entry_action(false, &p), EntryAction::Examine));
    let r = params(false, false, true);
    assert!(matches!(entry_action(true, &r), EntryAction::Descend));
    assert!(matches!(entry_action(false, &r), EntryAction::Examine));
}

#[test]
fn unsupported_extension_in_metadata_mode() {
    let p = params(false, true, false);
    for name in ["cover.jpg", "song.MP3", "song.mp3.bak", "flac", "mp3"] {
        let r = classify_file(name, &p);
        assert!(matches!(r, Extraction::Skipped(SkipReason::ExtensionNotSupported)), "{}", name);
    }
    match classify_file("x.flac", &p) {
        Extraction::ReadTags(e) => assert_eq!(e, "flac"),
        _ => panic!("expected a tag read"),
    }
}

#[test]
fn metadata_mode_does_not_parse_names() {
    let p = params(false, true, false);
    let r = classify_file("Beatles-Abbey Road-07 Here Comes The Sun.flac", &p);
    assert!(matches!(r, Extraction::ReadTags(_)));
}

#[test]
fn extension_detection() {
    assert_eq!(extension_of("a.mp3").as_deref(), Some("mp3"));
    assert_eq!(extension_of(".flac").as_deref(), Some("flac"));
    assert_eq!(extension_of("a.ogg"), None);
    assert_eq!(extension_of(""), None);
}

#[test]
fn decimal_rendering() {
    assert_eq!(decimal_text(0), "0");
    assert_eq!(decimal_text(7), "7");
    assert_eq!(decimal_text(10), "10");
    assert_eq!(decimal_text(305), "305");
    assert_eq!(decimal_text(65535), "65535");
}

#[test]
fn suffix_check() {
    assert!(has_suffix("abc.mp3", ".mp3"));
    assert!(has_suffix("abc", ""));
    assert!(!has_suffix("mp3", ".mp3"));
    assert!(!has_suffix("abc.mp4", ".mp3"));
}

#[test]
fn pattern_edge_cases() {
    let info = parse_filename("-b-1 s.mp3").expect("empty artist");
    assert_eq!(fields(&info), ("", "b", "1", "s", "mp3"));
    let info = parse_filename("a--001 .flac").expect("empty album and song");
    assert_eq!(fields(&info), ("a", "", "001", "", "flac"));
    let info = parse_filename("a-b-1 x-y.z.mp3").expect("song with hyphen and dot");
    assert_eq!(fields(&info), ("a", "b", "1", "x-y.z", "mp3"));
    let info = parse_filename("a-b-1  two.mp3").expect("song starting with a space");
    assert_eq!(fields(&info), ("a", "b", "1", " two", "mp3"));
    assert!(parse_filename("").is_none());
    assert!(parse_filename("a-b- s.mp3").is_none());
    assert!(parse_filename("a-b-1s.mp3").is_none());
    assert!(parse_filename("a-b-1 s.mp3.bak").is_none());
    assert!(parse_filename("a-b-1 s.ogg").is_none());
    assert!(parse_filename("a-b-1 s\nt.mp3").is_none());
    assert!(parse_filename("a-b-1 s.MP3").is_none());
    assert!(parse_filename("a-b-1 mp3").is_none());
    assert!(parse_filename("ab-1 s.mp3").is_none());
}

#[test]
fn pattern_agrees_with_anchored_regex() {
    let re = regex::Regex::new(r"^([^-]*)-([^-]*)-([0-9]+) (.*)\.(flac|mp3)$").unwrap();
    let names = [
        "Beatles-Abbey Road-07 Here Comes The Sun.flac",
        "A-B-Band-Album-01 Song.mp3",
        "-b-1 s.mp3",
        "a--001 .flac",
        "a-b-1 x-y.z.mp3",
        "a-b-1 x.flac.mp3",
        "a-b-1 x.mp3.flac",
        "a-b- s.mp3",
        "a-b-1s.mp3",
        "a-b-1 s.mp3.bak",
        "a-b-12 3 4.mp3",
        "a-b-1 mp3",
        "a-b-1 .mp3",
        "Artist-Album-1 Song.ogg",
        "été-Ça-9 ñ.flac",
    ];
    for name in names {
        let ours = parse_filename(name);
        match re.captures(name) {
            Some(c) => {
                let info = ours.unwrap_or_else(|| panic!("{} should parse", name));
                assert_eq!(
                    fields(&info),
                    (&c[1], &c[2], &c[3], &c[4], &c[5]),
                    "{}",
                    name
                );
            }
            None => assert!(ours.is_none(), "{} should not parse", name),
        }
    }
}

#[test]
fn paths_compare_by_segments() {
    let a = root("/out").join("A");
    assert!(a.same_as(&root("/out").join("A")));
    assert!(!a.same_as(&root("/out")));
    assert!(!a.same_as(&root("/out").join("B")));
    assert!(!a.same_as(&root("/out/A")));
}

#[test]
fn destination_takes_fields_verbatim() {
    let info = Info {
        artist: "Art ist".to_string(),
        album: "Al.bum".to_string(),
        track: "3".to_string(),
        song: "So ng".to_string(),
        ext: "mp3".to_string(),
    };
    let dest = destination(&root("music"), &info);
    assert_eq!(segs(&dest.artist_dir), vec!["music", "Art ist"]);
    assert_eq!(segs(&dest.album_dir), vec!["music", "Art ist", "Al.bum"]);
    assert_eq!(segs(&dest.file), vec!["music", "Art ist", "Al.bum", "3 So ng.mp3"]);
}
