use std::time::Duration;

use waylyrics::cache_flow::{cache_flow_step, CacheFlowAction, CacheFlowEvent, CacheFlowState};
use waylyrics::cache_path::{get_cache_path, md5_cache_dir, TrackLength, TrackMeta};
use waylyrics::lyric::{
    cache_entry, has_displayable_lyric, is_blank_text, is_cache_usable, LyricCache,
    LyricLineOwned, LyricOwned,
};

fn line(text: &str) -> LyricLineOwned {
    LyricLineOwned {
        text: text.to_owned(),
        start_time: Duration::ZERO,
    }
}

fn timed(texts: &[&str]) -> LyricOwned {
    LyricOwned::LineTimestamp(texts.iter().map(|t| line(t)).collect())
}

#[test]
fn rejects_empty_or_blank_timed_lyrics() {
    assert!(!has_displayable_lyric(&LyricOwned::NoLyric));
    assert!(!has_displayable_lyric(&LyricOwned::LineTimestamp(vec![])));
    assert!(!has_displayable_lyric(&LyricOwned::LineTimestamp(vec![
        LyricLineOwned {
            text: "   ".to_owned(),
            start_time: Duration::ZERO,
        },
    ])));
}

#[test]
fn accepts_a_non_empty_timed_line() {
    assert!(has_displayable_lyric(&LyricOwned::LineTimestamp(vec![
        LyricLineOwned {
            text: "lyric".to_owned(),
            start_time: Duration::ZERO,
        },
    ])));
}

#[test]
fn plain_text_lyric_is_not_displayable() {
    assert!(!has_displayable_lyric(&LyricOwned::PlainText("words".to_owned())));
}

#[test]
fn one_shown_line_among_blank_ones_is_enough() {
    assert!(has_displayable_lyric(&timed(&["", " \t", "x", "\n"])));
    assert!(!has_displayable_lyric(&timed(&["", " \t", "\u{3000}\u{2028}"])));
}

#[test]
fn blank_text_follows_trim() {
    for text in ["", " ", "\t\r\n", "\u{a0}\u{1680}\u{2000}\u{200a}\u{202f}\u{205f}\u{3000}\u{85}"] {
        assert!(is_blank_text(text));
        assert_eq!(is_blank_text(text), text.trim().is_empty());
    }
    for text in [" a ", "\u{200b}", "\u{180e}", "x"] {
        assert!(!is_blank_text(text));
        assert_eq!(is_blank_text(text), text.trim().is_empty());
    }
}

#[test]
fn cache_entry_needs_a_displayable_lyric() {
    assert!(cache_entry(LyricOwned::NoLyric, timed(&["  "])).is_none());
    let entry = cache_entry(LyricOwned::NoLyric, timed(&["hello"])).unwrap();
    assert!(matches!(entry.olyric, LyricOwned::NoLyric));
    assert!(has_displayable_lyric(&entry.tlyric));
    assert_eq!(entry.offset, 0);
}

#[test]
fn cache_usable_when_either_lyric_shows() {
    let both_empty = LyricCache { olyric: timed(&[]), tlyric: LyricOwned::NoLyric, offset: 5 };
    assert!(!is_cache_usable(&both_empty));
    let origin = LyricCache { olyric: timed(&["a"]), tlyric: LyricOwned::NoLyric, offset: 5 };
    assert!(is_cache_usable(&origin));
}

fn start(has_cache_path: bool, ignore_cache: bool) -> (CacheFlowState, CacheFlowAction) {
    cache_flow_step(CacheFlowState::Begin, CacheFlowEvent::Start { has_cache_path, ignore_cache })
}

#[test]
fn flow_reads_cache_only_for_titled_tracks_without_ignore() {
    assert!(matches!(start(true, false), (CacheFlowState::ReadingCache, CacheFlowAction::ReadCache)));
    assert!(matches!(
        start(true, true),
        (CacheFlowState::Fetching { cacheable: true }, CacheFlowAction::Fetch)
    ));
    assert!(matches!(
        start(false, false),
        (CacheFlowState::Fetching { cacheable: false }, CacheFlowAction::Fetch)
    ));
}

#[test]
fn flow_uses_a_displayable_cache() {
    let cache = LyricCache { olyric: timed(&["first line"]), tlyric: LyricOwned::NoLyric, offset: -300 };
    match cache_flow_step(CacheFlowState::ReadingCache, CacheFlowEvent::CacheRead(Some(cache))) {
        (CacheFlowState::Finished, CacheFlowAction::UseCache(c)) => assert_eq!(c.offset, -300),
        _ => panic!("the cache was not used"),
    }
}

#[test]
fn flow_refetches_an_empty_or_missing_cache() {
    let empty = LyricCache { olyric: timed(&[" "]), tlyric: timed(&[]), offset: 0 };
    assert!(matches!(
        cache_flow_step(CacheFlowState::ReadingCache, CacheFlowEvent::CacheRead(Some(empty))),
        (CacheFlowState::Fetching { cacheable: true }, CacheFlowAction::Fetch)
    ));
    assert!(matches!(
        cache_flow_step(CacheFlowState::ReadingCache, CacheFlowEvent::CacheRead(None)),
        (CacheFlowState::Fetching { cacheable: true }, CacheFlowAction::Fetch)
    ));
}

#[test]
fn flow_writes_and_announces_only_after_success() {
    assert!(matches!(
        cache_flow_step(CacheFlowState::Fetching { cacheable: true }, CacheFlowEvent::FetchDone { ok: true }),
        (CacheFlowState::WritingCache, CacheFlowAction::WriteCache)
    ));
    assert!(matches!(
        cache_flow_step(CacheFlowState::Fetching { cacheable: true }, CacheFlowEvent::FetchDone { ok: false }),
        (CacheFlowState::Finished, CacheFlowAction::Finish)
    ));
    assert!(matches!(
        cache_flow_step(CacheFlowState::Fetching { cacheable: false }, CacheFlowEvent::FetchDone { ok: true }),
        (CacheFlowState::Finished, CacheFlowAction::Finish)
    ));
    assert!(matches!(
        cache_flow_step(CacheFlowState::WritingCache, CacheFlowEvent::CacheWritten { ok: true }),
        (CacheFlowState::Finished, CacheFlowAction::AnnounceNewCache)
    ));
    assert!(matches!(
        cache_flow_step(CacheFlowState::WritingCache, CacheFlowEvent::CacheWritten { ok: false }),
        (CacheFlowState::Finished, CacheFlowAction::Finish)
    ));
    assert!(matches!(
        cache_flow_step(CacheFlowState::Finished, CacheFlowEvent::FetchDone { ok: true }),
        (CacheFlowState::Finished, CacheFlowAction::Finish)
    ));
}

#[test]
fn written_entry_is_used_when_read_back() {
    let entry = cache_entry(timed(&["la la"]), LyricOwned::NoLyric).unwrap();
    assert!(matches!(
        cache_flow_step(CacheFlowState::ReadingCache, CacheFlowEvent::CacheRead(Some(entry))),
        (CacheFlowState::Finished, CacheFlowAction::UseCache(_))
    ));
}

fn meta(title: Option<&str>) -> TrackMeta {
    TrackMeta {
        unique_id: Some("id-1".to_owned()),
        title: title.map(|t| t.to_owned()),
        album: Some("Album".to_owned()),
        artists: Some(vec!["A".to_owned(), "B".to_owned()]),
        length: Some(TrackLength { secs: 245, nanos: 0 }),
    }
}

#[test]
fn untitled_track_has_no_cache_path() {
    assert!(get_cache_path(&meta(None)).is_none());
}

#[test]
fn cache_path_is_the_md5_of_the_track_key() {
    // md5("Song-Some([\"A\", \"B\"])-Some(\"Album\")-Some(245s)")
    let path = get_cache_path(&meta(Some("Song"))).unwrap();
    assert_eq!(path.file_name, "d40daa58a95def918c4850d5458f59c3.json");
    assert_eq!(path.dirs, vec!["d4".to_owned(), "0d".to_owned(), "aa".to_owned()]);
}

#[test]
fn cache_path_of_a_bare_title() {
    let bare = TrackMeta { unique_id: None, title: Some("Song".to_owned()), album: None, artists: None, length: None };
    let path = get_cache_path(&bare).unwrap();
    assert_eq!(path.file_name, "e67074fcbf9a49ff97e2644841434ea7.json");
    assert_eq!(path.dirs.concat(), path.file_name[..6]);
}

#[test]
fn cache_path_ignores_the_unique_id() {
    let mut other = meta(Some("Song"));
    other.unique_id = Some("another".to_owned());
    let a = get_cache_path(&meta(Some("Song"))).unwrap();
    let b = get_cache_path(&other).unwrap();
    assert_eq!(a.file_name, b.file_name);
    assert_eq!(a.dirs, b.dirs);
}

#[test]
fn cache_dirs_are_the_first_three_bytes() {
    let mut digest = [0u8; 16];
    digest[0] = 0x0f;
    digest[1] = 0xa0;
    digest[2] = 0xff;
    digest[3] = 0x12;
    assert_eq!(md5_cache_dir(&digest), vec!["0f".to_owned(), "a0".to_owned(), "ff".to_owned()]);
}

#[test]
fn cache_file_name_has_thirty_two_hex_digits() {
    let path = get_cache_path(&meta(Some("Another \"quoted\" title"))).unwrap();
    assert_eq!(path.file_name.len(), 37);
    assert!(path.file_name[..32].chars().all(|c| c.is_ascii_hexdigit() && !c.is_ascii_uppercase()));
    assert!(path.file_name.ends_with(".json"));
    assert_eq!(path.dirs.concat(), path.file_name[..6]);
}

#[test]
fn cache_key_uses_debug_of_every_field() {
    // md5("Song-None-None-Some(1.5s)")
    let half = TrackMeta {
        unique_id: None,
        title: Some("Song".to_owned()),
        album: None,
        artists: None,
        length: Some(TrackLength { secs: 1, nanos: 500_000_000 }),
    };
    let path = get_cache_path(&half).unwrap();
    assert_eq!(path.file_name, format!("{:x}.json", md5::compute("Song-None-None-Some(1.5s)")));
}

#[test]
fn white_space_matches_std_for_every_char() {
    for c in (0..=0x10FFFFu32).filter_map(char::from_u32) {
        assert_eq!(waylyrics::lyric::is_white_space_char(c), c.is_whitespace(), "{c:?}");
    }
}
