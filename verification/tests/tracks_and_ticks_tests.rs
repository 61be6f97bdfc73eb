use jmsr_core::backoff::reconnect_delay;
use jmsr_core::ticks::{millis_to_ticks, ticks_to_millis, TICKS_PER_MILLI, TICKS_PER_SECOND};
use jmsr_core::tracks::{find_stream_by_lang, find_stream_by_preference, jellyfin_to_mpv_track_index};
use jmsr_core::types::MediaStream;

fn stream(index: i32, stream_type: &str, lang: Option<&str>, title: Option<&str>) -> MediaStream {
    MediaStream {
        index,
        stream_type: String::from(stream_type),
        codec: None,
        language: lang.map(String::from),
        display_title: title.map(String::from),
        is_default: false,
        is_external: false,
    }
}

#[test]
fn index_translation_counts_within_type() {
    let streams = vec![
        stream(0, "Video", None, None),
        stream(1, "Audio", Some("eng"), None),
        stream(2, "Audio", Some("jpn"), None),
        stream(3, "Subtitle", Some("eng"), None),
        stream(4, "Subtitle", Some("chi"), None),
    ];
    assert_eq!(jellyfin_to_mpv_track_index(&streams, "Audio", 1), 1);
    assert_eq!(jellyfin_to_mpv_track_index(&streams, "Audio", 2), 2);
    assert_eq!(jellyfin_to_mpv_track_index(&streams, "Subtitle", 3), 1);
    assert_eq!(jellyfin_to_mpv_track_index(&streams, "Subtitle", 4), 2);
}

#[test]
fn index_translation_falls_back_to_first_track() {
    let streams = vec![stream(0, "Video", None, None), stream(1, "Audio", None, None)];
    assert_eq!(jellyfin_to_mpv_track_index(&streams, "Audio", 9), 1);
    assert_eq!(jellyfin_to_mpv_track_index(&streams, "Subtitle", 1), 1);
    let empty: Vec<MediaStream> = Vec::new();
    assert_eq!(jellyfin_to_mpv_track_index(&empty, "Audio", 0), 1);
}

#[test]
fn find_stream_by_lang_ignores_case() {
    let streams = vec![
        stream(1, "Audio", Some("ENG"), None),
        stream(2, "Audio", Some("jpn"), None),
    ];
    assert_eq!(find_stream_by_lang(&streams, "Audio", "eng"), Some(1));
    assert_eq!(find_stream_by_lang(&streams, "Audio", "JPN"), Some(2));
    assert_eq!(find_stream_by_lang(&streams, "Audio", "ger"), None);
    assert_eq!(find_stream_by_lang(&streams, "Subtitle", "eng"), None);
}

#[test]
fn find_stream_by_preference_prefers_title_match() {
    let streams = vec![
        stream(1, "Subtitle", Some("eng"), Some("English - SRT")),
        stream(2, "Subtitle", Some("eng"), Some("English SDH")),
    ];
    assert_eq!(
        find_stream_by_preference(&streams, "Subtitle", "eng", Some("English SDH")),
        Some(2)
    );
    assert_eq!(
        find_stream_by_preference(&streams, "Subtitle", "eng", Some("No such title")),
        Some(1)
    );
    assert_eq!(find_stream_by_preference(&streams, "Subtitle", "eng", None), Some(1));
    assert_eq!(find_stream_by_preference(&streams, "Subtitle", "ger", Some("English SDH")), None);
}

#[test]
fn index_translation_matches_type_before_index() {
    // An index that exists on another type must not count as a match.
    let streams = vec![
        stream(1, "Video", None, None),
        stream(1, "Audio", Some("eng"), None),
        stream(2, "Audio", Some("jpn"), None),
    ];
    assert_eq!(jellyfin_to_mpv_track_index(&streams, "Audio", 1), 1);
    assert_eq!(jellyfin_to_mpv_track_index(&streams, "Audio", 2), 2);
    assert_eq!(jellyfin_to_mpv_track_index(&streams, "Video", 2), 1);
}

#[test]
fn tick_constants_match_the_unit() {
    assert_eq!(TICKS_PER_SECOND, 10_000_000);
    assert_eq!(TICKS_PER_MILLI, 10_000);
}

#[test]
fn millis_round_trip_is_exact() {
    for m in [0i64, 1, 999, 1000, 1500, 987_654_321] {
        assert_eq!(ticks_to_millis(millis_to_ticks(m)), m);
    }
}

#[test]
fn ticks_round_trip_truncates_below_one_milli() {
    assert_eq!(ticks_to_millis(15_000_000), 1500);
    assert_eq!(ticks_to_millis(15_009_999), 1500);
    assert_eq!(millis_to_ticks(1500), 15_000_000);
    let t = 123_456_789i64;
    let back = millis_to_ticks(ticks_to_millis(t));
    assert!(t - back >= 0 && t - back < TICKS_PER_MILLI);
}

#[test]
fn backoff_schedule_is_fixed_and_capped() {
    let expected = [1u64, 2, 5, 10, 30, 60];
    let mut attempt = 0u64;
    while attempt < 6 {
        assert_eq!(reconnect_delay(attempt), expected[attempt as usize]);
        attempt += 1;
    }
    assert_eq!(reconnect_delay(6), 60);
    assert_eq!(reconnect_delay(100), 60);
}
