use jmsr_core::prefs::PrefStore;
use jmsr_core::protocol::{MpvEvent, PropertyData};
use jmsr_core::session_core::{Effect, MpvAction, SessionCore};
use jmsr_core::types::{
    ArgValue, CommandArgs, GeneralCommand, MediaItem, MediaSource, MediaStream, PlaystateRequest,
};

fn stream(index: i32, stream_type: &str, lang: Option<&str>, title: Option<&str>) -> MediaStream {
    MediaStream {
        index,
        stream_type: String::from(stream_type),
        codec: None,
        language: lang.map(String::from),
        display_title: title.map(String::from),
        is_default: false,
        is_external: false,
    }
}

fn pilot() -> MediaItem {
    MediaItem {
        id: String::from("it1"),
        name: String::from("Pilot"),
        item_type: String::from("Episode"),
        series_id: Some(String::from("s1")),
        series_name: Some(String::from("Show")),
        season_name: None,
        index_number: Some(1),
        parent_index_number: Some(1),
        run_time_ticks: None,
        overview: None,
    }
}

fn episode_two() -> MediaItem {
    let mut item = pilot();
    item.id = String::from("it2");
    item.name = String::from("Second");
    item.index_number = Some(2);
    item
}

fn pilot_source() -> MediaSource {
    MediaSource {
        id: String::from("ms1"),
        path: None,
        protocol: String::from("Http"),
        container: Some(String::from("mkv")),
        run_time_ticks: None,
        media_streams: vec![
            stream(0, "Video", None, None),
            stream(1, "Audio", Some("eng"), None),
            stream(2, "Subtitle", Some("eng"), None),
        ],
        supports_direct_play: true,
        supports_direct_stream: false,
        supports_transcoding: false,
    }
}

fn fresh_core() -> SessionCore {
    SessionCore::new(PrefStore::new())
}

fn url_for_it1() -> String {
    String::from("https://s.example/Videos/it1/stream.mkv?Static=true&MediaSourceId=ms1&api_key=t")
}

fn playstate(command: &str, ticks: Option<i64>) -> PlaystateRequest {
    PlaystateRequest { command: String::from(command), seek_position_ticks: ticks }
}

fn general(name: &str, index: Option<ArgValue>) -> GeneralCommand {
    GeneralCommand {
        name: String::from(name),
        arguments: Some(CommandArgs { volume: None, index }),
    }
}

#[test]
fn play_from_cold_start_reports_and_loads() {
    let mut core = fresh_core();
    let effects = core.on_play(pilot(), pilot_source(), Some(String::from("ps1")), None, None, Some(0), url_for_it1());
    assert_eq!(effects.len(), 2);
    match &effects[0] {
        Effect::ReportStart(si) => {
            assert_eq!(si.item_id, "it1");
            assert_eq!(si.play_method, "DirectPlay");
            assert_eq!(si.media_source_id.as_deref(), Some("ms1"));
            assert_eq!(si.play_session_id.as_deref(), Some("ps1"));
            assert_eq!(si.position_ticks, Some(0));
            assert_eq!(si.volume_level, 100);
            assert!(!si.is_paused);
        }
        other => panic!("expected start report, got {:?}", other),
    }
    match &effects[1] {
        Effect::Player(MpvAction::Play { url, start_millis, title, audio_track, subtitle_track }) => {
            assert_eq!(url, &url_for_it1());
            assert_eq!(*start_millis, 0);
            assert_eq!(title, "Show - S01E01 - Pilot");
            assert!(audio_track.is_none());
            assert!(subtitle_track.is_none());
        }
        other => panic!("expected play action, got {:?}", other),
    }
    let session = core.playback.as_ref().unwrap();
    assert_eq!(session.item_id, "it1");
    assert_eq!(session.volume, 100);
    assert!(!session.is_paused);
    assert_eq!(core.current_series_id.as_deref(), Some("s1"));
}

#[test]
fn second_play_stops_the_first_session_first() {
    let mut core = fresh_core();
    core.on_play(pilot(), pilot_source(), Some(String::from("ps1")), None, None, Some(0), url_for_it1());
    let effects = core.on_play(episode_two(), pilot_source(), Some(String::from("ps2")), None, None, None, url_for_it1());
    assert_eq!(effects.len(), 3);
    match &effects[0] {
        Effect::ReportStopped(i) => assert_eq!(i.item_id, "it1"),
        other => panic!("expected stop of the old session first, got {:?}", other),
    }
    assert!(matches!(&effects[1], Effect::ReportStart(si) if si.item_id == "it2"));
    assert!(matches!(&effects[2], Effect::Player(MpvAction::Play { .. })));
    assert_eq!(core.playback.as_ref().unwrap().item_id, "it2");
}

#[test]
fn pause_then_resume_via_player_keyboard() {
    let mut core = fresh_core();
    core.on_play(pilot(), pilot_source(), None, None, None, Some(0), url_for_it1());
    let effects = core.on_playstate(&playstate("Pause", None), None);
    assert_eq!(effects, vec![Effect::Player(MpvAction::Pause)]);
    assert!(core.playback.as_ref().unwrap().is_paused);

    let event = MpvEvent {
        event: String::from("property-change"),
        id: Some(1),
        name: Some(String::from("pause")),
        data: Some(PropertyData::Bool(false)),
        reason: None,
        args: None,
    };
    let effects = core.on_player_event(&event, 0, 5000);
    assert!(!core.playback.as_ref().unwrap().is_paused);
    assert_eq!(effects.len(), 1);
    match &effects[0] {
        Effect::ReportProgress(p) => assert!(!p.is_paused),
        other => panic!("expected immediate progress report, got {:?}", other),
    }
}

#[test]
fn play_pause_trusts_the_live_player_state() {
    let mut core = fresh_core();
    core.on_play(pilot(), pilot_source(), None, None, None, Some(0), url_for_it1());
    let effects = core.on_playstate(&playstate("PlayPause", None), Some(true));
    assert_eq!(effects, vec![Effect::Player(MpvAction::Resume)]);
    assert!(!core.playback.as_ref().unwrap().is_paused);
    let effects = core.on_playstate(&playstate("PlayPause", None), Some(false));
    assert_eq!(effects, vec![Effect::Player(MpvAction::Pause)]);
}

#[test]
fn seek_updates_position_and_converts_units() {
    let mut core = fresh_core();
    core.on_play(pilot(), pilot_source(), None, None, None, Some(0), url_for_it1());
    let effects = core.on_playstate(&playstate("Seek", Some(150_000_000)), None);
    assert_eq!(effects, vec![Effect::Player(MpvAction::SeekMillis(15_000))]);
    assert_eq!(core.playback.as_ref().unwrap().position_ticks, 150_000_000);
}

#[test]
fn stop_reports_then_stops_the_player() {
    let mut core = fresh_core();
    core.on_play(pilot(), pilot_source(), None, None, None, Some(0), url_for_it1());
    core.on_playstate(&playstate("Seek", Some(42_0000_000)), None);
    let effects = core.on_playstate(&playstate("Stop", None), None);
    assert_eq!(effects.len(), 2);
    assert!(matches!(&effects[0], Effect::ReportStopped(i) if i.item_id == "it1"));
    assert_eq!(effects[1], Effect::Player(MpvAction::Stop));
    assert!(core.playback.is_none());
}

#[test]
fn subtitle_selection_persists_and_applies_to_the_next_play() {
    let mut core = fresh_core();
    core.on_play(pilot(), pilot_source(), None, None, None, Some(0), url_for_it1());
    let effects = core.on_general_command(&general("SetSubtitleStreamIndex", Some(ArgValue::Num(2))));
    assert_eq!(effects.len(), 2);
    assert_eq!(effects[0], Effect::Player(MpvAction::SetSubtitleTrack(1)));
    assert_eq!(effects[1], Effect::SavePreferences);
    let pref = core.preferences.get("s1").unwrap();
    assert_eq!(pref.subtitle_language.as_deref(), Some("eng"));
    assert!(pref.is_subtitle_enabled);
    assert_eq!(pref.subtitle_title, None);

    let effects = core.on_play(episode_two(), pilot_source(), None, None, None, None, url_for_it1());
    let session = core.playback.as_ref().unwrap();
    assert_eq!(session.subtitle_stream_index, Some(2));
    match effects.last().unwrap() {
        Effect::Player(MpvAction::Play { subtitle_track, .. }) => {
            assert_eq!(*subtitle_track, Some(1));
        }
        other => panic!("expected play action, got {:?}", other),
    }
}

#[test]
fn audio_selection_by_string_index_persists_language() {
    let mut core = fresh_core();
    core.on_play(pilot(), pilot_source(), None, None, None, Some(0), url_for_it1());
    let effects = core.on_general_command(&general(
        "SetAudioStreamIndex",
        Some(ArgValue::Text(String::from("1"))),
    ));
    assert_eq!(effects.len(), 2);
    assert_eq!(effects[0], Effect::Player(MpvAction::SetAudioTrack(1)));
    assert_eq!(effects[1], Effect::SavePreferences);
    let pref = core.preferences.get("s1").unwrap();
    assert_eq!(pref.audio_language.as_deref(), Some("eng"));
    assert_eq!(core.playback.as_ref().unwrap().audio_stream_index, Some(1));
}

#[test]
fn disabling_subtitles_is_remembered_as_minus_one() {
    let mut core = fresh_core();
    core.on_play(pilot(), pilot_source(), None, None, None, Some(0), url_for_it1());
    let effects = core.on_general_command(&general("SetSubtitleStreamIndex", Some(ArgValue::Num(-1))));
    assert_eq!(effects[0], Effect::Player(MpvAction::SetSubtitleTrack(-1)));
    let pref = core.preferences.get("s1").unwrap();
    assert!(!pref.is_subtitle_enabled);
    assert_eq!(pref.subtitle_language, None);

    let _ = core.on_play(episode_two(), pilot_source(), None, None, None, None, url_for_it1());
    assert_eq!(core.playback.as_ref().unwrap().subtitle_stream_index, Some(-1));
}

#[test]
fn set_volume_updates_session_and_player() {
    let mut core = fresh_core();
    core.on_play(pilot(), pilot_source(), None, None, None, Some(0), url_for_it1());
    let cmd = GeneralCommand {
        name: String::from("SetVolume"),
        arguments: Some(CommandArgs { volume: Some(ArgValue::Num(80)), index: None }),
    };
    let effects = core.on_general_command(&cmd);
    assert_eq!(effects, vec![Effect::Player(MpvAction::SetVolume(80))]);
    assert_eq!(core.playback.as_ref().unwrap().volume, 80);
    let toggles = core.on_general_command(&GeneralCommand {
        name: String::from("ToggleMute"),
        arguments: None,
    });
    assert_eq!(toggles, vec![Effect::Player(MpvAction::ToggleMute)]);
}

#[test]
fn end_of_file_reports_stop_and_asks_for_the_next_episode() {
    let mut core = fresh_core();
    core.on_play(pilot(), pilot_source(), None, None, None, Some(0), url_for_it1());
    let event = MpvEvent {
        event: String::from("end-file"),
        id: None,
        name: None,
        data: None,
        reason: Some(String::from("eof")),
        args: None,
    };
    let effects = core.on_player_event(&event, 0, 5000);
    assert_eq!(effects.len(), 2);
    assert!(matches!(&effects[0], Effect::ReportStopped(i) if i.item_id == "it1"));
    assert!(matches!(&effects[1], Effect::FetchAdjacent { next: true, item } if item.id == "it1"));
    assert!(core.playback.is_none());

    let stopped = MpvEvent {
        event: String::from("end-file"),
        id: None,
        name: None,
        data: None,
        reason: Some(String::from("stop")),
        args: None,
    };
    assert!(core.on_player_event(&stopped, 0, 5000).is_empty());
}

#[test]
fn remapped_keys_advance_within_the_series() {
    let mut core = fresh_core();
    core.on_play(pilot(), pilot_source(), None, None, None, Some(0), url_for_it1());
    let event = MpvEvent {
        event: String::from("client-message"),
        id: None,
        name: None,
        data: None,
        reason: None,
        args: Some(vec![String::from("jmsr-prev")]),
    };
    let effects = core.on_player_event(&event, 0, 5000);
    assert!(matches!(
        effects.last().unwrap(),
        Effect::FetchAdjacent { next: false, item } if item.id == "it1"
    ));
}

#[test]
fn time_pos_reports_are_throttled() {
    let mut core = fresh_core();
    core.on_play(pilot(), pilot_source(), None, None, None, Some(0), url_for_it1());
    let tick = |millis: i64| MpvEvent {
        event: String::from("property-change"),
        id: Some(4),
        name: Some(String::from("time-pos")),
        data: Some(PropertyData::Millis(millis)),
        reason: None,
        args: None,
    };
    let early = core.on_player_event(&tick(1000), 1200, 5000);
    assert!(early.is_empty());
    assert_eq!(core.playback.as_ref().unwrap().position_ticks, 10_000_000);
    let due = core.on_player_event(&tick(2000), 5000, 5000);
    assert_eq!(due.len(), 1);
    assert!(matches!(&due[0], Effect::ReportProgress(p) if p.position_ticks == Some(20_000_000)));
}

#[test]
fn transport_loss_reports_stop_before_clearing_context() {
    let mut core = fresh_core();
    core.on_play(pilot(), pilot_source(), None, None, None, Some(0), url_for_it1());
    core.on_playstate(&playstate("Seek", Some(90_000_000)), None);
    let effects = core.clear_playback_context();
    assert_eq!(effects.len(), 1);
    match &effects[0] {
        Effect::ReportStopped(i) => {
            assert_eq!(i.item_id, "it1");
            assert_eq!(i.position_ticks, Some(90_000_000));
        }
        other => panic!("expected a stop report, got {:?}", other),
    }
    assert!(core.playback.is_none());
    assert!(core.current_item.is_none());
    assert!(core.current_series_id.is_none());
    assert!(core.on_playstate(&playstate("NextTrack", None), None).is_empty());
}

#[test]
fn next_track_takes_the_session_and_requests_the_lookup() {
    let mut core = fresh_core();
    core.on_play(pilot(), pilot_source(), None, None, None, Some(0), url_for_it1());
    let effects = core.on_playstate(&playstate("NextTrack", None), None);
    assert_eq!(effects.len(), 2);
    assert!(matches!(&effects[0], Effect::ReportStopped(_)));
    assert!(matches!(&effects[1], Effect::FetchAdjacent { next: true, .. }));
    assert!(core.playback.is_none());
    core.on_adjacent_missing();
    assert!(core.current_item.is_none());
}

#[test]
fn preferences_survive_a_restart_of_the_core() {
    let mut core = fresh_core();
    core.on_play(pilot(), pilot_source(), None, None, None, Some(0), url_for_it1());
    core.on_general_command(&general("SetAudioStreamIndex", Some(ArgValue::Num(1))));
    let persisted = core.preferences.entries.clone();

    let mut restarted = SessionCore::new(PrefStore::from_entries(persisted));
    restarted.on_play(episode_two(), pilot_source(), None, None, None, None, url_for_it1());
    let session = restarted.playback.as_ref().unwrap();
    assert_eq!(session.audio_stream_index, Some(1));
}

#[test]
fn play_method_follows_the_source_capabilities() {
    let method_of = |direct_play: bool, direct_stream: bool| {
        let mut core = fresh_core();
        let mut src = pilot_source();
        src.supports_direct_play = direct_play;
        src.supports_direct_stream = direct_stream;
        let effects = core.on_play(pilot(), src, None, None, None, Some(0), url_for_it1());
        match &effects[0] {
            Effect::ReportStart(si) => si.play_method.clone(),
            other => panic!("expected start report, got {:?}", other),
        }
    };
    assert_eq!(method_of(true, false), "DirectPlay");
    assert_eq!(method_of(false, true), "DirectStream");
    assert_eq!(method_of(false, false), "Transcode");
}

#[test]
fn explicit_request_indices_override_preferences() {
    let mut core = fresh_core();
    core.on_play(pilot(), pilot_source(), None, None, None, Some(0), url_for_it1());
    core.on_general_command(&general("SetSubtitleStreamIndex", Some(ArgValue::Num(-1))));
    let _ = core.on_play(episode_two(), pilot_source(), None, None, Some(2), None, url_for_it1());
    assert_eq!(core.playback.as_ref().unwrap().subtitle_stream_index, Some(2));
}

#[test]
fn movie_titles_are_the_plain_name() {
    let mut movie = pilot();
    movie.item_type = String::from("Movie");
    movie.name = String::from("Some Film");
    movie.series_id = None;
    let mut core = fresh_core();
    let effects = core.on_play(movie, pilot_source(), None, None, None, Some(0), url_for_it1());
    match effects.last().unwrap() {
        Effect::Player(MpvAction::Play { title, .. }) => assert_eq!(title, "Some Film"),
        other => panic!("expected play action, got {:?}", other),
    }
    assert!(core.current_series_id.is_none());
}

#[test]
fn episode_titles_pad_to_two_digits_and_grow_past_them() {
    let mut item = pilot();
    item.parent_index_number = Some(10);
    item.index_number = Some(100);
    let mut core = fresh_core();
    let effects = core.on_play(item, pilot_source(), None, None, None, Some(0), url_for_it1());
    match effects.last().unwrap() {
        Effect::Player(MpvAction::Play { title, .. }) => {
            assert_eq!(title, "Show - S10E100 - Pilot");
        }
        other => panic!("expected play action, got {:?}", other),
    }

    let mut nameless = pilot();
    nameless.series_name = None;
    nameless.parent_index_number = None;
    nameless.index_number = None;
    let mut core = fresh_core();
    let effects = core.on_play(nameless, pilot_source(), None, None, None, Some(0), url_for_it1());
    match effects.last().unwrap() {
        Effect::Player(MpvAction::Play { title, .. }) => {
            assert_eq!(title, "Unknown - S01E01 - Pilot");
        }
        other => panic!("expected play action, got {:?}", other),
    }
}

#[test]
fn unknown_commands_do_nothing() {
    let mut core = fresh_core();
    assert!(core.on_playstate(&playstate("Rewind", None), None).is_empty());
    assert!(core.on_general_command(&general("DisplayContent", None)).is_empty());
    assert!(core
        .on_general_command(&general("SetAudioStreamIndex", Some(ArgValue::Text(String::from("x")))))
        .is_empty());
}
