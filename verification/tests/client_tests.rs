use jmsr_core::client_core::{
    capabilities_payload, classify_ws_message, episode_series_id, episodes_query_path,
    find_our_session, keepalive_frame, make_playback_info_request, next_episode_from,
    normalize_server_url, previous_episode_in, redact_url, report_capabilities_frame,
    session_start_frame, ClientCore, SessionEntry, WsMessageKind,
};
use jmsr_core::errors::JellyfinError;
use jmsr_core::types::{AuthResponse, MediaItem, MediaSource, SavedSession, User};

fn media_item(id: &str, series: Option<&str>) -> MediaItem {
    MediaItem {
        id: String::from(id),
        name: String::from(id),
        item_type: String::from("Episode"),
        series_id: series.map(String::from),
        series_name: None,
        season_name: None,
        index_number: None,
        parent_index_number: None,
        run_time_ticks: None,
        overview: None,
    }
}

fn source(id: &str, container: Option<&str>) -> MediaSource {
    MediaSource {
        id: String::from(id),
        path: None,
        protocol: String::from("Http"),
        container: container.map(String::from),
        run_time_ticks: None,
        media_streams: Vec::new(),
        supports_direct_play: true,
        supports_direct_stream: false,
        supports_transcoding: false,
    }
}

fn connected_client() -> ClientCore {
    let mut client = ClientCore::new();
    let auth = AuthResponse {
        user: User { id: String::from("u1"), name: String::from("alice") },
        access_token: String::from("tok"),
        server_id: String::from("srv"),
    };
    client.apply_auth_success(String::from("https://s.example"), &auth);
    client
}

#[test]
fn fresh_client_has_prefixed_device_id() {
    let client = ClientCore::new();
    let id = client.device_id();
    assert_eq!(id.chars().count(), 41);
    assert!(id.starts_with("jmsr-"));
    assert!(!client.is_connected());
    assert_eq!(client.device_name, "JMSR");
}

#[test]
fn normalize_strips_slashes_and_demands_scheme() {
    assert_eq!(normalize_server_url("https://s.example//").unwrap(), "https://s.example");
    assert_eq!(normalize_server_url("http://s.example").unwrap(), "http://s.example");
    match normalize_server_url("ftp://s.example") {
        Err(JellyfinError::InvalidUrl(m)) => {
            assert_eq!(m, "URL must start with http:// or https://");
        }
        other => panic!("expected InvalidUrl, got {:?}", other),
    }
}

#[test]
fn auth_success_round_trips_through_saved_session() {
    let mut client = connected_client();
    client.set_device_name(String::from("Living Room"));
    let saved = client.get_saved_session().unwrap();
    assert_eq!(saved.server_url, "https://s.example");
    assert_eq!(saved.access_token, "tok");
    assert_eq!(saved.user_id, "u1");
    assert_eq!(saved.user_name, "alice");
    assert_eq!(saved.device_id.as_deref(), Some(client.device_id().as_str()));
    let state = client.connection_state();
    assert!(state.connected);
    assert_eq!(state.server_url.as_deref(), Some("https://s.example"));
}

#[test]
fn restore_with_bad_token_wipes_state() {
    let mut client = ClientCore::new();
    let saved = SavedSession {
        server_url: String::from("https://s.example"),
        access_token: String::from("bad"),
        user_id: String::from("u1"),
        user_name: String::from("alice"),
        server_name: None,
        device_id: Some(String::from("jmsr-TEST")),
    };
    client.apply_saved_session(&saved);
    assert!(client.is_connected());
    assert_eq!(client.device_id(), "jmsr-TEST");
    let err = client.restore_failed("HTTP 401");
    match err {
        JellyfinError::AuthFailed(m) => assert_eq!(m, "Session validation failed: HTTP 401"),
        other => panic!("expected AuthFailed, got {:?}", other),
    }
    assert!(!client.is_connected());
    assert!(!client.connection_state().connected);
    assert!(client.get_saved_session().is_none());
    assert_eq!(client.device_id(), "jmsr-TEST");
}

#[test]
fn stream_url_matches_the_wire_shape() {
    let client = connected_client();
    let url = client.build_stream_url("it1", &source("ms1", Some("mkv"))).unwrap();
    assert_eq!(
        url,
        "https://s.example/Videos/it1/stream.mkv?Static=true&MediaSourceId=ms1&api_key=tok"
    );
    let fallback = client.build_stream_url("it1", &source("ms1", None)).unwrap();
    assert!(fallback.contains("/stream.mkv?"));
    let empty = ClientCore::new();
    assert!(empty.build_stream_url("it1", &source("ms1", None)).is_none());
}

#[test]
fn websocket_url_swaps_scheme() {
    let mut client = connected_client();
    client.apply_saved_session(&SavedSession {
        server_url: String::from("https://s.example"),
        access_token: String::from("tok"),
        user_id: String::from("u1"),
        user_name: String::from("alice"),
        server_name: None,
        device_id: Some(String::from("jmsr-TEST")),
    });
    assert_eq!(
        client.websocket_url().unwrap(),
        "wss://s.example/socket?api_key=tok&deviceId=jmsr-TEST"
    );
    assert!(matches!(ClientCore::new().websocket_url(), Err(JellyfinError::NotConnected)));

    let mut plain = ClientCore::new();
    plain.apply_saved_session(&SavedSession {
        server_url: String::from("http://s.example:8096"),
        access_token: String::from("tok"),
        user_id: String::from("u1"),
        user_name: String::from("alice"),
        server_name: None,
        device_id: Some(String::from("jmsr-TEST")),
    });
    assert_eq!(
        plain.websocket_url().unwrap(),
        "ws://s.example:8096/socket?api_key=tok&deviceId=jmsr-TEST"
    );
}

#[test]
fn auth_header_carries_identity_and_token() {
    let mut client = ClientCore::new();
    client.apply_saved_session(&SavedSession {
        server_url: String::from("https://s.example"),
        access_token: String::from("tok"),
        user_id: String::from("u1"),
        user_name: String::from("alice"),
        server_name: None,
        device_id: Some(String::from("jmsr-TEST")),
    });
    let with_token = client.auth_header(Some("tok"));
    assert_eq!(
        with_token,
        "MediaBrowser Client=\"Jellyfin MPV Shim Rust\", Device=\"JMSR\", DeviceId=\"jmsr-TEST\", Version=\"0.1.0\", Token=\"tok\""
    );
    let without = client.auth_header(None);
    assert!(!without.contains("Token"));
}

#[test]
fn redact_hides_the_api_key_value() {
    assert_eq!(
        redact_url("https://x/v?api_key=abc123&y=1"),
        "https://x/v?api_key=[REDACTED]&y=1"
    );
    assert_eq!(redact_url("https://x/v?api_key=tail"), "https://x/v?api_key=[REDACTED]");
    assert_eq!(redact_url("https://x/v?y=1"), "https://x/v?y=1");
}

#[test]
fn episode_paths_carry_the_query_fields() {
    assert_eq!(
        episodes_query_path("s1", "u1", Some("it1")),
        "/Shows/s1/Episodes?UserId=u1&StartItemId=it1&Limit=2&Fields=MediaSources,MediaStreams"
    );
    assert_eq!(
        episodes_query_path("s1", "u1", None),
        "/Shows/s1/Episodes?UserId=u1&Fields=MediaSources,MediaStreams"
    );
}

#[test]
fn adjacent_episode_selection() {
    let it1 = media_item("it1", Some("s1"));
    let it2 = media_item("it2", Some("s1"));
    let items = vec![it1.clone(), it2.clone()];
    assert_eq!(next_episode_from(&items).unwrap().id, "it2");
    assert!(next_episode_from(&vec![it1.clone()]).is_none());
    assert_eq!(previous_episode_in(&items, "it2").unwrap().id, "it1");
    assert!(previous_episode_in(&items, "it1").is_none());
    assert!(previous_episode_in(&items, "zzz").is_none());
}

#[test]
fn episode_series_lookup_requires_episode_and_series() {
    assert_eq!(episode_series_id(&media_item("it1", Some("s1"))).as_deref(), Some("s1"));
    assert!(episode_series_id(&media_item("it1", None)).is_none());
    let mut movie = media_item("m1", Some("s1"));
    movie.item_type = String::from("Movie");
    assert!(episode_series_id(&movie).is_none());
}

#[test]
fn session_validation_reads_the_first_matching_entry() {
    let entry = |id: &str, control: bool| SessionEntry {
        device_id: String::from(id),
        supports_media_control: control,
    };
    let sessions = vec![entry("other", true), entry("jmsr-TEST", true)];
    assert!(find_our_session(&sessions, "jmsr-TEST").is_ok());
    let no_control = vec![entry("jmsr-TEST", false)];
    assert!(matches!(
        find_our_session(&no_control, "jmsr-TEST"),
        Err(JellyfinError::SessionNotFound)
    ));
    let absent = vec![entry("other", true)];
    assert!(matches!(
        find_our_session(&absent, "jmsr-TEST"),
        Err(JellyfinError::SessionNotFound)
    ));
}

#[test]
fn playback_info_request_carries_the_fixed_fields() {
    let req = make_playback_info_request(String::from("u1"), String::from("d1"), Some(1), None);
    assert_eq!(req.max_streaming_bitrate, Some(140_000_000));
    assert!(req.enable_direct_play && req.enable_direct_stream && req.enable_transcoding);
    assert!(req.auto_open_live_stream);
    assert_eq!(req.audio_stream_index, Some(1));
    assert_eq!(req.subtitle_stream_index, None);
}

#[test]
fn ws_frames_are_exact() {
    assert_eq!(
        session_start_frame(),
        "{\"MessageType\":\"SessionsStart\",\"Data\":\"1000,1000\"}"
    );
    assert_eq!(keepalive_frame(), "{\"MessageType\":\"KeepAlive\"}");
    assert_eq!(
        report_capabilities_frame("{\"X\":1}"),
        "{\"MessageType\":\"ReportCapabilities\",\"Data\":{\"X\":1}}"
    );
    let caps = capabilities_payload();
    assert!(caps.contains("\"SupportsMediaControl\":true"));
    assert!(caps.contains("SetSubtitleStreamIndex"));
}

#[test]
fn ws_messages_classify_by_type() {
    assert_eq!(classify_ws_message("Play"), WsMessageKind::Play);
    assert_eq!(classify_ws_message("Playstate"), WsMessageKind::Playstate);
    assert_eq!(classify_ws_message("GeneralCommand"), WsMessageKind::GeneralCommand);
    assert_eq!(classify_ws_message("KeepAlive"), WsMessageKind::KeepAlive);
    assert_eq!(classify_ws_message("ForceKeepAlive"), WsMessageKind::KeepAlive);
    assert_eq!(classify_ws_message("UserDataChanged"), WsMessageKind::Other);
}
