use jmsr_core::ipc_core::{next_request_id, RequestIdCounter};
use jmsr_core::protocol::{loadfile_options, MpvCommand, MpvResponse, PropertyData};

#[test]
fn test_command_serialization() {
    let cmd = MpvCommand::loadfile("http://example.com/video.mp4", 1);
    let json = cmd.to_json_line();
    assert!(json.contains("loadfile"));
    assert!(json.contains("http://example.com/video.mp4"));
}

#[test]
fn set_pause_line_is_exact() {
    let cmd = MpvCommand::set_pause(true, 7);
    assert_eq!(
        cmd.to_json_line(),
        "{\"command\":[\"set_property\",\"pause\",true],\"request_id\":7}"
    );
}

#[test]
fn loadfile_line_is_exact() {
    let cmd = MpvCommand::loadfile("http://s.example/v.mkv", 12);
    assert_eq!(
        cmd.to_json_line(),
        "{\"command\":[\"loadfile\",\"http://s.example/v.mkv\"],\"request_id\":12}"
    );
}

#[test]
fn seek_renders_millis_as_seconds() {
    let cmd = MpvCommand::seek(90_500, 3);
    assert_eq!(
        cmd.to_json_line(),
        "{\"command\":[\"seek\",90.500,\"absolute\"],\"request_id\":3}"
    );
}

#[test]
fn title_with_quotes_is_escaped() {
    let cmd = MpvCommand::set_property_string("force-media-title", "a \"b\" \\ c\nd", 9);
    assert_eq!(
        cmd.to_json_line(),
        "{\"command\":[\"set_property\",\"force-media-title\",\"a \\\"b\\\" \\\\ c\\nd\"],\"request_id\":9}"
    );
}

#[test]
fn control_characters_use_unicode_escapes() {
    let cmd = MpvCommand::set_property_string("x", "\u{1}\u{1f}", 2);
    assert_eq!(
        cmd.to_json_line(),
        "{\"command\":[\"set_property\",\"x\",\"\\u0001\\u001f\"],\"request_id\":2}"
    );
}

#[test]
fn volume_and_tracks_render_as_integers() {
    assert_eq!(
        MpvCommand::set_volume(80, 4).to_json_line(),
        "{\"command\":[\"set_property\",\"volume\",80],\"request_id\":4}"
    );
    assert_eq!(
        MpvCommand::set_audio_track(2, 5).to_json_line(),
        "{\"command\":[\"set_property\",\"aid\",2],\"request_id\":5}"
    );
    assert_eq!(
        MpvCommand::set_subtitle_track(3, 6).to_json_line(),
        "{\"command\":[\"set_property\",\"sid\",3],\"request_id\":6}"
    );
    assert_eq!(
        MpvCommand::disable_track("sid", 8).to_json_line(),
        "{\"command\":[\"set_property\",\"sid\",\"no\"],\"request_id\":8}"
    );
}

#[test]
fn observe_get_quit_cycle_lines() {
    assert_eq!(
        MpvCommand::observe_property(4, "time-pos", 10).to_json_line(),
        "{\"command\":[\"observe_property\",4,\"time-pos\"],\"request_id\":10}"
    );
    assert_eq!(
        MpvCommand::unobserve_property(4, 13).to_json_line(),
        "{\"command\":[\"unobserve_property\",4],\"request_id\":13}"
    );
    assert_eq!(
        MpvCommand::get_property("pause", 11).to_json_line(),
        "{\"command\":[\"get_property\",\"pause\"],\"request_id\":11}"
    );
    assert_eq!(
        MpvCommand::quit(14).to_json_line(),
        "{\"command\":[\"quit\"],\"request_id\":14}"
    );
    assert_eq!(
        MpvCommand::cycle("mute", 15).to_json_line(),
        "{\"command\":[\"cycle\",\"mute\"],\"request_id\":15}"
    );
}

#[test]
fn loadfile_options_joins_parts() {
    assert_eq!(
        loadfile_options(Some(12_345), Some(2), Some(-1)),
        "start=12.345,aid=2,sid=no"
    );
    assert_eq!(loadfile_options(None, None, None), "");
    assert_eq!(loadfile_options(Some(0), None, Some(3)), "sid=3");
    assert_eq!(loadfile_options(Some(500), None, None), "start=0.500");
    assert_eq!(loadfile_options(None, Some(1), None), "aid=1");
}

#[test]
fn loadfile_with_options_line() {
    let cmd = MpvCommand::loadfile_with_options("http://u", "start=1.000,aid=2", 21);
    assert_eq!(
        cmd.to_json_line(),
        "{\"command\":[\"loadfile\",\"http://u\",\"replace\",\"start=1.000,aid=2\"],\"request_id\":21}"
    );
}

#[test]
fn response_success_is_by_error_field() {
    let ok = MpvResponse { error: String::from("success"), data: None, request_id: 1 };
    assert!(ok.is_success());
    let failed = MpvResponse {
        error: String::from("property not found"),
        data: Some(PropertyData::Null),
        request_id: 2,
    };
    assert!(!failed.is_success());
}

#[test]
fn request_ids_count_up_from_one() {
    let mut counter = RequestIdCounter::new();
    assert_eq!(next_request_id(&mut counter), 1);
    assert_eq!(next_request_id(&mut counter), 2);
    assert_eq!(next_request_id(&mut counter), 3);
}
