use jmsr_core::config::AppConfig;
use jmsr_core::errors::{
    AppNotification, CommandError, CommandErrorCode, IpcError, JellyfinError, MpvError,
    NotificationLevel, ProcessError,
};
use jmsr_core::guards::{validate_load_url, validate_seek_millis, validate_volume};
use jmsr_core::ipc_core::IpcCore;
use jmsr_core::process::{input_conf_contents, ipc_path, mpv_spawn_args};
use jmsr_core::text::{i64_to_string, i64_to_string_pad2, parse_i64, u64_to_string};

#[test]
fn pending_sends_resolve_or_drain_but_never_linger() {
    let mut core = IpcCore::new();
    assert!(!core.is_closed());
    assert!(core.register_send(1));
    assert!(core.register_send(2));
    assert!(core.register_send(3));
    assert!(core.resolve(2));
    assert!(!core.resolve(2));
    let drained = core.close();
    assert_eq!(drained, vec![1, 3]);
    assert_eq!(core.pending.len(), 0);
    assert!(core.is_closed());
}

#[test]
fn send_on_a_closed_connection_is_refused_at_once() {
    let mut core = IpcCore::new();
    core.close();
    assert!(!core.register_send(7));
    assert_eq!(core.pending.len(), 0);
}

#[test]
fn timeouts_remove_their_pending_entry() {
    let mut core = IpcCore::new();
    assert!(core.register_send(5));
    assert!(core.resolve(5));
    assert_eq!(core.pending.len(), 0);
    let drained = core.close();
    assert!(drained.is_empty());
}

#[test]
fn default_config_is_valid() {
    let config = AppConfig::default();
    assert!(config.validate().is_ok());
    assert_eq!(config.device_name, "JMSR");
    assert_eq!(config.progress_interval, 5);
    assert_eq!(config.keybind_next, "Shift+n");
    assert_eq!(config.keybind_prev, "Shift+p");
    assert!(!config.start_minimized);
}

#[test]
fn each_validation_rule_names_itself() {
    let mut config = AppConfig::default();
    config.device_name = String::from("   ");
    assert_eq!(config.validate().unwrap_err(), "Device name cannot be empty");
    config.device_name = String::from("JMSR");
    config.progress_interval = 0;
    assert_eq!(
        config.validate().unwrap_err(),
        "Progress interval must be between 1 and 60 seconds"
    );
    config.progress_interval = 61;
    assert!(config.validate().is_err());
    config.progress_interval = 60;
    config.keybind_next = String::new();
    assert_eq!(config.validate().unwrap_err(), "Next episode keybinding cannot be empty");
    config.keybind_next = String::from("n");
    config.keybind_prev = String::from("\t");
    assert_eq!(
        config.validate().unwrap_err(),
        "Previous episode keybinding cannot be empty"
    );
    config.keybind_prev = String::from("p");
    assert!(config.validate().is_ok());
}

#[test]
fn guards_accept_exactly_the_allowed_inputs() {
    assert!(validate_load_url("http://x").is_ok());
    assert!(validate_load_url("https://x").is_ok());
    let err = validate_load_url("file:///etc/passwd").unwrap_err();
    assert!(matches!(err.code, CommandErrorCode::InvalidInput));
    assert_eq!(err.message, "Only http:// and https:// URLs are allowed");
    assert!(validate_seek_millis(0).is_ok());
    assert_eq!(
        validate_seek_millis(-1).unwrap_err().message,
        "Seek time cannot be negative"
    );
    assert!(validate_volume(0).is_ok());
    assert!(validate_volume(100).is_ok());
    assert_eq!(
        validate_volume(101).unwrap_err().message,
        "Volume must be between 0 and 100"
    );
}

#[test]
fn command_errors_carry_their_code() {
    assert!(matches!(
        CommandError::not_connected(String::from("x")).code,
        CommandErrorCode::NotConnected
    ));
    assert!(matches!(
        CommandError::not_found(String::from("x")).code,
        CommandErrorCode::NotFound
    ));
    assert!(matches!(
        CommandError::network(String::from("x")).code,
        CommandErrorCode::Network
    ));
    assert!(matches!(
        CommandError::auth_failed(String::from("x")).code,
        CommandErrorCode::AuthFailed
    ));
    assert!(matches!(
        CommandError::internal(String::from("boom")).code,
        CommandErrorCode::Internal
    ));
    let n = AppNotification::warning(String::from("careful"));
    assert!(matches!(n.level, NotificationLevel::Warning));
    assert_eq!(n.message, "careful");
    let e: JellyfinError = JellyfinError::NotConnected;
    assert_eq!(e, JellyfinError::NotConnected);
    assert_ne!(
        MpvError::Process(ProcessError::NotFound),
        MpvError::Ipc(IpcError::Timeout)
    );
}

#[test]
fn spawn_inputs_are_fixed() {
    assert_eq!(ipc_path(), "/tmp/jmsr-mpv.sock");
    assert_eq!(
        input_conf_contents("Shift+n", "Shift+p"),
        "Shift+n script-message jmsr-next\nShift+p script-message jmsr-prev\n"
    );
    let extra = vec![String::from("--mute=yes")];
    let args = mpv_spawn_args("/tmp/jmsr-mpv.sock", Some("/home/u/input.conf"), &extra);
    assert_eq!(
        args,
        vec![
            String::from("--input-ipc-server=/tmp/jmsr-mpv.sock"),
            String::from("--idle"),
            String::from("--force-window"),
            String::from("--keep-open=no"),
            String::from("--no-terminal"),
            String::from("--input-conf=/home/u/input.conf"),
            String::from("--mute=yes"),
        ]
    );
    let bare = mpv_spawn_args("/tmp/jmsr-mpv.sock", None, &Vec::new());
    assert_eq!(bare.len(), 5);
}

#[test]
fn decimal_rendering_and_parsing() {
    assert_eq!(u64_to_string(0), "0");
    assert_eq!(u64_to_string(10_000_000), "10000000");
    assert_eq!(i64_to_string(-42), "-42");
    assert_eq!(i64_to_string_pad2(3), "03");
    assert_eq!(i64_to_string_pad2(12), "12");
    assert_eq!(i64_to_string_pad2(-1), "-1");
    assert_eq!(parse_i64("2"), Some(2));
    assert_eq!(parse_i64("-1"), Some(-1));
    assert_eq!(parse_i64("007"), Some(7));
    assert_eq!(parse_i64(""), None);
    assert_eq!(parse_i64("-"), None);
    assert_eq!(parse_i64("12x"), None);
    assert_eq!(parse_i64("999999999999999999"), Some(999_999_999_999_999_999));
}
