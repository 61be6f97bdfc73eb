//! Error taxonomies of the session core, and the notification values the
//! user interface shows for them.

use vstd::prelude::*;

verus! {

/// Severity of a notification shown to the user.
#[derive(Debug, Clone, Copy, PartialEq, Eq, Structural)]
pub enum NotificationLevel {
    Error,
    Warning,
    Info,
    Success,
}

/// A notification for the user interface.
#[derive(Debug, Clone, PartialEq)]
pub struct AppNotification {
    pub level: NotificationLevel,
    pub message: String,
}

impl AppNotification {
    /// An error notification with the given message.
    pub fn error(message: String) -> (r: AppNotification)
        ensures
            r.level == NotificationLevel::Error,
            r.message == message,
    {
        AppNotification { level: NotificationLevel::Error, message }
    }

    /// A warning notification with the given message.
    pub fn warning(message: String) -> (r: AppNotification)
        ensures
            r.level == NotificationLevel::Warning,
            r.message == message,
    {
        AppNotification { level: NotificationLevel::Warning, message }
    }

    /// An informational notification with the given message.
    pub fn info(message: String) -> (r: AppNotification)
        ensures
            r.level == NotificationLevel::Info,
            r.message == message,
    {
        AppNotification { level: NotificationLevel::Info, message }
    }

    /// A success notification with the given message.
    pub fn success(message: String) -> (r: AppNotification)
        ensures
            r.level == NotificationLevel::Success,
            r.message == message,
    {
        AppNotification { level: NotificationLevel::Success, message }
    }
}

/// Machine-readable kind of an error surfaced to the user interface.
#[derive(Debug, Clone, Copy, PartialEq, Eq, Structural)]
pub enum CommandErrorCode {
    /// The player or server connection the operation needs is not live.
    NotConnected,
    /// A resource is missing, such as the player executable.
    NotFound,
    /// The caller handed in an unacceptable value.
    InvalidInput,
    /// A network transport failed.
    Network,
    /// Authentication or session validation failed.
    AuthFailed,
    /// Any other internal failure.
    Internal,
}

/// An error surfaced to the user interface, tagged with its kind.
#[derive(Debug, Clone, PartialEq)]
pub struct CommandError {
    pub code: CommandErrorCode,
    pub message: String,
}

impl CommandError {
    /// An error of kind `NotConnected`.
    pub fn not_connected(message: String) -> (r: CommandError)
        ensures
            r.code == CommandErrorCode::NotConnected,
            r.message == message,
    {
        CommandError { code: CommandErrorCode::NotConnected, message }
    }

    /// An error of kind `NotFound`.
    pub fn not_found(message: String) -> (r: CommandError)
        ensures
            r.code == CommandErrorCode::NotFound,
            r.message == message,
    {
        CommandError { code: CommandErrorCode::NotFound, message }
    }

    /// An error of kind `InvalidInput`.
    pub fn invalid_input(message: String) -> (r: CommandError)
        ensures
            r.code == CommandErrorCode::InvalidInput,
            r.message == message,
    {
        CommandError { code: CommandErrorCode::InvalidInput, message }
    }

    /// An error of kind `Network`.
    pub fn network(message: String) -> (r: CommandError)
        ensures
            r.code == CommandErrorCode::Network,
            r.message == message,
    {
        CommandError { code: CommandErrorCode::Network, message }
    }

    /// An error of kind `AuthFailed`.
    pub fn auth_failed(message: String) -> (r: CommandError)
        ensures
            r.code == CommandErrorCode::AuthFailed,
            r.message == message,
    {
        CommandError { code: CommandErrorCode::AuthFailed, message }
    }

    /// An error of kind `Internal`.
    pub fn internal(message: String) -> (r: CommandError)
        ensures
            r.code == CommandErrorCode::Internal,
            r.message == message,
    {
        CommandError { code: CommandErrorCode::Internal, message }
    }
}

/// An internal error with the given message.
pub fn internal_err(message: String) -> (r: CommandError)
    ensures
        r.code == CommandErrorCode::Internal,
        r.message == message,
{
    CommandError::internal(message)
}

/// Errors of the server link. Transport failures carry the transport's own
/// message as text.
#[derive(Debug, Clone, PartialEq)]
pub enum JellyfinError {
    /// The HTTP transport failed.
    Http(String),
    /// The server answered with a failing HTTP status.
    HttpStatus(String),
    /// The WebSocket transport failed.
    WebSocket(String),
    /// A payload could not be encoded or decoded.
    Json(String),
    /// Authentication or session validation failed.
    AuthFailed(String),
    /// No server connection exists.
    NotConnected,
    /// The server URL is not acceptable.
    InvalidUrl(String),
    /// The server does not list this client's session.
    SessionNotFound,
}

/// Errors of the player process.
#[derive(Debug, Clone, PartialEq)]
pub enum ProcessError {
    /// The player executable was not found.
    NotFound,
    /// The player process could not be spawned.
    SpawnFailed(String),
}

/// Errors of the player's IPC connection.
#[derive(Debug, Clone, PartialEq)]
pub enum IpcError {
    /// The IPC endpoint could not be opened.
    ConnectionFailed(String),
    /// Writing to the endpoint failed.
    WriteFailed(String),
    /// No response arrived in time.
    Timeout,
    /// The connection is gone.
    Disconnected,
}

/// Errors of the player client.
#[derive(Debug, Clone, PartialEq)]
pub enum MpvError {
    /// Starting the player failed.
    Process(ProcessError),
    /// The IPC connection failed.
    Ipc(IpcError),
    /// The player refused the command with the given message.
    CommandFailed(String),
    /// No player connection exists.
    NotConnected,
}

} // verus!
