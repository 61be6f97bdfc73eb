//! Data model: server objects, wire payloads, and the playback session.
//!
//! Every type here is plain data. The surrounding process decodes the
//! server's JSON into these shapes and encodes them back out; the logic in
//! this crate only ever sees these fields.

use vstd::prelude::*;

verus! {

/// Authentication response from the server.
#[derive(Debug, Clone, PartialEq)]
pub struct AuthResponse {
    pub user: User,
    pub access_token: String,
    pub server_id: String,
}

/// Server user information.
#[derive(Debug, Clone, PartialEq)]
pub struct User {
    pub id: String,
    pub name: String,
}

/// Public server information.
#[derive(Debug, Clone, PartialEq)]
pub struct ServerInfo {
    pub server_name: String,
    pub version: String,
    pub id: String,
}

/// Connection state as shown to the user interface.
#[derive(Debug, Clone, PartialEq)]
pub struct ConnectionState {
    pub connected: bool,
    pub server_url: Option<String>,
    pub server_name: Option<String>,
    pub user_name: Option<String>,
}

/// Credentials for authentication.
#[derive(Debug, Clone, PartialEq)]
pub struct Credentials {
    pub server_url: String,
    pub username: String,
    pub password: String,
}

/// Play command received from the server.
#[derive(Debug, Clone, PartialEq)]
pub struct PlayRequest {
    pub item_ids: Vec<String>,
    pub start_position_ticks: Option<i64>,
    pub play_command: String,
    pub media_source_id: Option<String>,
    pub audio_stream_index: Option<i32>,
    pub subtitle_stream_index: Option<i32>,
}

/// Playstate command received from the server.
#[derive(Debug, Clone, PartialEq)]
pub struct PlaystateRequest {
    pub command: String,
    pub seek_position_ticks: Option<i64>,
}

/// An argument of a general command; the server sends some of them as
/// numbers and some as strings, depending on the client that issued them.
#[derive(Debug, Clone, PartialEq)]
pub enum ArgValue {
    Num(i64),
    Text(String),
}

/// The arguments this client reads from a general command.
#[derive(Debug, Clone, PartialEq)]
pub struct CommandArgs {
    pub volume: Option<ArgValue>,
    pub index: Option<ArgValue>,
}

/// General command received from the server.
#[derive(Debug, Clone, PartialEq)]
pub struct GeneralCommand {
    pub name: String,
    pub arguments: Option<CommandArgs>,
}

/// A media item: movie, episode, and so on.
#[derive(Debug, Clone, PartialEq)]
pub struct MediaItem {
    pub id: String,
    pub name: String,
    pub item_type: String,
    pub series_id: Option<String>,
    pub series_name: Option<String>,
    pub season_name: Option<String>,
    pub index_number: Option<i32>,
    pub parent_index_number: Option<i32>,
    pub run_time_ticks: Option<i64>,
    pub overview: Option<String>,
}

/// One decodable rendition of a media item.
#[derive(Debug, Clone, PartialEq)]
pub struct MediaSource {
    pub id: String,
    pub path: Option<String>,
    pub protocol: String,
    pub container: Option<String>,
    pub run_time_ticks: Option<i64>,
    pub media_streams: Vec<MediaStream>,
    pub supports_direct_play: bool,
    pub supports_direct_stream: bool,
    pub supports_transcoding: bool,
}

/// One track of a media source. `index` is absolute across all streams of
/// the source; the player numbers tracks within each type instead.
#[derive(Debug, Clone, PartialEq)]
pub struct MediaStream {
    pub index: i32,
    pub stream_type: String,
    pub codec: Option<String>,
    pub language: Option<String>,
    pub display_title: Option<String>,
    pub is_default: bool,
    pub is_external: bool,
}

/// Request body for the playback-info endpoint.
#[derive(Debug, Clone, PartialEq)]
pub struct PlaybackInfoRequest {
    pub user_id: String,
    pub device_id: String,
    pub max_streaming_bitrate: Option<i64>,
    pub start_time_ticks: Option<i64>,
    pub audio_stream_index: Option<i32>,
    pub subtitle_stream_index: Option<i32>,
    pub enable_direct_play: bool,
    pub enable_direct_stream: bool,
    pub enable_transcoding: bool,
    pub auto_open_live_stream: bool,
}

/// Response of the playback-info endpoint.
#[derive(Debug, Clone, PartialEq)]
pub struct PlaybackInfoResponse {
    pub media_sources: Vec<MediaSource>,
    pub play_session_id: Option<String>,
}

/// Report sent when playback starts.
#[derive(Debug, Clone, PartialEq)]
pub struct PlaybackStartInfo {
    pub item_id: String,
    pub media_source_id: Option<String>,
    pub play_session_id: Option<String>,
    pub position_ticks: Option<i64>,
    pub is_paused: bool,
    pub is_muted: bool,
    pub volume_level: i32,
    pub audio_stream_index: Option<i32>,
    pub subtitle_stream_index: Option<i32>,
    pub play_method: String,
    pub can_seek: bool,
}

/// Report sent while playback runs.
#[derive(Debug, Clone, PartialEq)]
pub struct PlaybackProgressInfo {
    pub item_id: String,
    pub media_source_id: Option<String>,
    pub play_session_id: Option<String>,
    pub position_ticks: Option<i64>,
    pub is_paused: bool,
    pub is_muted: bool,
    pub volume_level: i32,
    pub audio_stream_index: Option<i32>,
    pub subtitle_stream_index: Option<i32>,
    pub play_method: String,
    pub can_seek: bool,
}

/// Report sent when playback ends.
#[derive(Debug, Clone, PartialEq)]
pub struct PlaybackStopInfo {
    pub item_id: String,
    pub media_source_id: Option<String>,
    pub play_session_id: Option<String>,
    pub position_ticks: Option<i64>,
}

/// The in-memory record of what this client currently plays.
/// At most one exists at a time.
#[derive(Debug, Clone, PartialEq)]
pub struct PlaybackSession {
    pub item_id: String,
    pub media_source_id: Option<String>,
    pub play_session_id: Option<String>,
    pub position_ticks: i64,
    pub is_paused: bool,
    pub is_muted: bool,
    pub volume: i32,
    pub audio_stream_index: Option<i32>,
    pub subtitle_stream_index: Option<i32>,
}

/// Session data persisted across restarts.
#[derive(Debug, Clone, PartialEq)]
pub struct SavedSession {
    pub server_url: String,
    pub access_token: String,
    pub user_id: String,
    pub user_name: String,
    pub server_name: Option<String>,
    pub device_id: Option<String>,
}

/// Preferred audio and subtitle tracks for one series.
#[derive(Debug, Clone, PartialEq)]
pub struct TrackPreference {
    pub audio_language: Option<String>,
    pub audio_title: Option<String>,
    pub subtitle_language: Option<String>,
    pub subtitle_title: Option<String>,
    pub is_subtitle_enabled: bool,
}

impl TrackPreference {
    /// A preference that prefers nothing and leaves subtitles off.
    pub fn empty() -> (r: TrackPreference)
        ensures
            r.audio_language is None,
            r.audio_title is None,
            r.subtitle_language is None,
            r.subtitle_title is None,
            !r.is_subtitle_enabled,
    {
        TrackPreference {
            audio_language: None,
            audio_title: None,
            subtitle_language: None,
            subtitle_title: None,
            is_subtitle_enabled: false,
        }
    }
}

/// Response of the episodes endpoint.
#[derive(Debug, Clone, PartialEq)]
pub struct EpisodesResponse {
    pub items: Vec<MediaItem>,
    pub total_record_count: i32,
}

/// Copy an optional string field; the copy holds the same characters.
pub fn clone_opt_string(s: &Option<String>) -> (r: Option<String>)
    ensures
        r == *s,
{
    match s {
        Some(v) => Some(v.clone()),
        None => None,
    }
}

impl MediaStream {
    /// A field-for-field copy.
    pub fn duplicate(&self) -> (r: MediaStream)
        ensures
            r == *self,
    {
        MediaStream {
            index: self.index,
            stream_type: self.stream_type.clone(),
            codec: clone_opt_string(&self.codec),
            language: clone_opt_string(&self.language),
            display_title: clone_opt_string(&self.display_title),
            is_default: self.is_default,
            is_external: self.is_external,
        }
    }
}

impl MediaItem {
    /// A field-for-field copy.
    pub fn duplicate(&self) -> (r: MediaItem)
        ensures
            r == *self,
    {
        MediaItem {
            id: self.id.clone(),
            name: self.name.clone(),
            item_type: self.item_type.clone(),
            series_id: clone_opt_string(&self.series_id),
            series_name: clone_opt_string(&self.series_name),
            season_name: clone_opt_string(&self.season_name),
            index_number: self.index_number,
            parent_index_number: self.parent_index_number,
            run_time_ticks: self.run_time_ticks,
            overview: clone_opt_string(&self.overview),
        }
    }
}

impl TrackPreference {
    /// A field-for-field copy.
    pub fn duplicate(&self) -> (r: TrackPreference)
        ensures
            r == *self,
    {
        TrackPreference {
            audio_language: clone_opt_string(&self.audio_language),
            audio_title: clone_opt_string(&self.audio_title),
            subtitle_language: clone_opt_string(&self.subtitle_language),
            subtitle_title: clone_opt_string(&self.subtitle_title),
            is_subtitle_enabled: self.is_subtitle_enabled,
        }
    }
}

impl PlaybackSession {
    /// A field-for-field copy.
    pub fn duplicate(&self) -> (r: PlaybackSession)
        ensures
            r == *self,
    {
        PlaybackSession {
            item_id: self.item_id.clone(),
            media_source_id: clone_opt_string(&self.media_source_id),
            play_session_id: clone_opt_string(&self.play_session_id),
            position_ticks: self.position_ticks,
            is_paused: self.is_paused,
            is_muted: self.is_muted,
            volume: self.volume,
            audio_stream_index: self.audio_stream_index,
            subtitle_stream_index: self.subtitle_stream_index,
        }
    }
}

/// Copy a list of streams; the copy holds the same streams in order.
pub fn duplicate_streams(streams: &Vec<MediaStream>) -> (r: Vec<MediaStream>)
    ensures
        r@ == streams@,
{
    let mut out: Vec<MediaStream> = Vec::new();
    let mut i: usize = 0;
    while i < streams.len()
        invariant
            0 <= i <= streams@.len(),
            out@ == streams@.subrange(0, i as int),
        decreases streams@.len() - i,
    {
        out.push(streams[i].duplicate());
        proof {
            assert(out@ =~= streams@.subrange(0, i + 1));
        }
        i += 1;
    }
    proof {
        assert(out@ =~= streams@);
    }
    out
}

} // verus!
