//! State and pure logic of the server link.
//!
//! The identity (device id, token), the connection tuple, and every string
//! the link puts on the wire — authorization header, stream URL, WebSocket
//! URL, query paths — are built here with exact contracts. The HTTP and
//! WebSocket transports live outside and hand back plain values.

use vstd::prelude::*;

use crate::errors::JellyfinError;
use crate::text::{find_char_from, find_sub, is_prefix_of, matches_at, starts_with, str_eq};
use crate::types::{
    AuthResponse, ConnectionState, MediaItem, MediaSource, PlaybackInfoRequest, SavedSession,
    ServerInfo,
};

verus! {

/// Relies on uuid's `Uuid::new_v4` and its hyphenated rendering: a version
/// 4 UUID always renders as 36 characters. Nothing else can be said of a
/// random value.
#[verifier::external_body]
fn random_uuid_string() -> (r: String)
    ensures
        r@.len() == 36,
{
    let id = uuid::Uuid::new_v4();
    format!("{}", id.hyphenated())
}

/// A fresh device id: the fixed prefix followed by a random UUID.
pub fn fresh_device_id() -> (r: String)
    ensures
        r@.len() == 41,
        is_prefix_of("jmsr-"@, r@),
{
    let mut s = String::from_str("jmsr-");
    proof {
        reveal_strlit("jmsr-");
    }
    s.append(random_uuid_string().as_str());
    proof {
        assert(s@.subrange(0, 5) =~= "jmsr-"@);
    }
    s
}

/// The server link's own state: where it is connected and as whom.
#[derive(Debug, Clone, PartialEq)]
pub struct ClientCore {
    pub server_url: Option<String>,
    pub access_token: Option<String>,
    pub user_id: Option<String>,
    pub user_name: Option<String>,
    pub server_name: Option<String>,
    pub device_id: String,
    pub device_name: String,
}

/// Trailing slashes removed.
pub open spec fn trim_trailing_slashes(s: Seq<char>) -> Seq<char>
    decreases s.len(),
{
    if s.len() > 0 && s.last() == '/' {
        trim_trailing_slashes(s.drop_last())
    } else {
        s
    }
}

/// Whether a URL carries one of the two accepted schemes.
pub open spec fn has_http_scheme(s: Seq<char>) -> bool {
    is_prefix_of("http://"@, s) || is_prefix_of("https://"@, s)
}

/// Normalize a server URL: strip trailing slashes and demand an `http://`
/// or `https://` scheme. Exactly the URLs without such a scheme are
/// rejected.
pub fn normalize_server_url(url: &str) -> (r: Result<String, JellyfinError>)
    ensures
        match r {
            Ok(u) => u@ == trim_trailing_slashes(url@) && has_http_scheme(trim_trailing_slashes(
                url@,
            )),
            Err(e) => !has_http_scheme(trim_trailing_slashes(url@)) && (e matches
                JellyfinError::InvalidUrl(m) && m@ == "URL must start with http:// or https://"@),
        },
{
    let len = url.unicode_len();
    proof {
        assert(url@.take(len as int) =~= url@);
    }
    let mut end: usize = len;
    while end > 0 && url.get_char(end - 1) == '/'
        invariant
            0 <= end <= len,
            len == url@.len(),
            trim_trailing_slashes(url@) == trim_trailing_slashes(url@.take(end as int)),
        decreases end,
    {
        proof {
            assert(url@.take(end as int).last() == url@[end - 1]);
            assert(url@.take(end as int).drop_last() =~= url@.take(end - 1));
        }
        end = end - 1;
    }
    proof {
        if end > 0 {
            assert(url@.take(end as int).last() == url@[end - 1]);
        }
        assert(trim_trailing_slashes(url@.take(end as int)) == url@.take(end as int));
    }
    let trimmed = url.substring_char(0, end);
    proof {
        assert(trimmed@ =~= url@.take(end as int));
    }
    if starts_with(trimmed, "http://") || starts_with(trimmed, "https://") {
        Ok(String::from_str(trimmed))
    } else {
        Err(
            JellyfinError::InvalidUrl(
                String::from_str("URL must start with http:// or https://"),
            ),
        )
    }
}

impl ClientCore {
    /// A fresh, unconnected link with a new device id and the default
    /// device name.
    pub fn new() -> (r: ClientCore)
        ensures
            r.server_url is None,
            r.access_token is None,
            r.user_id is None,
            r.user_name is None,
            r.server_name is None,
            r.device_id@.len() == 41,
            is_prefix_of("jmsr-"@, r.device_id@),
            r.device_name@ == "JMSR"@,
    {
        ClientCore {
            server_url: None,
            access_token: None,
            user_id: None,
            user_name: None,
            server_name: None,
            device_id: fresh_device_id(),
            device_name: String::from_str("JMSR"),
        }
    }

    /// Rename the device as shown in the server's cast menu.
    pub fn set_device_name(&mut self, name: String)
        ensures
            *final(self) == (ClientCore { device_name: name, ..*old(self) }),
    {
        self.device_name = name;
    }

    /// The device id.
    pub fn device_id(&self) -> (r: String)
        ensures
            r == self.device_id,
    {
        self.device_id.clone()
    }

    /// The authorization header value: client, device, device id and
    /// version, with the token appended when one is given.
    pub fn auth_header(&self, token: Option<&str>) -> (r: String)
        ensures
            r@ == auth_header_str(
                self.device_name@,
                self.device_id@,
                match token {
                    Some(t) => Some(t@),
                    None => None,
                },
            ),
    {
        let mut s = String::from_str("MediaBrowser Client=\"Jellyfin MPV Shim Rust\", Device=\"");
        proof {
            reveal_strlit("MediaBrowser Client=\"Jellyfin MPV Shim Rust\", Device=\"");
            reveal_strlit("\", DeviceId=\"");
            reveal_strlit("\", Version=\"0.1.0\"");
            reveal_strlit(", Token=\"");
            reveal_strlit("\"");
        }
        s.append(self.device_name.as_str());
        s.append("\", DeviceId=\"");
        s.append(self.device_id.as_str());
        s.append("\", Version=\"0.1.0\"");
        match token {
            Some(t) => {
                s.append(", Token=\"");
                s.append(t);
                s.append("\"");
            },
            None => {},
        }
        proof {
            assert(s@ =~= auth_header_str(
                self.device_name@,
                self.device_id@,
                match token {
                    Some(t) => Some(t@),
                    None => None,
                },
            ));
        }
        s
    }

    /// Record a successful authentication: connection tuple set, identity
    /// kept.
    pub fn apply_auth_success(&mut self, server_url: String, auth: &AuthResponse)
        ensures
            final(self).server_url == Some(server_url),
            final(self).access_token == Some(auth.access_token),
            final(self).user_id == Some(auth.user.id),
            final(self).user_name == Some(auth.user.name),
            final(self).server_name == old(self).server_name,
            final(self).device_id == old(self).device_id,
            final(self).device_name == old(self).device_name,
    {
        self.server_url = Some(server_url);
        self.access_token = Some(auth.access_token.clone());
        self.user_id = Some(auth.user.id.clone());
        self.user_name = Some(auth.user.name.clone());
    }

    /// Record the server's public name.
    pub fn apply_server_info(&mut self, info: &ServerInfo)
        ensures
            *final(self) == (ClientCore {
                server_name: Some(info.server_name),
                ..*old(self)
            }),
    {
        self.server_name = Some(info.server_name.clone());
    }

    /// Drop the connection tuple; the identity survives.
    pub fn disconnect(&mut self)
        ensures
            final(self).server_url is None,
            final(self).access_token is None,
            final(self).user_id is None,
            final(self).user_name is None,
            final(self).server_name is None,
            final(self).device_id == old(self).device_id,
            final(self).device_name == old(self).device_name,
    {
        self.server_url = None;
        self.access_token = None;
        self.user_id = None;
        self.user_name = None;
        self.server_name = None;
    }

    /// Install a saved session. The saved device id replaces the generated
    /// one when the session carries one; otherwise the generated id stays.
    pub fn apply_saved_session(&mut self, session: &SavedSession)
        ensures
            final(self).server_url == Some(session.server_url),
            final(self).access_token == Some(session.access_token),
            final(self).user_id == Some(session.user_id),
            final(self).user_name == Some(session.user_name),
            final(self).server_name == session.server_name,
            session.device_id matches Some(d) ==> final(self).device_id == d,
            session.device_id is None ==> final(self).device_id == old(self).device_id,
            final(self).device_name == old(self).device_name,
    {
        self.server_url = Some(session.server_url.clone());
        self.access_token = Some(session.access_token.clone());
        self.user_id = Some(session.user_id.clone());
        self.user_name = Some(session.user_name.clone());
        self.server_name = crate::types::clone_opt_string(&session.server_name);
        match &session.device_id {
            Some(d) => {
                self.device_id = d.clone();
            },
            None => {},
        }
    }

    /// Session validation failed while restoring: wipe the connection state
    /// so that a stale token cannot leave a zombie connection, and name the
    /// failure.
    pub fn restore_failed(&mut self, detail: &str) -> (e: JellyfinError)
        ensures
            final(self).server_url is None,
            final(self).access_token is None,
            final(self).user_id is None,
            final(self).user_name is None,
            final(self).server_name is None,
            final(self).device_id == old(self).device_id,
            final(self).device_name == old(self).device_name,
            e matches JellyfinError::AuthFailed(m) && m@ == "Session validation failed: "@
                + detail@,
    {
        self.disconnect();
        let mut m = String::from_str("Session validation failed: ");
        proof {
            reveal_strlit("Session validation failed: ");
        }
        m.append(detail);
        JellyfinError::AuthFailed(m)
    }

    /// The session to persist: present exactly when the connection tuple is
    /// complete, and always carrying the device id.
    pub fn get_saved_session(&self) -> (r: Option<SavedSession>)
        ensures
            match r {
                Some(s) => self.server_url == Some(s.server_url) && self.access_token == Some(
                    s.access_token,
                ) && self.user_id == Some(s.user_id) && self.user_name == Some(s.user_name)
                    && s.server_name == self.server_name && s.device_id == Some(self.device_id),
                None => self.server_url is None || self.access_token is None || self.user_id
                    is None || self.user_name is None,
            },
    {
        match (&self.server_url, &self.access_token, &self.user_id, &self.user_name) {
            (Some(server_url), Some(access_token), Some(user_id), Some(user_name)) => Some(
                SavedSession {
                    server_url: server_url.clone(),
                    access_token: access_token.clone(),
                    user_id: user_id.clone(),
                    user_name: user_name.clone(),
                    server_name: crate::types::clone_opt_string(&self.server_name),
                    device_id: Some(self.device_id.clone()),
                },
            ),
            _ => None,
        }
    }

    /// Whether the link counts as connected: exactly when a token is set.
    pub fn is_connected(&self) -> (r: bool)
        ensures
            r == (self.access_token is Some),
    {
        self.access_token.is_some()
    }

    /// The connection state shown to the user interface; `connected` holds
    /// exactly when a token is set, whatever the WebSocket is doing.
    pub fn connection_state(&self) -> (r: ConnectionState)
        ensures
            r.connected == (self.access_token is Some),
            r.server_url == self.server_url,
            r.server_name == self.server_name,
            r.user_name == self.user_name,
    {
        ConnectionState {
            connected: self.access_token.is_some(),
            server_url: crate::types::clone_opt_string(&self.server_url),
            server_name: crate::types::clone_opt_string(&self.server_name),
            user_name: crate::types::clone_opt_string(&self.user_name),
        }
    }

    /// The server URL, or `NotConnected`.
    pub fn server_url(&self) -> (r: Result<String, JellyfinError>)
        ensures
            match r {
                Ok(u) => self.server_url == Some(u),
                Err(e) => self.server_url is None && e == JellyfinError::NotConnected,
            },
    {
        match &self.server_url {
            Some(u) => Ok(u.clone()),
            None => Err(JellyfinError::NotConnected),
        }
    }

    /// The access token, or `NotConnected`.
    pub fn access_token(&self) -> (r: Result<String, JellyfinError>)
        ensures
            match r {
                Ok(t) => self.access_token == Some(t),
                Err(e) => self.access_token is None && e == JellyfinError::NotConnected,
            },
    {
        match &self.access_token {
            Some(t) => Ok(t.clone()),
            None => Err(JellyfinError::NotConnected),
        }
    }

    /// The user id, or `NotConnected`.
    pub fn user_id(&self) -> (r: Result<String, JellyfinError>)
        ensures
            match r {
                Ok(u) => self.user_id == Some(u),
                Err(e) => self.user_id is None && e == JellyfinError::NotConnected,
            },
    {
        match &self.user_id {
            Some(u) => Ok(u.clone()),
            None => Err(JellyfinError::NotConnected),
        }
    }

    /// The streaming URL for a media source. Always an HTTP URL on the
    /// server — never the source's file path, which lives on the server's
    /// disk, not here. Present exactly when server URL and token are set.
    pub fn build_stream_url(&self, item_id: &str, media_source: &MediaSource) -> (r: Option<
        String,
    >)
        ensures
            match r {
                Some(u) => self.server_url matches Some(base) && self.access_token matches Some(
                    tok,
                ) && u@ == stream_url_str(
                    base@,
                    item_id@,
                    match media_source.container {
                        Some(c) => c@,
                        None => "mkv"@,
                    },
                    media_source.id@,
                    tok@,
                ),
                None => self.server_url is None || self.access_token is None,
            },
    {
        let base = match &self.server_url {
            Some(b) => b,
            None => {
                return None;
            },
        };
        let tok = match &self.access_token {
            Some(t) => t,
            None => {
                return None;
            },
        };
        let mut s = base.clone();
        proof {
            reveal_strlit("/Videos/");
            reveal_strlit("/stream.");
            reveal_strlit("mkv");
            reveal_strlit("?Static=true&MediaSourceId=");
            reveal_strlit("&api_key=");
        }
        s.append("/Videos/");
        s.append(item_id);
        s.append("/stream.");
        match &media_source.container {
            Some(c) => s.append(c.as_str()),
            None => s.append("mkv"),
        }
        s.append("?Static=true&MediaSourceId=");
        s.append(media_source.id.as_str());
        s.append("&api_key=");
        s.append(tok.as_str());
        Some(s)
    }

    /// The WebSocket URL: the server URL with its scheme swapped to the
    /// socket scheme, plus the socket path carrying token and device id.
    pub fn websocket_url(&self) -> (r: Result<String, JellyfinError>)
        ensures
            match r {
                Ok(u) => self.server_url matches Some(base) && self.access_token matches Some(tok)
                    && u@ == ws_base_str(base@) + "/socket?api_key="@ + tok@ + "&deviceId="@
                    + self.device_id@,
                Err(e) => (self.server_url is None || self.access_token is None) && e
                    == JellyfinError::NotConnected,
            },
    {
        let base = match &self.server_url {
            Some(b) => b,
            None => {
                return Err(JellyfinError::NotConnected);
            },
        };
        let tok = match &self.access_token {
            Some(t) => t,
            None => {
                return Err(JellyfinError::NotConnected);
            },
        };
        proof {
            reveal_strlit("https://");
            reveal_strlit("http://");
            reveal_strlit("wss://");
            reveal_strlit("ws://");
            reveal_strlit("/socket?api_key=");
            reveal_strlit("&deviceId=");
        }
        let mut s: String;
        if starts_with(base.as_str(), "https://") {
            s = String::from_str("wss://");
            let rest = base.as_str().substring_char(8, base.as_str().unicode_len());
            s.append(rest);
            proof {
                assert(s@ =~= ws_base_str(base@));
            }
        } else if starts_with(base.as_str(), "http://") {
            s = String::from_str("ws://");
            let rest = base.as_str().substring_char(7, base.as_str().unicode_len());
            s.append(rest);
            proof {
                assert(s@ =~= ws_base_str(base@));
            }
        } else {
            s = base.clone();
        }
        s.append("/socket?api_key=");
        s.append(tok.as_str());
        s.append("&deviceId=");
        s.append(self.device_id.as_str());
        Ok(s)
    }
}

/// Whether `r` is `s` with the value after the key marker at `i` replaced
/// by the redaction mark: the value runs to the first `&` after it, or to
/// the end.
pub open spec fn redacted_from(s: Seq<char>, i: int, r: Seq<char>) -> bool {
    ||| (exists|e: int|
        i + 8 <= e < s.len() && s[e] == '&' && (forall|j: int|
            i + 8 <= j < e ==> s[j] != '&') && r == s.take(i + 8) + "[REDACTED]"@ + s.skip(e))
    ||| ((forall|j: int| i + 8 <= j < s.len() ==> s[j] != '&') && r == s.take(i + 8)
        + "[REDACTED]"@)
}

/// Replace the value of the first `api_key=` parameter of a URL with a
/// redaction mark, so that logs never carry the token. A URL without the
/// parameter passes through unchanged.
pub fn redact_url(url: &str) -> (r: String)
    ensures
        (forall|j: int| !matches_at(url@, "api_key="@, j)) ==> r@ == url@,
        (exists|j: int| matches_at(url@, "api_key="@, j)) ==> exists|i: int|
            #[trigger] matches_at(url@, "api_key="@, i) && (forall|j: int|
                0 <= j < i ==> !matches_at(url@, "api_key="@, j)) && redacted_from(url@, i, r@),
{
    proof {
        reveal_strlit("api_key=");
        reveal_strlit("[REDACTED]");
    }
    match find_sub(url, "api_key=") {
        Some(idx) => {
            let len = url.unicode_len();
            let start = idx + 8;
            proof {
                assert("api_key="@.len() == 8);
            }
            let mut out = String::from_str(url.substring_char(0, start));
            out.append("[REDACTED]");
            match find_char_from(url, '&', start) {
                Some(e) => {
                    out.append(url.substring_char(e, len));
                    proof {
                        assert(out@ =~= url@.take(start as int) + "[REDACTED]"@ + url@.skip(
                            e as int,
                        ));
                        assert(redacted_from(url@, idx as int, out@));
                    }
                },
                None => {
                    proof {
                        assert(out@ =~= url@.take(start as int) + "[REDACTED]"@);
                        assert(redacted_from(url@, idx as int, out@));
                    }
                },
            }
            out
        },
        None => String::from_str(url),
    }
}

/// The query path for a series' episode list: scoped to the user, cut down
/// to the current episode and its successor when a start item is given, and
/// always carrying the stream fields the play algorithm reads.
pub fn episodes_query_path(series_id: &str, user_id: &str, start_item_id: Option<&str>) -> (r:
    String)
    ensures
        match start_item_id {
            Some(start) => r@ == "/Shows/"@ + series_id@ + "/Episodes?UserId="@ + user_id@
                + "&StartItemId="@ + start@ + "&Limit=2&Fields=MediaSources,MediaStreams"@,
            None => r@ == "/Shows/"@ + series_id@ + "/Episodes?UserId="@ + user_id@
                + "&Fields=MediaSources,MediaStreams"@,
        },
{
    proof {
        reveal_strlit("/Shows/");
        reveal_strlit("/Episodes?UserId=");
        reveal_strlit("&StartItemId=");
        reveal_strlit("&Limit=2&Fields=MediaSources,MediaStreams");
        reveal_strlit("&Fields=MediaSources,MediaStreams");
    }
    let mut s = String::from_str("/Shows/");
    s.append(series_id);
    s.append("/Episodes?UserId=");
    s.append(user_id);
    match start_item_id {
        Some(start) => {
            s.append("&StartItemId=");
            s.append(start);
            s.append("&Limit=2&Fields=MediaSources,MediaStreams");
            proof {
                assert(s@ =~= "/Shows/"@ + series_id@ + "/Episodes?UserId="@ + user_id@
                    + "&StartItemId="@ + start@
                    + "&Limit=2&Fields=MediaSources,MediaStreams"@);
            }
        },
        None => {
            s.append("&Fields=MediaSources,MediaStreams");
            proof {
                assert(s@ =~= "/Shows/"@ + series_id@ + "/Episodes?UserId="@ + user_id@
                    + "&Fields=MediaSources,MediaStreams"@);
            }
        },
    }
    s
}

/// The series an adjacent-episode lookup may run in: present exactly when
/// the item is an episode of a known series.
pub fn episode_series_id(item: &MediaItem) -> (r: Option<String>)
    ensures
        match r {
            Some(s) => item.item_type@ == "Episode"@ && item.series_id == Some(s),
            None => item.item_type@ != "Episode"@ || item.series_id is None,
        },
{
    if !str_eq(item.item_type.as_str(), "Episode") {
        return None;
    }
    match &item.series_id {
        Some(s) => Some(s.clone()),
        None => None,
    }
}

/// The next episode from a list that starts at the current one: the second
/// entry, when the list has one.
pub fn next_episode_from(items: &Vec<MediaItem>) -> (r: Option<MediaItem>)
    ensures
        items@.len() >= 2 ==> r == Some(items@[1]),
        items@.len() < 2 ==> r is None,
{
    if items.len() >= 2 {
        Some(items[1].duplicate())
    } else {
        None
    }
}

/// The predecessor of the current episode in the full episode list: the
/// entry right before the first one whose id matches, if both exist.
pub fn previous_episode_in(items: &Vec<MediaItem>, current_id: &str) -> (r: Option<MediaItem>)
    ensures
        match r {
            Some(prev) => exists|p: int|
                0 < p < items@.len() && (#[trigger] items@[p]).id@ == current_id@ && (forall|q: int|
                    0 <= q < p ==> items@[q].id@ != current_id@) && prev == items@[p - 1],
            None => forall|p: int|
                0 < p < items@.len() ==> (#[trigger] items@[p]).id@ != current_id@ || exists|q: int|
                    0 <= q < p && (#[trigger] items@[q]).id@ == current_id@,
        },
{
    let mut i: usize = 0;
    while i < items.len()
        invariant
            0 <= i <= items@.len(),
            forall|q: int| 0 <= q < i ==> (#[trigger] items@[q]).id@ != current_id@,
        decreases items@.len() - i,
    {
        if str_eq(items[i].id.as_str(), current_id) {
            if i == 0 {
                return None;
            }
            return Some(items[i - 1].duplicate());
        }
        i += 1;
    }
    None
}

/// One entry of the server's session list, cut down to what validation
/// reads.
#[derive(Debug, Clone, PartialEq)]
pub struct SessionEntry {
    pub device_id: String,
    pub supports_media_control: bool,
}

/// Whether this client appears in the server's session list as a
/// controllable target: the first entry with our device id decides, and a
/// missing entry or one without media control is `SessionNotFound`.
pub fn find_our_session(sessions: &Vec<SessionEntry>, device_id: &str) -> (r: Result<
    (),
    JellyfinError,
>)
    ensures
        match r {
            Ok(()) => exists|p: int|
                0 <= p < sessions@.len() && (#[trigger] sessions@[p]).device_id@ == device_id@ && (
                forall|q: int| 0 <= q < p ==> sessions@[q].device_id@ != device_id@)
                    && sessions@[p].supports_media_control,
            Err(e) => e == JellyfinError::SessionNotFound && ((forall|p: int|
                0 <= p < sessions@.len() ==> (#[trigger] sessions@[p]).device_id@ != device_id@)
                || exists|p: int|
                0 <= p < sessions@.len() && (#[trigger] sessions@[p]).device_id@ == device_id@ && (
                forall|q: int| 0 <= q < p ==> sessions@[q].device_id@ != device_id@)
                    && !sessions@[p].supports_media_control),
        },
{
    let mut i: usize = 0;
    while i < sessions.len()
        invariant
            0 <= i <= sessions@.len(),
            forall|q: int| 0 <= q < i ==> (#[trigger] sessions@[q]).device_id@ != device_id@,
        decreases sessions@.len() - i,
    {
        if str_eq(sessions[i].device_id.as_str(), device_id) {
            if sessions[i].supports_media_control {
                return Ok(());
            }
            return Err(JellyfinError::SessionNotFound);
        }
        i += 1;
    }
    Err(JellyfinError::SessionNotFound)
}

/// The playback-info request body for an item: this user and device, the
/// fixed bitrate ceiling, every delivery mode enabled, and the caller's
/// track choices passed through.
pub fn make_playback_info_request(
    user_id: String,
    device_id: String,
    audio_stream_index: Option<i32>,
    subtitle_stream_index: Option<i32>,
) -> (r: PlaybackInfoRequest)
    ensures
        r.user_id == user_id,
        r.device_id == device_id,
        r.max_streaming_bitrate == Some(140_000_000i64),
        r.start_time_ticks is None,
        r.audio_stream_index == audio_stream_index,
        r.subtitle_stream_index == subtitle_stream_index,
        r.enable_direct_play,
        r.enable_direct_stream,
        r.enable_transcoding,
        r.auto_open_live_stream,
{
    PlaybackInfoRequest {
        user_id,
        device_id,
        max_streaming_bitrate: Some(140_000_000),
        start_time_ticks: None,
        audio_stream_index,
        subtitle_stream_index,
        enable_direct_play: true,
        enable_direct_stream: true,
        enable_transcoding: true,
        auto_open_live_stream: true,
    }
}

/// The capability payload this client registers, as its JSON text: the
/// media types it plays, the commands it accepts, and that it takes remote
/// control under a persistent identifier.
pub fn capabilities_payload() -> (r: String)
    ensures
        r@ == capabilities_json(),
{
    String::from_str(
        "{\"PlayableMediaTypes\":[\"Video\",\"Audio\"],\"SupportedCommands\":[\"MoveUp\",\"MoveDown\",\"MoveLeft\",\"MoveRight\",\"Select\",\"Back\",\"ToggleFullscreen\",\"GoHome\",\"GoToSettings\",\"VolumeUp\",\"VolumeDown\",\"ToggleMute\",\"Mute\",\"Unmute\",\"SetVolume\",\"SetAudioStreamIndex\",\"SetSubtitleStreamIndex\",\"DisplayContent\",\"Play\",\"Playstate\",\"PlayNext\",\"PlayMediaSource\"],\"SupportsMediaControl\":true,\"SupportsPersistentIdentifier\":true}",
    )
}

/// The capability payload's JSON text.
pub open spec fn capabilities_json() -> Seq<char> {
    "{\"PlayableMediaTypes\":[\"Video\",\"Audio\"],\"SupportedCommands\":[\"MoveUp\",\"MoveDown\",\"MoveLeft\",\"MoveRight\",\"Select\",\"Back\",\"ToggleFullscreen\",\"GoHome\",\"GoToSettings\",\"VolumeUp\",\"VolumeDown\",\"ToggleMute\",\"Mute\",\"Unmute\",\"SetVolume\",\"SetAudioStreamIndex\",\"SetSubtitleStreamIndex\",\"DisplayContent\",\"Play\",\"Playstate\",\"PlayNext\",\"PlayMediaSource\"],\"SupportsMediaControl\":true,\"SupportsPersistentIdentifier\":true}"@
}

/// The frame that opens a WebSocket session. Its two intervals announce
/// this client as active, which the server requires before it routes
/// commands here.
pub fn session_start_frame() -> (r: String)
    ensures
        r@ == "{\"MessageType\":\"SessionsStart\",\"Data\":\"1000,1000\"}"@,
{
    String::from_str("{\"MessageType\":\"SessionsStart\",\"Data\":\"1000,1000\"}")
}

/// The keepalive frame sent every thirty seconds.
pub fn keepalive_frame() -> (r: String)
    ensures
        r@ == "{\"MessageType\":\"KeepAlive\"}"@,
{
    String::from_str("{\"MessageType\":\"KeepAlive\"}")
}

/// The frame that repeats the capability payload over the WebSocket. The
/// payload goes out both over HTTP and in this frame, because across server
/// versions only one or the other may be honored.
pub fn report_capabilities_frame(capabilities: &str) -> (r: String)
    ensures
        r@ == "{\"MessageType\":\"ReportCapabilities\",\"Data\":"@ + capabilities@ + "}"@,
{
    proof {
        reveal_strlit("{\"MessageType\":\"ReportCapabilities\",\"Data\":");
        reveal_strlit("}");
    }
    let mut s = String::from_str("{\"MessageType\":\"ReportCapabilities\",\"Data\":");
    s.append(capabilities);
    s.append("}");
    proof {
        assert(s@ =~= "{\"MessageType\":\"ReportCapabilities\",\"Data\":"@ + capabilities@ + "}"@);
    }
    s
}

/// What an inbound WebSocket frame asks for, by its message type.
#[derive(Debug, Clone, Copy, PartialEq, Eq, Structural)]
pub enum WsMessageKind {
    /// A play command follows in the data.
    Play,
    /// A playstate command follows in the data.
    Playstate,
    /// A general command follows in the data.
    GeneralCommand,
    /// A keepalive; nothing to do.
    KeepAlive,
    /// Anything else; ignored.
    Other,
}

/// Classify an inbound frame by its message type: the three command types
/// are handled, both keepalive forms are no-ops, everything else is
/// ignored.
pub fn classify_ws_message(message_type: &str) -> (r: WsMessageKind)
    ensures
        r == WsMessageKind::Play <==> message_type@ == "Play"@,
        r == WsMessageKind::Playstate <==> message_type@ == "Playstate"@,
        r == WsMessageKind::GeneralCommand <==> message_type@ == "GeneralCommand"@,
        r == WsMessageKind::KeepAlive <==> (message_type@ == "KeepAlive"@ || message_type@
            == "ForceKeepAlive"@),
{
    proof {
        reveal_strlit("Play");
        reveal_strlit("Playstate");
        reveal_strlit("GeneralCommand");
        reveal_strlit("KeepAlive");
        reveal_strlit("ForceKeepAlive");
        assert("Play"@.len() == 4 && "Playstate"@.len() == 9 && "GeneralCommand"@.len() == 14
            && "KeepAlive"@.len() == 9 && "ForceKeepAlive"@.len() == 14);
        assert("Playstate"@[0] == 'P' && "KeepAlive"@[0] == 'K');
        assert("GeneralCommand"@[0] == 'G' && "ForceKeepAlive"@[0] == 'F');
    }
    if str_eq(message_type, "Play") {
        WsMessageKind::Play
    } else if str_eq(message_type, "Playstate") {
        WsMessageKind::Playstate
    } else if str_eq(message_type, "GeneralCommand") {
        WsMessageKind::GeneralCommand
    } else if str_eq(message_type, "KeepAlive") || str_eq(message_type, "ForceKeepAlive") {
        WsMessageKind::KeepAlive
    } else {
        WsMessageKind::Other
    }
}

/// The authorization header for a device, with or without a token.
pub open spec fn auth_header_str(
    device_name: Seq<char>,
    device_id: Seq<char>,
    token: Option<Seq<char>>,
) -> Seq<char> {
    "MediaBrowser Client=\"Jellyfin MPV Shim Rust\", Device=\""@ + device_name
        + "\", DeviceId=\""@ + device_id + "\", Version=\"0.1.0\""@ + match token {
        Some(t) => ", Token=\""@ + t + "\""@,
        None => Seq::empty(),
    }
}

/// The streaming URL of a media source on a server.
pub open spec fn stream_url_str(
    base: Seq<char>,
    item_id: Seq<char>,
    container: Seq<char>,
    source_id: Seq<char>,
    token: Seq<char>,
) -> Seq<char> {
    base + "/Videos/"@ + item_id + "/stream."@ + container + "?Static=true&MediaSourceId="@
        + source_id + "&api_key="@ + token
}

/// The server URL with its scheme swapped for the matching socket scheme;
/// a URL without an accepted scheme stays as it is.
pub open spec fn ws_base_str(base: Seq<char>) -> Seq<char> {
    if is_prefix_of("https://"@, base) {
        "wss://"@ + base.skip(8)
    } else if is_prefix_of("http://"@, base) {
        "ws://"@ + base.skip(7)
    } else {
        base
    }
}

} // verus!
