//! The playback state machine.
//!
//! Server commands and player events feed in as plain values; the machine
//! mutates the one playback session and hands back an ordered list of
//! effects — reports to send, player actions to run, a preference snapshot
//! to persist, an adjacent episode to look up. The surrounding process
//! performs the effects in order; everything decided here is verified.

use vstd::prelude::*;

use crate::prefs::{empty_pref, pref_or_empty, spec_get, PrefStore};
use crate::protocol::{MpvEvent, PropertyData};
use crate::text::{dec_str_pad2, i64_to_string_pad2, parse_i64, parse_i64_spec, str_eq};
use crate::ticks::TICKS_PER_MILLI;
use crate::tracks::{
    find_stream_by_preference, is_first_index_match, is_first_lang_match, is_first_pref_match,
    jellyfin_to_mpv_track_index, lang_matches, pref_matches, translated_index_ok,
};
use crate::types::{
    clone_opt_string, duplicate_streams, ArgValue, CommandArgs, GeneralCommand, MediaItem,
    MediaSource, MediaStream, PlaybackProgressInfo, PlaybackSession, PlaybackStartInfo,
    PlaybackStopInfo, PlaystateRequest, TrackPreference,
};

verus! {

/// An action for the player, queued in order and run by a single consumer.
#[derive(Debug, Clone, PartialEq)]
pub enum MpvAction {
    /// Load and play a URL, with start position and track choices applied
    /// atomically with the load.
    Play {
        url: String,
        start_millis: i64,
        title: String,
        audio_track: Option<i32>,
        subtitle_track: Option<i32>,
    },
    /// Pause playback.
    Pause,
    /// Resume playback.
    Resume,
    /// Seek to an absolute position.
    SeekMillis(i64),
    /// Stop playback and let the player go.
    Stop,
    /// Set the volume, 0 to 100.
    SetVolume(i32),
    /// Toggle mute.
    ToggleMute,
    /// Toggle fullscreen.
    ToggleFullscreen,
    /// Select an audio track by the player's track number.
    SetAudioTrack(i32),
    /// Select a subtitle track by the player's track number; -1 disables.
    SetSubtitleTrack(i32),
}

/// One thing the surrounding process must do, in list order.
#[derive(Debug, Clone, PartialEq)]
pub enum Effect {
    /// Tell the server playback started.
    ReportStart(PlaybackStartInfo),
    /// Tell the server where playback stands.
    ReportProgress(PlaybackProgressInfo),
    /// Tell the server playback stopped.
    ReportStopped(PlaybackStopInfo),
    /// Run a player action.
    Player(MpvAction),
    /// Persist the preference entries.
    SavePreferences,
    /// Look up the adjacent episode of `item` and feed the result back.
    FetchAdjacent { next: bool, item: MediaItem },
}

/// The playback state machine: at most one session, the item it plays, and
/// the per-series preferences.
#[derive(Debug, Clone, PartialEq)]
pub struct SessionCore {
    pub playback: Option<PlaybackSession>,
    pub current_series_id: Option<String>,
    pub current_item: Option<MediaItem>,
    pub current_media_streams: Vec<MediaStream>,
    pub preferences: PrefStore,
}

/// Whether `i` is the stop report of session `s`.
pub open spec fn is_stop_for(i: PlaybackStopInfo, s: PlaybackSession) -> bool {
    &&& i.item_id == s.item_id
    &&& i.media_source_id == s.media_source_id
    &&& i.play_session_id == s.play_session_id
    &&& i.position_ticks == Some(s.position_ticks)
}

/// Whether `p` is the progress report of session `s`.
pub open spec fn is_progress_for(p: PlaybackProgressInfo, s: PlaybackSession) -> bool {
    &&& p.item_id == s.item_id
    &&& p.media_source_id == s.media_source_id
    &&& p.play_session_id == s.play_session_id
    &&& p.position_ticks == Some(s.position_ticks)
    &&& p.is_paused == s.is_paused
    &&& p.is_muted == s.is_muted
    &&& p.volume_level == s.volume
    &&& p.audio_stream_index == s.audio_stream_index
    &&& p.subtitle_stream_index == s.subtitle_stream_index
    &&& p.play_method@ == "DirectPlay"@
    &&& p.can_seek
}

/// Whether `m` names the delivery mode the source supports best: direct
/// play first, then direct stream, then transcoding.
pub open spec fn play_method_ok(source: MediaSource, m: Seq<char>) -> bool {
    if source.supports_direct_play {
        m == "DirectPlay"@
    } else if source.supports_direct_stream {
        m == "DirectStream"@
    } else {
        m == "Transcode"@
    }
}

/// The title the player window shows: `Series - SnnEmm - Name` for an
/// episode, the item's own name otherwise. Season and episode fall back to
/// one when the server omits them.
pub open spec fn title_str(item: MediaItem) -> Seq<char> {
    if item.item_type@ == "Episode"@ {
        (match item.series_name {
            Some(s) => s@,
            None => "Unknown"@,
        }) + " - S"@ + dec_str_pad2(
            match item.parent_index_number {
                Some(n) => n as int,
                None => 1,
            },
        ) + "E"@ + dec_str_pad2(
            match item.index_number {
                Some(n) => n as int,
                None => 1,
            },
        ) + " - "@ + item.name@
    } else {
        item.name@
    }
}

/// The stop report of a session.
pub fn stop_report(s: &PlaybackSession) -> (r: PlaybackStopInfo)
    ensures
        is_stop_for(r, *s),
{
    PlaybackStopInfo {
        item_id: s.item_id.clone(),
        media_source_id: clone_opt_string(&s.media_source_id),
        play_session_id: clone_opt_string(&s.play_session_id),
        position_ticks: Some(s.position_ticks),
    }
}

/// The progress report of a session.
pub fn progress_report(s: &PlaybackSession) -> (r: PlaybackProgressInfo)
    ensures
        is_progress_for(r, *s),
{
    PlaybackProgressInfo {
        item_id: s.item_id.clone(),
        media_source_id: clone_opt_string(&s.media_source_id),
        play_session_id: clone_opt_string(&s.play_session_id),
        position_ticks: Some(s.position_ticks),
        is_paused: s.is_paused,
        is_muted: s.is_muted,
        volume_level: s.volume,
        audio_stream_index: s.audio_stream_index,
        subtitle_stream_index: s.subtitle_stream_index,
        play_method: String::from_str("DirectPlay"),
        can_seek: true,
    }
}

/// Format the title the player window shows for an item.
pub fn format_title(item: &MediaItem) -> (r: String)
    ensures
        r@ == title_str(*item),
{
    proof {
        reveal_strlit("Episode");
        reveal_strlit("Unknown");
        reveal_strlit(" - S");
        reveal_strlit("E");
        reveal_strlit(" - ");
    }
    if str_eq(item.item_type.as_str(), "Episode") {
        let mut s = match &item.series_name {
            Some(n) => n.clone(),
            None => String::from_str("Unknown"),
        };
        s.append(" - S");
        let season: i64 = match item.parent_index_number {
            Some(n) => n as i64,
            None => 1,
        };
        s.append(i64_to_string_pad2(season).as_str());
        s.append("E");
        let episode: i64 = match item.index_number {
            Some(n) => n as i64,
            None => 1,
        };
        s.append(i64_to_string_pad2(episode).as_str());
        s.append(" - ");
        s.append(item.name.as_str());
        proof {
            assert(s@ =~= title_str(*item));
        }
        s
    } else {
        item.name.clone()
    }
}

/// Whether `r` is the pick of a stream of `kind` for the stored language
/// and title: where the stored title also matches a stream, `r` is the
/// first stream matching language and title; otherwise `r` is the first
/// language match; and `r` is nothing exactly when no stream has the
/// language.
pub open spec fn lang_pick_ok(
    streams: Seq<MediaStream>,
    kind: Seq<char>,
    lang: Seq<char>,
    title: Option<String>,
    r: Option<i32>,
) -> bool {
    &&& (match r {
        Some(idx) => exists|q: int|
            0 <= q < streams.len() && lang_matches(#[trigger] streams[q], kind, lang)
                && streams[q].index == idx,
        None => forall|q: int|
            0 <= q < streams.len() ==> !lang_matches(#[trigger] streams[q], kind, lang),
    })
    &&& (match title {
        Some(t) => (exists|q: int|
            0 <= q < streams.len() && pref_matches(#[trigger] streams[q], kind, lang, t@))
            ==> exists|q: int|
            #[trigger] is_first_pref_match(streams, kind, lang, t@, q) && r == Some(
                streams[q].index,
            ),
        None => true,
    })
    &&& (match title {
        None => true,
        Some(t) => forall|q: int|
            0 <= q < streams.len() ==> !pref_matches(#[trigger] streams[q], kind, lang, t@),
    }) && (exists|q: int| 0 <= q < streams.len() && lang_matches(#[trigger] streams[q], kind, lang))
        ==> exists|q: int|
        #[trigger] is_first_lang_match(streams, kind, lang, q) && r == Some(streams[q].index)
}

/// Whether `r` is the audio index the play algorithm must use: the
/// caller's explicit choice when one came with the request; otherwise the
/// stored preference's language match among the source's streams; nothing
/// when there is no series, no stored preference, or no match.
pub open spec fn audio_choice_ok(
    prefs: Seq<crate::prefs::PrefEntry>,
    series: Option<String>,
    streams: Seq<MediaStream>,
    req: Option<i32>,
    r: Option<i32>,
) -> bool {
    if req is Some {
        r == req
    } else {
        match series {
            None => r is None,
            Some(sid) => match spec_get(prefs, sid@) {
                None => r is None,
                Some(p) => match p.audio_language {
                    None => r is None,
                    Some(lang) => lang_pick_ok(streams, "Audio"@, lang@, p.audio_title, r),
                },
            },
        }
    }
}

/// Whether `r` is the subtitle index the play algorithm must use: the
/// caller's explicit choice first; otherwise the stored preference — the
/// disable sentinel when the user turned subtitles off for the series, a
/// language match when one is stored and found, nothing otherwise.
pub open spec fn subtitle_choice_ok(
    prefs: Seq<crate::prefs::PrefEntry>,
    series: Option<String>,
    streams: Seq<MediaStream>,
    req: Option<i32>,
    r: Option<i32>,
) -> bool {
    if req is Some {
        r == req
    } else {
        match series {
            None => r is None,
            Some(sid) => match spec_get(prefs, sid@) {
                None => r is None,
                Some(p) => if !p.is_subtitle_enabled {
                    r == Some(-1i32)
                } else {
                    match p.subtitle_language {
                        None => r is None,
                        Some(lang) => lang_pick_ok(streams, "Subtitle"@, lang@, p.subtitle_title, r),
                    }
                },
            },
        }
    }
}

/// Whether the new session a play installs has the right fields: the
/// item's identity, the source's id, the caller's play session id, the
/// start position or zero, unpaused and unmuted at full volume, and track
/// choices resolved from request and stored preference.
pub open spec fn new_session_ok(
    ns: PlaybackSession,
    before: SessionCore,
    item: MediaItem,
    source: MediaSource,
    play_session_id: Option<String>,
    req_audio: Option<i32>,
    req_sub: Option<i32>,
    start_ticks: Option<i64>,
) -> bool {
    &&& ns.item_id == item.id
    &&& ns.media_source_id == Some(source.id)
    &&& ns.play_session_id == play_session_id
    &&& ns.position_ticks == (match start_ticks {
        Some(t) => t,
        None => 0,
    })
    &&& !ns.is_paused
    &&& !ns.is_muted
    &&& ns.volume == 100
    &&& audio_choice_ok(
        before.preferences.entries@,
        item.series_id,
        source.media_streams@,
        req_audio,
        ns.audio_stream_index,
    )
    &&& subtitle_choice_ok(
        before.preferences.entries@,
        item.series_id,
        source.media_streams@,
        req_sub,
        ns.subtitle_stream_index,
    )
}

/// Whether `si` is the start report of session `ns` playing `source`.
pub open spec fn start_report_ok(
    si: PlaybackStartInfo,
    ns: PlaybackSession,
    source: MediaSource,
    start_ticks: Option<i64>,
) -> bool {
    &&& si.item_id == ns.item_id
    &&& si.media_source_id == ns.media_source_id
    &&& si.play_session_id == ns.play_session_id
    &&& si.position_ticks == start_ticks
    &&& !si.is_paused
    &&& !si.is_muted
    &&& si.volume_level == 100
    &&& si.audio_stream_index == ns.audio_stream_index
    &&& si.subtitle_stream_index == ns.subtitle_stream_index
    &&& play_method_ok(source, si.play_method@)
    &&& si.can_seek
}

/// Whether `m` is the player-side track choice for server index `j`: none
/// for none, the disable sentinel passed through, and anything else
/// translated into the player's track numbering.
pub open spec fn track_translation_ok(
    m: Option<i32>,
    j: Option<i32>,
    streams: Seq<MediaStream>,
    kind: Seq<char>,
) -> bool {
    match j {
        None => m is None,
        Some(idx) => if idx < 0 {
            m == Some(idx)
        } else {
            match m {
                Some(t) => translated_index_ok(streams, kind, idx, t),
                None => false,
            }
        },
    }
}

/// Whether `a` is the load action of session `ns` playing `item` from
/// `url`: the position in player milliseconds, the display title, and both
/// track choices translated.
pub open spec fn play_action_ok(
    a: MpvAction,
    ns: PlaybackSession,
    source: MediaSource,
    item: MediaItem,
    url: String,
) -> bool {
    match a {
        MpvAction::Play { url: u, start_millis, title, audio_track, subtitle_track } => {
            &&& u == url
            &&& start_millis == ns.position_ticks as int / (TICKS_PER_MILLI as int)
            &&& title@ == title_str(item)
            &&& track_translation_ok(
                audio_track,
                ns.audio_stream_index,
                source.media_streams@,
                "Audio"@,
            )
            &&& track_translation_ok(
                subtitle_track,
                ns.subtitle_stream_index,
                source.media_streams@,
                "Subtitle"@,
            )
        },
        _ => false,
    }
}

/// Whether a play's effects come in the right order: the old session's
/// stop report first when one was live — a play never leaves two sessions
/// behind — then the start report, then the player's load action.
pub open spec fn play_effects_ok(
    effects: Seq<Effect>,
    old_playback: Option<PlaybackSession>,
    ns: PlaybackSession,
    source: MediaSource,
    start_ticks: Option<i64>,
    item: MediaItem,
    url: String,
) -> bool {
    let base: int = if old_playback is Some {
        1
    } else {
        0
    };
    &&& effects.len() == base + 2
    &&& (match old_playback {
        Some(os) => match effects[0] {
            Effect::ReportStopped(i) => is_stop_for(i, os),
            _ => false,
        },
        None => true,
    })
    &&& (match effects[base] {
        Effect::ReportStart(si) => start_report_ok(si, ns, source, start_ticks),
        _ => false,
    })
    &&& (match effects[base + 1] {
        Effect::Player(a) => play_action_ok(a, ns, source, item, url),
        _ => false,
    })
}

/// The sessions with the pause bit set as given; no session stays none.
pub open spec fn with_paused(pb: Option<PlaybackSession>, paused: bool) -> Option<
    PlaybackSession,
> {
    match pb {
        Some(s) => Some(PlaybackSession { is_paused: paused, ..s }),
        None => None,
    }
}

/// The session moved to the given position; no session stays none.
pub open spec fn with_position(pb: Option<PlaybackSession>, ticks: i64) -> Option<
    PlaybackSession,
> {
    match pb {
        Some(s) => Some(PlaybackSession { position_ticks: ticks, ..s }),
        None => None,
    }
}

/// Whether an advance to the adjacent episode came out right: with no
/// current item nothing happens; otherwise the session is taken — its stop
/// report going out before anything else — and the lookup of the adjacent
/// episode is requested.
pub open spec fn adjacent_outcome_ok(
    effects: Seq<Effect>,
    before: SessionCore,
    final_playback: Option<PlaybackSession>,
    next: bool,
) -> bool {
    match before.current_item {
        None => effects.len() == 0 && final_playback == before.playback,
        Some(it) => final_playback is None && (match before.playback {
            Some(s) => effects.len() == 2 && (match effects[0] {
                Effect::ReportStopped(i) => is_stop_for(i, s),
                _ => false,
            }) && effects[1] == (Effect::FetchAdjacent { next, item: it }),
            None => effects == seq![Effect::FetchAdjacent { next, item: it }],
        }),
    }
}

/// `adjacent_outcome_ok` for effects appended to an existing list: what
/// stood before stays, and the appended tail is the outcome.
pub open spec fn adjacent_outcome_ok_from(
    before_effects: Seq<Effect>,
    after_effects: Seq<Effect>,
    before: SessionCore,
    final_playback: Option<PlaybackSession>,
    next: bool,
) -> bool {
    &&& after_effects.len() >= before_effects.len()
    &&& after_effects.take(before_effects.len() as int) == before_effects
    &&& adjacent_outcome_ok(
        after_effects.skip(before_effects.len() as int),
        before,
        final_playback,
        next,
    )
}

/// The session at the given volume; no session stays none.
pub open spec fn with_volume(pb: Option<PlaybackSession>, volume: i32) -> Option<PlaybackSession> {
    match pb {
        Some(s) => Some(PlaybackSession { volume, ..s }),
        None => None,
    }
}

/// The session with the given audio stream index; no session stays none.
pub open spec fn with_audio_index(pb: Option<PlaybackSession>, idx: i32) -> Option<
    PlaybackSession,
> {
    match pb {
        Some(s) => Some(PlaybackSession { audio_stream_index: Some(idx), ..s }),
        None => None,
    }
}

/// The session with the given subtitle stream index; no session stays none.
pub open spec fn with_subtitle_index(pb: Option<PlaybackSession>, idx: i32) -> Option<
    PlaybackSession,
> {
    match pb {
        Some(s) => Some(PlaybackSession { subtitle_stream_index: Some(idx), ..s }),
        None => None,
    }
}

/// The integer a command's `Index` argument carries: servers send it as a
/// number or as a decimal string, and both are accepted.
pub open spec fn index_arg_val(args: Option<CommandArgs>) -> Option<i64> {
    match args {
        Some(a) => match a.index {
            Some(ArgValue::Num(v)) => Some(v),
            Some(ArgValue::Text(s)) => parse_i64_spec(s@),
            None => None,
        },
        None => None,
    }
}

/// The integer a command's `Volume` argument carries; only a number counts.
pub open spec fn volume_arg_val(args: Option<CommandArgs>) -> Option<i64> {
    match args {
        Some(a) => match a.volume {
            Some(ArgValue::Num(v)) => Some(v),
            _ => None,
        },
        None => None,
    }
}

/// Whether the preference map was updated the way choosing audio stream
/// `idx` demands: where the stream exists, its language and title become
/// the series' audio preference over the stored base; where it does not,
/// nothing changes. Other series keep their entries.
pub open spec fn audio_pref_updated(
    old_entries: Seq<crate::prefs::PrefEntry>,
    new_entries: Seq<crate::prefs::PrefEntry>,
    sid: Seq<char>,
    streams: Seq<MediaStream>,
    idx: i32,
) -> bool {
    if exists|p: int| is_first_index_match(streams, "Audio"@, idx, p) {
        exists|p: int|
            #[trigger] is_first_index_match(streams, "Audio"@, idx, p) && spec_get(new_entries, sid)
                == Some(
                TrackPreference {
                    audio_language: streams[p].language,
                    audio_title: streams[p].display_title,
                    ..pref_or_empty(old_entries, sid)
                },
            ) && (forall|k: Seq<char>|
                k != sid ==> #[trigger] spec_get(new_entries, k) == spec_get(old_entries, k))
    } else {
        new_entries == old_entries
    }
}

/// Whether the preference map was updated the way choosing subtitle stream
/// `idx` demands: the disable sentinel turns subtitles off and wipes the
/// stored language; a stream that exists stores its language and title and
/// turns subtitles on; an index with no stream still turns them on. Other
/// series keep their entries.
pub open spec fn subtitle_pref_updated(
    old_entries: Seq<crate::prefs::PrefEntry>,
    new_entries: Seq<crate::prefs::PrefEntry>,
    sid: Seq<char>,
    streams: Seq<MediaStream>,
    idx: i32,
) -> bool {
    &&& (forall|k: Seq<char>|
        k != sid ==> #[trigger] spec_get(new_entries, k) == spec_get(old_entries, k))
    &&& if idx == -1 {
        spec_get(new_entries, sid) == Some(
            TrackPreference {
                is_subtitle_enabled: false,
                subtitle_language: None,
                subtitle_title: None,
                ..pref_or_empty(old_entries, sid)
            },
        )
    } else if exists|p: int| is_first_index_match(streams, "Subtitle"@, idx, p) {
        exists|p: int|
            #[trigger] is_first_index_match(streams, "Subtitle"@, idx, p) && spec_get(
                new_entries,
                sid,
            ) == Some(
                TrackPreference {
                    is_subtitle_enabled: true,
                    subtitle_language: streams[p].language,
                    subtitle_title: streams[p].display_title,
                    ..pref_or_empty(old_entries, sid)
                },
            )
    } else {
        spec_get(new_entries, sid) == Some(
            TrackPreference { is_subtitle_enabled: true, ..pref_or_empty(old_entries, sid) },
        )
    }
}

/// The session with the mute bit set as given; no session stays none.
pub open spec fn with_muted(pb: Option<PlaybackSession>, muted: bool) -> Option<PlaybackSession> {
    match pb {
        Some(s) => Some(PlaybackSession { is_muted: muted, ..s }),
        None => None,
    }
}

/// Whether the effects are exactly one progress report of the session —
/// or nothing, where no session is live.
pub open spec fn progress_effects_ok(effects: Seq<Effect>, pb: Option<PlaybackSession>) -> bool {
    match pb {
        Some(s) => effects.len() == 1 && (match effects[0] {
            Effect::ReportProgress(p) => is_progress_for(p, s),
            _ => false,
        }),
        None => effects.len() == 0,
    }
}

/// Whether the effect is the player action selecting the audio track that
/// server index `idx` translates to.
pub open spec fn audio_action_ok(e: Effect, streams: Seq<MediaStream>, idx: i32) -> bool {
    match e {
        Effect::Player(MpvAction::SetAudioTrack(m)) => translated_index_ok(
            streams,
            "Audio"@,
            idx,
            m,
        ),
        _ => false,
    }
}

/// Whether the effect is the player action selecting the subtitle track
/// that server index `idx` translates to; the disable sentinel passes
/// through untranslated.
pub open spec fn subtitle_action_ok(e: Effect, streams: Seq<MediaStream>, idx: i32) -> bool {
    match e {
        Effect::Player(MpvAction::SetSubtitleTrack(m)) => if idx == -1 {
            m == -1
        } else {
            translated_index_ok(streams, "Subtitle"@, idx, m)
        },
        _ => false,
    }
}

/// The `Index` argument's integer, from a number or a decimal string.
pub fn index_arg(args: &Option<CommandArgs>) -> (r: Option<i64>)
    ensures
        r == index_arg_val(*args),
{
    match args {
        Some(a) => match &a.index {
            Some(ArgValue::Num(v)) => Some(*v),
            Some(ArgValue::Text(s)) => parse_i64(s.as_str()),
            None => None,
        },
        None => None,
    }
}

/// The `Volume` argument's integer; only a number counts.
pub fn volume_arg(args: &Option<CommandArgs>) -> (r: Option<i64>)
    ensures
        r == volume_arg_val(*args),
{
    match args {
        Some(a) => match &a.volume {
            Some(ArgValue::Num(v)) => Some(*v),
            _ => None,
        },
        None => None,
    }
}

/// Language and display title of the first stream of the given type with
/// the given absolute index, if one exists.
pub fn find_stream_info(streams: &Vec<MediaStream>, kind: &str, idx: i32) -> (r: Option<
    (Option<String>, Option<String>),
>)
    ensures
        match r {
            Some(info) => exists|p: int|
                #[trigger] is_first_index_match(streams@, kind@, idx, p) && info.0
                    == streams@[p].language && info.1 == streams@[p].display_title,
            None => forall|p: int|
                0 <= p < streams@.len() ==> !((#[trigger] streams@[p]).stream_type@ == kind@
                    && streams@[p].index == idx),
        },
{
    let mut i: usize = 0;
    while i < streams.len()
        invariant
            0 <= i <= streams@.len(),
            forall|q: int|
                0 <= q < i ==> !((#[trigger] streams@[q]).stream_type@ == kind@
                    && streams@[q].index == idx),
        decreases streams@.len() - i,
    {
        let s = &streams[i];
        if str_eq(s.stream_type.as_str(), kind) && s.index == idx {
            proof {
                assert(is_first_index_match(streams@, kind@, idx, i as int));
            }
            return Some((clone_opt_string(&s.language), clone_opt_string(&s.display_title)));
        }
        i += 1;
    }
    None
}

/// Resolve the track choices for a play: explicit request indices win;
/// otherwise the series' stored preference picks among the source's
/// streams.
pub fn resolve_play_tracks(
    prefs: &PrefStore,
    series_id: Option<&String>,
    streams: &Vec<MediaStream>,
    req_audio: Option<i32>,
    req_sub: Option<i32>,
) -> (r: (Option<i32>, Option<i32>))
    ensures
        audio_choice_ok(
            prefs.entries@,
            match series_id {
                Some(s) => Some(*s),
                None => None,
            },
            streams@,
            req_audio,
            r.0,
        ),
        subtitle_choice_ok(
            prefs.entries@,
            match series_id {
                Some(s) => Some(*s),
                None => None,
            },
            streams@,
            req_sub,
            r.1,
        ),
{
    proof {
        reveal_strlit("Audio");
        reveal_strlit("Subtitle");
    }
    let pref = match series_id {
        Some(sid) => prefs.get(sid.as_str()),
        None => None,
    };
    let audio: Option<i32> = match req_audio {
        Some(a) => Some(a),
        None => {
            match &pref {
                Some(p) => {
                    match &p.audio_language {
                        Some(lang) => {
                            let title: Option<&str> = match &p.audio_title {
                                Some(t) => Some(t.as_str()),
                                None => None,
                            };
                            find_stream_by_preference(streams, "Audio", lang.as_str(), title)
                        },
                        None => None,
                    }
                },
                None => None,
            }
        },
    };
    let subtitle: Option<i32> = match req_sub {
        Some(s) => Some(s),
        None => {
            match &pref {
                Some(p) => {
                    if !p.is_subtitle_enabled {
                        Some(-1)
                    } else {
                        match &p.subtitle_language {
                            Some(lang) => {
                                let title: Option<&str> = match &p.subtitle_title {
                                    Some(t) => Some(t.as_str()),
                                    None => None,
                                };
                                find_stream_by_preference(streams, "Subtitle", lang.as_str(), title)
                            },
                            None => None,
                        }
                    }
                },
                None => None,
            }
        },
    };
    (audio, subtitle)
}

impl SessionCore {
    /// A fresh machine with the given preferences and nothing playing.
    pub fn new(preferences: PrefStore) -> (r: SessionCore)
        ensures
            r.playback is None,
            r.current_series_id is None,
            r.current_item is None,
            r.current_media_streams@.len() == 0,
            r.preferences == preferences,
    {
        SessionCore {
            playback: None,
            current_series_id: None,
            current_item: None,
            current_media_streams: Vec::new(),
            preferences,
        }
    }

    /// Take the session and hand out its stop report, if one was live.
    /// Everything else stays.
    pub fn take_stop_report(&mut self) -> (r: Option<PlaybackStopInfo>)
        ensures
            final(self).playback is None,
            final(self).current_series_id == old(self).current_series_id,
            final(self).current_item == old(self).current_item,
            final(self).current_media_streams == old(self).current_media_streams,
            final(self).preferences == old(self).preferences,
            match old(self).playback {
                Some(s) => r matches Some(i) && is_stop_for(i, s),
                None => r is None,
            },
    {
        let taken = self.playback.take();
        match taken {
            Some(s) => Some(stop_report(&s)),
            None => None,
        }
    }

    /// The transport under the session is gone — the player died or the
    /// control channel dropped. Report the stop first, then clear the whole
    /// playback context; playback is not resumed automatically.
    pub fn clear_playback_context(&mut self) -> (effects: Vec<Effect>)
        ensures
            match old(self).playback {
                Some(s) => effects@.len() == 1 && (effects@[0] matches Effect::ReportStopped(i)
                    && is_stop_for(i, s)),
                None => effects@.len() == 0,
            },
            final(self).playback is None,
            final(self).current_series_id is None,
            final(self).current_item is None,
            final(self).current_media_streams@.len() == 0,
            final(self).preferences == old(self).preferences,
    {
        let mut effects: Vec<Effect> = Vec::new();
        match self.take_stop_report() {
            Some(i) => effects.push(Effect::ReportStopped(i)),
            None => {},
        }
        self.current_item = None;
        self.current_series_id = None;
        self.current_media_streams = Vec::new();
        effects
    }

    /// Run a play: resolve the track choices, replace the session, and
    /// order the effects — the old session's stop report first where one
    /// was live, then the start report, then the player's load action. The
    /// caller has fetched the item and its media source and built the
    /// streaming URL.
    pub fn on_play(
        &mut self,
        item: MediaItem,
        source: MediaSource,
        play_session_id: Option<String>,
        req_audio: Option<i32>,
        req_sub: Option<i32>,
        start_ticks: Option<i64>,
        url: String,
    ) -> (effects: Vec<Effect>)
        requires
            start_ticks matches Some(t) ==> t >= 0,
            source.media_streams@.len() < 0x8000_0000,
        ensures
            final(self).playback matches Some(ns) && new_session_ok(
                ns,
                *old(self),
                item,
                source,
                play_session_id,
                req_audio,
                req_sub,
                start_ticks,
            ),
            final(self).current_item == Some(item),
            final(self).current_series_id == item.series_id,
            final(self).current_media_streams@ == source.media_streams@,
            final(self).preferences == old(self).preferences,
            play_effects_ok(
                effects@,
                old(self).playback,
                final(self).playback->Some_0,
                source,
                start_ticks,
                item,
                url,
            ),
    {
        let (audio_index, subtitle_index) = resolve_play_tracks(
            &self.preferences,
            match &item.series_id {
                Some(s) => Some(s),
                None => None,
            },
            &source.media_streams,
            req_audio,
            req_sub,
        );
        let mut effects: Vec<Effect> = Vec::new();
        match self.take_stop_report() {
            Some(i) => effects.push(Effect::ReportStopped(i)),
            None => {},
        }
        let start_position_ticks: i64 = match start_ticks {
            Some(t) => t,
            None => 0,
        };
        let new_session = PlaybackSession {
            item_id: item.id.clone(),
            media_source_id: Some(source.id.clone()),
            play_session_id: clone_opt_string(&play_session_id),
            position_ticks: start_position_ticks,
            is_paused: false,
            is_muted: false,
            volume: 100,
            audio_stream_index: audio_index,
            subtitle_stream_index: subtitle_index,
        };
        let start_info = PlaybackStartInfo {
            item_id: item.id.clone(),
            media_source_id: Some(source.id.clone()),
            play_session_id: clone_opt_string(&play_session_id),
            position_ticks: start_ticks,
            is_paused: false,
            is_muted: false,
            volume_level: 100,
            audio_stream_index: audio_index,
            subtitle_stream_index: subtitle_index,
            play_method: if source.supports_direct_play {
                String::from_str("DirectPlay")
            } else if source.supports_direct_stream {
                String::from_str("DirectStream")
            } else {
                String::from_str("Transcode")
            },
            can_seek: true,
        };
        effects.push(Effect::ReportStart(start_info));
        let mpv_audio: Option<i32> = match audio_index {
            Some(idx) => if idx < 0 {
                Some(idx)
            } else {
                Some(jellyfin_to_mpv_track_index(&source.media_streams, "Audio", idx))
            },
            None => None,
        };
        let mpv_subtitle: Option<i32> = match subtitle_index {
            Some(idx) => if idx < 0 {
                Some(idx)
            } else {
                Some(jellyfin_to_mpv_track_index(&source.media_streams, "Subtitle", idx))
            },
            None => None,
        };
        proof {
            reveal_strlit("Audio");
            reveal_strlit("Subtitle");
        }
        let title = format_title(&item);
        effects.push(
            Effect::Player(
                MpvAction::Play {
                    url,
                    start_millis: start_position_ticks / TICKS_PER_MILLI,
                    title,
                    audio_track: mpv_audio,
                    subtitle_track: mpv_subtitle,
                },
            ),
        );
        self.playback = Some(new_session);
        self.current_series_id = clone_opt_string(&item.series_id);
        self.current_media_streams = duplicate_streams(&source.media_streams);
        self.current_item = Some(item);
        effects
    }

    /// Handle a playstate command from the server. `live_paused` carries
    /// the player's own pause property where the caller could read it — the
    /// player is authoritative, because the user may have toggled pause at
    /// its keyboard — and the session's copy stands in where not.
    pub fn on_playstate(
        &mut self,
        request: &PlaystateRequest,
        live_paused: Option<bool>,
    ) -> (effects: Vec<Effect>)
        requires
            request.seek_position_ticks matches Some(t) ==> t >= 0,
        ensures
            final(self).current_item == old(self).current_item,
            final(self).current_series_id == old(self).current_series_id,
            final(self).current_media_streams == old(self).current_media_streams,
            final(self).preferences == old(self).preferences,
            request.command@ == "Pause"@ ==> final(self).playback == with_paused(
                old(self).playback,
                true,
            ) && effects@ == seq![Effect::Player(MpvAction::Pause)],
            request.command@ == "Unpause"@ ==> final(self).playback == with_paused(
                old(self).playback,
                false,
            ) && effects@ == seq![Effect::Player(MpvAction::Resume)],
            request.command@ == "PlayPause"@ ==> {
                let was_paused = match live_paused {
                    Some(b) => b,
                    None => match old(self).playback {
                        Some(s) => s.is_paused,
                        None => false,
                    },
                };
                if was_paused {
                    final(self).playback == with_paused(old(self).playback, false) && effects@
                        == seq![Effect::Player(MpvAction::Resume)]
                } else {
                    final(self).playback == with_paused(old(self).playback, true) && effects@
                        == seq![Effect::Player(MpvAction::Pause)]
                }
            },
            request.command@ == "Seek"@ ==> (match request.seek_position_ticks {
                Some(t) => final(self).playback == with_position(old(self).playback, t) && effects@
                    == seq![
                    Effect::Player(MpvAction::SeekMillis(((t as int) / (TICKS_PER_MILLI as int)) as i64)),
                ],
                None => final(self).playback == old(self).playback && effects@.len() == 0,
            }),
            request.command@ == "Stop"@ ==> final(self).playback is None && (match old(
                self,
            ).playback {
                Some(s) => effects@.len() == 2 && (match effects@[0] {
                    Effect::ReportStopped(i) => is_stop_for(i, s),
                    _ => false,
                }) && effects@[1] == Effect::Player(MpvAction::Stop),
                None => effects@ == seq![Effect::Player(MpvAction::Stop)],
            }),
            request.command@ == "NextTrack"@ ==> adjacent_outcome_ok(
                effects@,
                *old(self),
                final(self).playback,
                true,
            ),
            request.command@ == "PreviousTrack"@ ==> adjacent_outcome_ok(
                effects@,
                *old(self),
                final(self).playback,
                false,
            ),
            !(request.command@ == "Pause"@ || request.command@ == "Unpause"@ || request.command@
                == "PlayPause"@ || request.command@ == "Seek"@ || request.command@ == "Stop"@
                || request.command@ == "NextTrack"@ || request.command@ == "PreviousTrack"@) ==> (
            final(self).playback == old(self).playback && effects@.len() == 0),
    {
        proof {
            reveal_strlit("Pause");
            reveal_strlit("Unpause");
            reveal_strlit("PlayPause");
            reveal_strlit("Seek");
            reveal_strlit("Stop");
            reveal_strlit("NextTrack");
            reveal_strlit("PreviousTrack");
            assert("Pause"@.len() == 5 && "Unpause"@.len() == 7 && "PlayPause"@.len() == 9
                && "Seek"@.len() == 4 && "Stop"@.len() == 4 && "NextTrack"@.len() == 9
                && "PreviousTrack"@.len() == 13);
            assert("Seek"@[0] == 'S' && "Stop"@[0] == 'S' && "Seek"@[1] == 'e' && "Stop"@[1]
                == 't');
            assert("PlayPause"@[0] == 'P' && "NextTrack"@[0] == 'N');
        }
        let mut effects: Vec<Effect> = Vec::new();
        let cmd = request.command.as_str();
        if str_eq(cmd, "Pause") {
            self.set_session_paused(true);
            effects.push(Effect::Player(MpvAction::Pause));
        } else if str_eq(cmd, "Unpause") {
            self.set_session_paused(false);
            effects.push(Effect::Player(MpvAction::Resume));
        } else if str_eq(cmd, "PlayPause") {
            let was_paused = match live_paused {
                Some(b) => b,
                None => match &self.playback {
                    Some(s) => s.is_paused,
                    None => false,
                },
            };
            if was_paused {
                self.set_session_paused(false);
                effects.push(Effect::Player(MpvAction::Resume));
            } else {
                self.set_session_paused(true);
                effects.push(Effect::Player(MpvAction::Pause));
            }
        } else if str_eq(cmd, "Seek") {
            match request.seek_position_ticks {
                Some(ticks) => {
                    match &mut self.playback {
                        Some(s) => {
                            s.position_ticks = ticks;
                        },
                        None => {},
                    }
                    effects.push(
                        Effect::Player(MpvAction::SeekMillis(ticks / TICKS_PER_MILLI)),
                    );
                },
                None => {},
            }
        } else if str_eq(cmd, "Stop") {
            match self.take_stop_report() {
                Some(i) => effects.push(Effect::ReportStopped(i)),
                None => {},
            }
            effects.push(Effect::Player(MpvAction::Stop));
        } else if str_eq(cmd, "NextTrack") {
            self.push_adjacent_effects(&mut effects, true);
            proof {
                assert(effects@.skip(0) =~= effects@);
            }
        } else if str_eq(cmd, "PreviousTrack") {
            self.push_adjacent_effects(&mut effects, false);
            proof {
                assert(effects@.skip(0) =~= effects@);
            }
        }
        effects
    }

    /// Set the session's pause bit, where a session exists.
    fn set_session_paused(&mut self, paused: bool)
        ensures
            final(self).playback == with_paused(old(self).playback, paused),
            final(self).current_item == old(self).current_item,
            final(self).current_series_id == old(self).current_series_id,
            final(self).current_media_streams == old(self).current_media_streams,
            final(self).preferences == old(self).preferences,
    {
        match &mut self.playback {
            Some(s) => {
                s.is_paused = paused;
            },
            None => {},
        }
    }

    /// Stop the live session, reporting it, and ask for the adjacent
    /// episode of the current item, where one is known.
    fn push_adjacent_effects(&mut self, effects: &mut Vec<Effect>, next: bool)
        ensures
            final(self).current_item == old(self).current_item,
            final(self).current_series_id == old(self).current_series_id,
            final(self).current_media_streams == old(self).current_media_streams,
            final(self).preferences == old(self).preferences,
            adjacent_outcome_ok_from(
                old(effects)@,
                final(effects)@,
                *old(self),
                final(self).playback,
                next,
            ),
    {
        let ghost n = effects@.len() as int;
        match &self.current_item {
            Some(item) => {
                let it = item.duplicate();
                match self.take_stop_report() {
                    Some(i) => {
                        effects.push(Effect::ReportStopped(i));
                        effects.push(Effect::FetchAdjacent { next, item: it });
                        proof {
                            assert(effects@.take(n) =~= old(effects)@);
                            assert(effects@.skip(n).len() == 2);
                            assert(effects@.skip(n)[0] == effects@[n]);
                            assert(effects@.skip(n)[1] == effects@[n + 1]);
                        }
                    },
                    None => {
                        effects.push(Effect::FetchAdjacent { next, item: it });
                        proof {
                            assert(effects@.take(n) =~= old(effects)@);
                            assert(effects@.skip(n) =~= seq![
                                Effect::FetchAdjacent { next, item: old(self).current_item->Some_0 },
                            ]);
                        }
                    },
                }
            },
            None => {
                proof {
                    assert(effects@.take(n) =~= old(effects)@);
                    assert(effects@.skip(n).len() == 0);
                }
            },
        }
    }

    /// Handle a general command from the server: volume, mute, fullscreen,
    /// or a track choice. Choosing a track also stores the series'
    /// preference and asks for it to be persisted.
    pub fn on_general_command(&mut self, request: &GeneralCommand) -> (effects: Vec<Effect>)
        requires
            old(self).current_media_streams@.len() < 0x8000_0000,
        ensures
            final(self).current_item == old(self).current_item,
            final(self).current_series_id == old(self).current_series_id,
            final(self).current_media_streams == old(self).current_media_streams,
            request.name@ == "SetVolume"@ ==> final(self).preferences == old(self).preferences && (
            match volume_arg_val(request.arguments) {
                Some(v) => final(self).playback == with_volume(old(self).playback, v as i32)
                    && effects@ == seq![Effect::Player(MpvAction::SetVolume(v as i32))],
                None => final(self).playback == old(self).playback && effects@.len() == 0,
            }),
            request.name@ == "ToggleMute"@ ==> final(self).playback == old(self).playback
                && final(self).preferences == old(self).preferences && effects@ == seq![
                Effect::Player(MpvAction::ToggleMute),
            ],
            request.name@ == "ToggleFullscreen"@ ==> final(self).playback == old(self).playback
                && final(self).preferences == old(self).preferences && effects@ == seq![
                Effect::Player(MpvAction::ToggleFullscreen),
            ],
            request.name@ == "SetAudioStreamIndex"@ ==> (match index_arg_val(request.arguments) {
                None => final(self).playback == old(self).playback && final(self).preferences
                    == old(self).preferences && effects@.len() == 0,
                Some(v) => {
                    &&& final(self).playback == with_audio_index(old(self).playback, v as i32)
                    &&& (match old(self).current_series_id {
                        None => final(self).preferences == old(self).preferences && effects@.len()
                            == 1 && audio_action_ok(
                            effects@[0],
                            old(self).current_media_streams@,
                            v as i32,
                        ),
                        Some(sid) => audio_pref_updated(
                            old(self).preferences.entries@,
                            final(self).preferences.entries@,
                            sid@,
                            old(self).current_media_streams@,
                            v as i32,
                        ) && audio_action_ok(
                            effects@[0],
                            old(self).current_media_streams@,
                            v as i32,
                        ) && (if exists|p: int|
                            #[trigger] is_first_index_match(
                                old(self).current_media_streams@,
                                "Audio"@,
                                v as i32,
                                p,
                            ) {
                            effects@.len() == 2 && effects@[1] == Effect::SavePreferences
                        } else {
                            effects@.len() == 1
                        }),
                    })
                },
            }),
            request.name@ == "SetSubtitleStreamIndex"@ ==> (match index_arg_val(
                request.arguments,
            ) {
                None => final(self).playback == old(self).playback && final(self).preferences
                    == old(self).preferences && effects@.len() == 0,
                Some(v) => {
                    &&& final(self).playback == with_subtitle_index(old(self).playback, v as i32)
                    &&& (match old(self).current_series_id {
                        None => final(self).preferences == old(self).preferences && effects@.len()
                            == 1 && subtitle_action_ok(
                            effects@[0],
                            old(self).current_media_streams@,
                            v as i32,
                        ),
                        Some(sid) => subtitle_pref_updated(
                            old(self).preferences.entries@,
                            final(self).preferences.entries@,
                            sid@,
                            old(self).current_media_streams@,
                            v as i32,
                        ) && effects@.len() == 2 && subtitle_action_ok(
                            effects@[0],
                            old(self).current_media_streams@,
                            v as i32,
                        ) && effects@[1] == Effect::SavePreferences,
                    })
                },
            }),
            !(request.name@ == "SetVolume"@ || request.name@ == "ToggleMute"@ || request.name@
                == "ToggleFullscreen"@ || request.name@ == "SetAudioStreamIndex"@ || request.name@
                == "SetSubtitleStreamIndex"@) ==> (final(self).playback == old(self).playback
                && final(self).preferences == old(self).preferences && effects@.len() == 0),
    {
        proof {
            reveal_strlit("SetVolume");
            reveal_strlit("ToggleMute");
            reveal_strlit("ToggleFullscreen");
            reveal_strlit("SetAudioStreamIndex");
            reveal_strlit("SetSubtitleStreamIndex");
            reveal_strlit("Audio");
            reveal_strlit("Subtitle");
            assert("SetVolume"@.len() == 9 && "ToggleMute"@.len() == 10 && "ToggleFullscreen"@.len()
                == 16 && "SetAudioStreamIndex"@.len() == 19 && "SetSubtitleStreamIndex"@.len()
                == 22);
        }
        let mut effects: Vec<Effect> = Vec::new();
        let name = request.name.as_str();
        if str_eq(name, "SetVolume") {
            match volume_arg(&request.arguments) {
                Some(v) => {
                    let vol: i32 = #[verifier::truncate] (v as i32);
                    match &mut self.playback {
                        Some(s) => {
                            s.volume = vol;
                        },
                        None => {},
                    }
                    effects.push(Effect::Player(MpvAction::SetVolume(vol)));
                },
                None => {},
            }
        } else if str_eq(name, "ToggleMute") {
            effects.push(Effect::Player(MpvAction::ToggleMute));
        } else if str_eq(name, "ToggleFullscreen") {
            effects.push(Effect::Player(MpvAction::ToggleFullscreen));
        } else if str_eq(name, "SetAudioStreamIndex") {
            match index_arg(&request.arguments) {
                Some(v) => {
                    let idx: i32 = #[verifier::truncate] (v as i32);
                    match &mut self.playback {
                        Some(s) => {
                            s.audio_stream_index = Some(idx);
                        },
                        None => {},
                    }
                    let mut saved = false;
                    let sid_opt = clone_opt_string(&self.current_series_id);
                    match &sid_opt {
                        Some(sid) => {
                            match find_stream_info(&self.current_media_streams, "Audio", idx) {
                                Some(info) => {
                                    let base = match self.preferences.get(sid.as_str()) {
                                        Some(p) => p,
                                        None => TrackPreference::empty(),
                                    };
                                    let updated = TrackPreference {
                                        audio_language: info.0,
                                        audio_title: info.1,
                                        ..base
                                    };
                                    self.preferences.put(sid.as_str(), updated);
                                    saved = true;
                                },
                                None => {},
                            }
                        },
                        None => {},
                    }
                    let m = jellyfin_to_mpv_track_index(&self.current_media_streams, "Audio", idx);
                    effects.push(Effect::Player(MpvAction::SetAudioTrack(m)));
                    if saved {
                        effects.push(Effect::SavePreferences);
                    }
                },
                None => {},
            }
        } else if str_eq(name, "SetSubtitleStreamIndex") {
            match index_arg(&request.arguments) {
                Some(v) => {
                    let idx: i32 = #[verifier::truncate] (v as i32);
                    match &mut self.playback {
                        Some(s) => {
                            s.subtitle_stream_index = Some(idx);
                        },
                        None => {},
                    }
                    let mut saved = false;
                    let sid_opt = clone_opt_string(&self.current_series_id);
                    match &sid_opt {
                        Some(sid) => {
                            let base = match self.preferences.get(sid.as_str()) {
                                Some(p) => p,
                                None => TrackPreference::empty(),
                            };
                            if idx == -1 {
                                let updated = TrackPreference {
                                    is_subtitle_enabled: false,
                                    subtitle_language: None,
                                    subtitle_title: None,
                                    ..base
                                };
                                self.preferences.put(sid.as_str(), updated);
                            } else {
                                match find_stream_info(
                                    &self.current_media_streams,
                                    "Subtitle",
                                    idx,
                                ) {
                                    Some(info) => {
                                        let updated = TrackPreference {
                                            is_subtitle_enabled: true,
                                            subtitle_language: info.0,
                                            subtitle_title: info.1,
                                            ..base
                                        };
                                        self.preferences.put(sid.as_str(), updated);
                                    },
                                    None => {
                                        let updated = TrackPreference {
                                            is_subtitle_enabled: true,
                                            ..base
                                        };
                                        self.preferences.put(sid.as_str(), updated);
                                    },
                                }
                            }
                            saved = true;
                        },
                        None => {},
                    }
                    let m: i32 = if idx == -1 {
                        -1
                    } else {
                        jellyfin_to_mpv_track_index(&self.current_media_streams, "Subtitle", idx)
                    };
                    effects.push(Effect::Player(MpvAction::SetSubtitleTrack(m)));
                    if saved {
                        effects.push(Effect::SavePreferences);
                    }
                },
                None => {},
            }
        }
        effects
    }

    /// Handle an event from the player: a property change updates the
    /// session and reports progress — user-driven changes at once, the
    /// clock only after the report interval has passed — a natural end of
    /// file or a remapped key advances within the series.
    pub fn on_player_event(
        &mut self,
        event: &MpvEvent,
        millis_since_report: i64,
        report_interval_millis: i64,
    ) -> (effects: Vec<Effect>)
        requires
            event.data matches Some(d) ==> (d matches PropertyData::Millis(m) ==> 0 <= m
                <= 0x7fff_ffff_ffff),
        ensures
            final(self).current_item == old(self).current_item,
            final(self).current_series_id == old(self).current_series_id,
            final(self).current_media_streams == old(self).current_media_streams,
            final(self).preferences == old(self).preferences,
            event.event@ == "property-change"@ && (event.name matches Some(n) && n@ == "pause"@)
                ==> final(self).playback == (match event.data {
                Some(PropertyData::Bool(b)) => with_paused(old(self).playback, b),
                _ => old(self).playback,
            }) && progress_effects_ok(effects@, final(self).playback),
            event.event@ == "property-change"@ && (event.name matches Some(n) && n@ == "volume"@)
                ==> final(self).playback == (match event.data {
                Some(PropertyData::Millis(m)) => with_volume(
                    old(self).playback,
                    ((m as int) / 1000) as i32,
                ),
                _ => old(self).playback,
            }) && progress_effects_ok(effects@, final(self).playback),
            event.event@ == "property-change"@ && (event.name matches Some(n) && n@ == "mute"@)
                ==> final(self).playback == (match event.data {
                Some(PropertyData::Bool(b)) => with_muted(old(self).playback, b),
                _ => old(self).playback,
            }) && progress_effects_ok(effects@, final(self).playback),
            event.event@ == "property-change"@ && (event.name matches Some(n) && n@ == "time-pos"@)
                ==> final(self).playback == (match event.data {
                Some(PropertyData::Millis(m)) => with_position(
                    old(self).playback,
                    ((m as int) * (TICKS_PER_MILLI as int)) as i64,
                ),
                _ => old(self).playback,
            }) && (if millis_since_report >= report_interval_millis {
                progress_effects_ok(effects@, final(self).playback)
            } else {
                effects@.len() == 0
            }),
            event.event@ == "end-file"@ ==> (if event.reason matches Some(r) && r@ == "eof"@ {
                adjacent_outcome_ok(effects@, *old(self), final(self).playback, true)
            } else {
                final(self).playback == old(self).playback && effects@.len() == 0
            }),
            event.event@ == "client-message"@ ==> (match event.args {
                Some(args) => if args@.len() > 0 && args@[0]@ == "jmsr-next"@ {
                    adjacent_outcome_ok(effects@, *old(self), final(self).playback, true)
                } else if args@.len() > 0 && args@[0]@ == "jmsr-prev"@ {
                    adjacent_outcome_ok(effects@, *old(self), final(self).playback, false)
                } else {
                    final(self).playback == old(self).playback && effects@.len() == 0
                },
                None => final(self).playback == old(self).playback && effects@.len() == 0,
            }),
            !(event.event@ == "property-change"@ || event.event@ == "end-file"@ || event.event@
                == "client-message"@) ==> (final(self).playback == old(self).playback
                && effects@.len() == 0),
            event.event@ == "property-change"@ && (match event.name {
                Some(n) => !(n@ == "pause"@ || n@ == "volume"@ || n@ == "mute"@ || n@
                    == "time-pos"@),
                None => true,
            }) ==> (final(self).playback == old(self).playback && effects@.len() == 0),
    {
        proof {
            reveal_strlit("property-change");
            reveal_strlit("end-file");
            reveal_strlit("client-message");
            reveal_strlit("pause");
            reveal_strlit("volume");
            reveal_strlit("mute");
            reveal_strlit("time-pos");
            reveal_strlit("eof");
            reveal_strlit("jmsr-next");
            reveal_strlit("jmsr-prev");
            assert("property-change"@.len() == 15 && "end-file"@.len() == 8
                && "client-message"@.len() == 14);
            assert("pause"@.len() == 5 && "volume"@.len() == 6 && "mute"@.len() == 4
                && "time-pos"@.len() == 8);
            assert("jmsr-next"@.len() == 9 && "jmsr-prev"@.len() == 9);
            assert("jmsr-next"@[5] == 'n' && "jmsr-prev"@[5] == 'p');
            assert("end-file"@[0] == 'e' && "client-message"@[0] == 'c');
            reveal_strlit("");
            assert(""@.len() == 0);
        }
        let mut effects: Vec<Effect> = Vec::new();
        let kind = event.event.as_str();
        if str_eq(kind, "property-change") {
            let name: &str = match &event.name {
                Some(n) => n.as_str(),
                None => "",
            };
            if str_eq(name, "pause") {
                match &event.data {
                    Some(PropertyData::Bool(b)) => {
                        let paused = *b;
                        self.set_session_paused(paused);
                    },
                    _ => {},
                }
                self.push_progress_report(&mut effects);
            } else if str_eq(name, "volume") {
                match &event.data {
                    Some(PropertyData::Millis(m)) => {
                        let vol: i32 = #[verifier::truncate] ((*m / 1000) as i32);
                        match &mut self.playback {
                            Some(s) => {
                                s.volume = vol;
                            },
                            None => {},
                        }
                    },
                    _ => {},
                }
                self.push_progress_report(&mut effects);
            } else if str_eq(name, "mute") {
                match &event.data {
                    Some(PropertyData::Bool(b)) => {
                        let muted = *b;
                        match &mut self.playback {
                            Some(s) => {
                                s.is_muted = muted;
                            },
                            None => {},
                        }
                    },
                    _ => {},
                }
                self.push_progress_report(&mut effects);
            } else if str_eq(name, "time-pos") {
                match &event.data {
                    Some(PropertyData::Millis(m)) => {
                        let ticks = *m * TICKS_PER_MILLI;
                        match &mut self.playback {
                            Some(s) => {
                                s.position_ticks = ticks;
                            },
                            None => {},
                        }
                    },
                    _ => {},
                }
                if millis_since_report >= report_interval_millis {
                    self.push_progress_report(&mut effects);
                }
            }
        } else if str_eq(kind, "end-file") {
            let is_eof = match &event.reason {
                Some(r) => str_eq(r.as_str(), "eof"),
                None => false,
            };
            if is_eof {
                self.push_adjacent_effects(&mut effects, true);
                proof {
                    assert(effects@.skip(0) =~= effects@);
                }
            }
        } else if str_eq(kind, "client-message") {
            match &event.args {
                Some(args) => {
                    if args.len() > 0 {
                        if str_eq(args[0].as_str(), "jmsr-next") {
                            self.push_adjacent_effects(&mut effects, true);
                            proof {
                                assert(effects@.skip(0) =~= effects@);
                            }
                        } else if str_eq(args[0].as_str(), "jmsr-prev") {
                            self.push_adjacent_effects(&mut effects, false);
                            proof {
                                assert(effects@.skip(0) =~= effects@);
                            }
                        }
                    }
                },
                None => {},
            }
        }
        effects
    }

    /// Append the live session's progress report, where one is live.
    fn push_progress_report(&self, effects: &mut Vec<Effect>)
        ensures
            final(effects)@.len() >= old(effects)@.len(),
            final(effects)@.take(old(effects)@.len() as int) == old(effects)@,
            progress_effects_ok(final(effects)@.skip(old(effects)@.len() as int), self.playback),
    {
        let ghost n = effects@.len() as int;
        match &self.playback {
            Some(s) => {
                effects.push(Effect::ReportProgress(progress_report(s)));
                proof {
                    assert(effects@.take(n) =~= old(effects)@);
                    assert(effects@.skip(n).len() == 1);
                    assert(effects@.skip(n)[0] == effects@[n]);
                }
            },
            None => {
                proof {
                    assert(effects@.take(n) =~= old(effects)@);
                    assert(effects@.skip(n).len() == 0);
                }
            },
        }
    }

    /// An adjacent-episode lookup came back empty: nothing follows, so the
    /// current item is forgotten.
    pub fn on_adjacent_missing(&mut self)
        ensures
            final(self).playback == old(self).playback,
            final(self).current_series_id is None,
            final(self).current_item is None,
            final(self).current_media_streams == old(self).current_media_streams,
            final(self).preferences == old(self).preferences,
    {
        self.current_item = None;
        self.current_series_id = None;
    }
}

/// A stored audio preference carries over to later plays: once a series'
/// preference names a language — as choosing an audio track stores it — a
/// play in that series whose request names no audio index resolves to a
/// stream with that language, whenever the new source has one.
pub proof fn lemma_preference_applies(
    prefs: Seq<crate::prefs::PrefEntry>,
    sid: String,
    lang: String,
    streams: Seq<MediaStream>,
    r: Option<i32>,
)
    requires
        spec_get(prefs, sid@) matches Some(p) && p.audio_language == Some(lang),
        audio_choice_ok(prefs, Some(sid), streams, None, r),
        exists|q: int|
            0 <= q < streams.len() && lang_matches(#[trigger] streams[q], "Audio"@, lang@),
    ensures
        r matches Some(idx) && exists|q: int|
            0 <= q < streams.len() && lang_matches(#[trigger] streams[q], "Audio"@, lang@)
                && streams[q].index == idx,
{
    let p = spec_get(prefs, sid@)->Some_0;
    assert(lang_pick_ok(streams, "Audio"@, lang@, p.audio_title, r));
    if r is None {
        let q = choose|q: int|
            0 <= q < streams.len() && lang_matches(#[trigger] streams[q], "Audio"@, lang@);
        assert(!lang_matches(streams[q], "Audio"@, lang@));
    }
}

} // verus!
