//! The player's JSON IPC wire protocol.
//!
//! Outgoing commands are newline-delimited JSON objects
//! `{"command":[...],"request_id":N}`. This module builds those lines
//! character by character, with an exact specification of the JSON string
//! escaping, so that the bytes handed to the player are pinned down by the
//! contracts. Incoming lines are decoded outside and arrive as the typed
//! `MpvResponse` and `MpvEvent` values below.

use vstd::prelude::*;

use crate::text::{dec_str, dec_str_nat, digit_char, i64_to_string, push_char, str_eq, u64_to_string};

verus! {

/// The hexadecimal digit character for a value below sixteen.
pub open spec fn hex_digit_char(d: int) -> char {
    if d < 10 {
        digit_char(d)
    } else if d == 10 {
        'a'
    } else if d == 11 {
        'b'
    } else if d == 12 {
        'c'
    } else if d == 13 {
        'd'
    } else if d == 14 {
        'e'
    } else {
        'f'
    }
}

/// How one character appears inside a JSON string literal.
pub open spec fn json_escaped_char(c: char) -> Seq<char> {
    if c == '"' {
        seq!['\\', '"']
    } else if c == '\\' {
        seq!['\\', '\\']
    } else if c == '\n' {
        seq!['\\', 'n']
    } else if c == '\r' {
        seq!['\\', 'r']
    } else if c == '\t' {
        seq!['\\', 't']
    } else if c == '\u{0008}' {
        seq!['\\', 'b']
    } else if c == '\u{000C}' {
        seq!['\\', 'f']
    } else if (c as u32) < 0x20 {
        seq!['\\', 'u', '0', '0', hex_digit_char((c as u32) as int / 16), hex_digit_char(
            (c as u32) as int % 16,
        )]
    } else {
        seq![c]
    }
}

/// How a character sequence appears inside a JSON string literal.
pub open spec fn json_escaped(s: Seq<char>) -> Seq<char>
    decreases s.len(),
{
    if s.len() == 0 {
        Seq::empty()
    } else {
        json_escaped(s.drop_last()) + json_escaped_char(s.last())
    }
}

/// A JSON string literal: the escaped characters between double quotes.
pub open spec fn json_quoted(s: Seq<char>) -> Seq<char> {
    seq!['"'] + json_escaped(s) + seq!['"']
}

/// A millisecond count rendered as decimal seconds with three fractional
/// digits, the way the player reads time values.
pub open spec fn millis_str(m: int) -> Seq<char> {
    if m < 0 {
        seq!['-'] + millis_str_nn(-m)
    } else {
        millis_str_nn(m)
    }
}

/// Rendering of a non-negative millisecond count as decimal seconds.
pub open spec fn millis_str_nn(m: int) -> Seq<char> {
    dec_str_nat((m / 1000) as nat) + seq!['.', digit_char((m / 100) % 10), digit_char(
        (m / 10) % 10,
    ), digit_char(m % 10)]
}

/// One argument of a player command.
#[derive(Debug, Clone, PartialEq)]
pub enum CmdArg {
    /// A string argument.
    Text(String),
    /// An integer argument.
    Int(i64),
    /// A boolean argument.
    Bool(bool),
    /// A time argument held as milliseconds, rendered as decimal seconds.
    Millis(i64),
}

/// How one argument appears on the wire.
pub open spec fn arg_json(a: CmdArg) -> Seq<char> {
    match a {
        CmdArg::Text(s) => json_quoted(s@),
        CmdArg::Int(n) => dec_str(n as int),
        CmdArg::Bool(b) => if b {
            seq!['t', 'r', 'u', 'e']
        } else {
            seq!['f', 'a', 'l', 's', 'e']
        },
        CmdArg::Millis(m) => millis_str(m as int),
    }
}

/// How an argument list appears on the wire: the arguments joined by commas.
pub open spec fn args_json(args: Seq<CmdArg>) -> Seq<char>
    decreases args.len(),
{
    if args.len() == 0 {
        Seq::empty()
    } else if args.len() == 1 {
        arg_json(args[0])
    } else {
        args_json(args.drop_last()) + seq![','] + arg_json(args.last())
    }
}

/// A command for the player, correlated with its response by `request_id`.
#[derive(Debug, Clone, PartialEq)]
pub struct MpvCommand {
    pub command: Vec<CmdArg>,
    pub request_id: i64,
}

/// How a whole command appears on the wire, without the trailing newline.
pub open spec fn command_json(command: Seq<CmdArg>, request_id: int) -> Seq<char> {
    "{\"command\":["@ + args_json(command) + "],\"request_id\":"@ + dec_str(request_id) + "}"@
}

/// Whether an argument is the given text.
pub open spec fn arg_is_text(a: CmdArg, s: Seq<char>) -> bool {
    a matches CmdArg::Text(t) && t@ == s
}

fn append_escaped_char(out: &mut String, c: char)
    ensures
        final(out)@ == old(out)@ + json_escaped_char(c),
{
    if c == '"' {
        push_char(out, '\\');
        push_char(out, '"');
    } else if c == '\\' {
        push_char(out, '\\');
        push_char(out, '\\');
    } else if c == '\n' {
        push_char(out, '\\');
        push_char(out, 'n');
    } else if c == '\r' {
        push_char(out, '\\');
        push_char(out, 'r');
    } else if c == '\t' {
        push_char(out, '\\');
        push_char(out, 't');
    } else if c == '\u{0008}' {
        push_char(out, '\\');
        push_char(out, 'b');
    } else if c == '\u{000C}' {
        push_char(out, '\\');
        push_char(out, 'f');
    } else if (c as u32) < 0x20 {
        push_char(out, '\\');
        push_char(out, 'u');
        push_char(out, '0');
        push_char(out, '0');
        let code = c as u32;
        push_char(out, hex_digit_exec(code / 16));
        push_char(out, hex_digit_exec(code % 16));
    } else {
        push_char(out, c);
    }
    proof {
        assert(final(out)@ =~= old(out)@ + json_escaped_char(c));
    }
}

fn hex_digit_exec(d: u32) -> (r: char)
    requires
        d < 16,
    ensures
        r == hex_digit_char(d as int),
{
    if d == 0 {
        '0'
    } else if d == 1 {
        '1'
    } else if d == 2 {
        '2'
    } else if d == 3 {
        '3'
    } else if d == 4 {
        '4'
    } else if d == 5 {
        '5'
    } else if d == 6 {
        '6'
    } else if d == 7 {
        '7'
    } else if d == 8 {
        '8'
    } else if d == 9 {
        '9'
    } else if d == 10 {
        'a'
    } else if d == 11 {
        'b'
    } else if d == 12 {
        'c'
    } else if d == 13 {
        'd'
    } else if d == 14 {
        'e'
    } else {
        'f'
    }
}

fn append_escaped(out: &mut String, s: &str)
    ensures
        final(out)@ == old(out)@ + json_escaped(s@),
{
    let slen = s.unicode_len();
    let mut i: usize = 0;
    while i < slen
        invariant
            0 <= i <= slen,
            slen == s@.len(),
            out@ == old(out)@ + json_escaped(s@.take(i as int)),
        decreases slen - i,
    {
        let c = s.get_char(i);
        append_escaped_char(out, c);
        proof {
            assert(s@.take(i + 1).drop_last() =~= s@.take(i as int));
            assert(s@.take(i + 1).last() == s@[i as int]);
            assert(out@ =~= old(out)@ + json_escaped(s@.take(i + 1)));
        }
        i += 1;
    }
    proof {
        assert(s@.take(slen as int) =~= s@);
    }
}

fn append_quoted(out: &mut String, s: &str)
    ensures
        final(out)@ == old(out)@ + json_quoted(s@),
{
    push_char(out, '"');
    append_escaped(out, s);
    push_char(out, '"');
    proof {
        assert(final(out)@ =~= old(out)@ + json_quoted(s@));
    }
}

/// Render a millisecond count as decimal seconds with three fractional
/// digits.
pub fn millis_to_seconds_string(m: i64) -> (r: String)
    ensures
        r@ == millis_str(m as int),
{
    let neg = m < 0;
    let mag: u64 = if m == i64::MIN {
        9_223_372_036_854_775_808u64
    } else if m < 0 {
        (-m) as u64
    } else {
        m as u64
    };
    let mut out = if neg {
        let mut s = String::from_str("-");
        proof {
            reveal_strlit("-");
        }
        s
    } else {
        String::new()
    };
    out.append(u64_to_string(mag / 1000).as_str());
    push_char(&mut out, '.');
    push_char(&mut out, digit_exec((mag / 100) % 10));
    push_char(&mut out, digit_exec((mag / 10) % 10));
    push_char(&mut out, digit_exec(mag % 10));
    proof {
        assert(out@ =~= millis_str(m as int));
    }
    out
}

fn digit_exec(d: u64) -> (r: char)
    requires
        d < 10,
    ensures
        r == digit_char(d as int),
{
    if d == 0 {
        '0'
    } else if d == 1 {
        '1'
    } else if d == 2 {
        '2'
    } else if d == 3 {
        '3'
    } else if d == 4 {
        '4'
    } else if d == 5 {
        '5'
    } else if d == 6 {
        '6'
    } else if d == 7 {
        '7'
    } else if d == 8 {
        '8'
    } else {
        '9'
    }
}

impl MpvCommand {
    /// Render the command as its JSON wire line, without the newline.
    pub fn to_json_line(&self) -> (r: String)
        ensures
            r@ == command_json(self.command@, self.request_id as int),
    {
        let mut out = String::from_str("{\"command\":[");
        proof {
            reveal_strlit("{\"command\":[");
        }
        let n = self.command.len();
        let mut i: usize = 0;
        while i < n
            invariant
                0 <= i <= n,
                n == self.command@.len(),
                out@ == "{\"command\":["@ + args_json(self.command@.take(i as int)),
            decreases n - i,
        {
            if i > 0 {
                push_char(&mut out, ',');
            }
            match &self.command[i] {
                CmdArg::Text(s) => append_quoted(&mut out, s.as_str()),
                CmdArg::Int(v) => out.append(i64_to_string(*v).as_str()),
                CmdArg::Bool(b) => {
                    proof {
                        reveal_strlit("true");
                        reveal_strlit("false");
                    }
                    if *b {
                        out.append("true");
                    } else {
                        out.append("false");
                    }
                },
                CmdArg::Millis(m) => out.append(millis_to_seconds_string(*m).as_str()),
            }
            proof {
                assert(self.command@.take(i + 1).drop_last() =~= self.command@.take(i as int));
                assert(self.command@.take(i + 1).last() == self.command@[i as int]);
                if i > 0 {
                    assert(out@ =~= "{\"command\":["@ + args_json(self.command@.take(i + 1)));
                } else {
                    assert(self.command@.take(1) =~= seq![self.command@[0]]);
                    assert(out@ =~= "{\"command\":["@ + args_json(self.command@.take(i + 1)));
                }
            }
            i += 1;
        }
        proof {
            assert(self.command@.take(n as int) =~= self.command@);
        }
        out.append("],\"request_id\":");
        proof {
            reveal_strlit("],\"request_id\":");
        }
        out.append(i64_to_string(self.request_id).as_str());
        push_char(&mut out, '}');
        proof {
            reveal_strlit("}");
            assert("}"@ =~= seq!['}']);
            assert(out@ =~= command_json(self.command@, self.request_id as int));
        }
        out
    }
}

impl MpvCommand {
    /// A command from explicit arguments.
    pub fn new(args: Vec<CmdArg>, request_id: i64) -> (c: MpvCommand)
        ensures
            c.command == args,
            c.request_id == request_id,
    {
        MpvCommand { command: args, request_id }
    }

    /// Load a file for playback.
    pub fn loadfile(url: &str, request_id: i64) -> (c: MpvCommand)
        ensures
            c.command@.len() == 2,
            arg_is_text(c.command@[0], "loadfile"@),
            arg_is_text(c.command@[1], url@),
            c.request_id == request_id,
    {
        let mut args: Vec<CmdArg> = Vec::new();
        args.push(CmdArg::Text(String::from_str("loadfile")));
        args.push(CmdArg::Text(String::from_str(url)));
        MpvCommand { command: args, request_id }
    }

    /// Load a file, replacing the current one, with load options applied
    /// atomically: start position and track choices take effect with the
    /// load itself.
    pub fn loadfile_with_options(url: &str, options: &str, request_id: i64) -> (c: MpvCommand)
        ensures
            c.command@.len() == 4,
            arg_is_text(c.command@[0], "loadfile"@),
            arg_is_text(c.command@[1], url@),
            arg_is_text(c.command@[2], "replace"@),
            arg_is_text(c.command@[3], options@),
            c.request_id == request_id,
    {
        let mut args: Vec<CmdArg> = Vec::new();
        args.push(CmdArg::Text(String::from_str("loadfile")));
        args.push(CmdArg::Text(String::from_str(url)));
        args.push(CmdArg::Text(String::from_str("replace")));
        args.push(CmdArg::Text(String::from_str(options)));
        MpvCommand { command: args, request_id }
    }

    /// Seek to an absolute position.
    pub fn seek(position_millis: i64, request_id: i64) -> (c: MpvCommand)
        ensures
            c.command@.len() == 3,
            arg_is_text(c.command@[0], "seek"@),
            c.command@[1] == CmdArg::Millis(position_millis),
            arg_is_text(c.command@[2], "absolute"@),
            c.request_id == request_id,
    {
        let mut args: Vec<CmdArg> = Vec::new();
        args.push(CmdArg::Text(String::from_str("seek")));
        args.push(CmdArg::Millis(position_millis));
        args.push(CmdArg::Text(String::from_str("absolute")));
        MpvCommand { command: args, request_id }
    }

    /// Set the pause property.
    pub fn set_pause(paused: bool, request_id: i64) -> (c: MpvCommand)
        ensures
            c.command@.len() == 3,
            arg_is_text(c.command@[0], "set_property"@),
            arg_is_text(c.command@[1], "pause"@),
            c.command@[2] == CmdArg::Bool(paused),
            c.request_id == request_id,
    {
        let mut args: Vec<CmdArg> = Vec::new();
        args.push(CmdArg::Text(String::from_str("set_property")));
        args.push(CmdArg::Text(String::from_str("pause")));
        args.push(CmdArg::Bool(paused));
        MpvCommand { command: args, request_id }
    }

    /// Set the volume property.
    pub fn set_volume(volume: i64, request_id: i64) -> (c: MpvCommand)
        ensures
            c.command@.len() == 3,
            arg_is_text(c.command@[0], "set_property"@),
            arg_is_text(c.command@[1], "volume"@),
            c.command@[2] == CmdArg::Int(volume),
            c.request_id == request_id,
    {
        let mut args: Vec<CmdArg> = Vec::new();
        args.push(CmdArg::Text(String::from_str("set_property")));
        args.push(CmdArg::Text(String::from_str("volume")));
        args.push(CmdArg::Int(volume));
        MpvCommand { command: args, request_id }
    }

    /// Select an audio track by the player's track id.
    pub fn set_audio_track(track_id: i64, request_id: i64) -> (c: MpvCommand)
        ensures
            c.command@.len() == 3,
            arg_is_text(c.command@[0], "set_property"@),
            arg_is_text(c.command@[1], "aid"@),
            c.command@[2] == CmdArg::Int(track_id),
            c.request_id == request_id,
    {
        let mut args: Vec<CmdArg> = Vec::new();
        args.push(CmdArg::Text(String::from_str("set_property")));
        args.push(CmdArg::Text(String::from_str("aid")));
        args.push(CmdArg::Int(track_id));
        MpvCommand { command: args, request_id }
    }

    /// Select a subtitle track by the player's track id.
    pub fn set_subtitle_track(track_id: i64, request_id: i64) -> (c: MpvCommand)
        ensures
            c.command@.len() == 3,
            arg_is_text(c.command@[0], "set_property"@),
            arg_is_text(c.command@[1], "sid"@),
            c.command@[2] == CmdArg::Int(track_id),
            c.request_id == request_id,
    {
        let mut args: Vec<CmdArg> = Vec::new();
        args.push(CmdArg::Text(String::from_str("set_property")));
        args.push(CmdArg::Text(String::from_str("sid")));
        args.push(CmdArg::Int(track_id));
        MpvCommand { command: args, request_id }
    }

    /// Observe a property for changes under the given observer id.
    pub fn observe_property(observer_id: i64, name: &str, request_id: i64) -> (c: MpvCommand)
        ensures
            c.command@.len() == 3,
            arg_is_text(c.command@[0], "observe_property"@),
            c.command@[1] == CmdArg::Int(observer_id),
            arg_is_text(c.command@[2], name@),
            c.request_id == request_id,
    {
        let mut args: Vec<CmdArg> = Vec::new();
        args.push(CmdArg::Text(String::from_str("observe_property")));
        args.push(CmdArg::Int(observer_id));
        args.push(CmdArg::Text(String::from_str(name)));
        MpvCommand { command: args, request_id }
    }

    /// Stop observing under the given observer id.
    pub fn unobserve_property(observer_id: i64, request_id: i64) -> (c: MpvCommand)
        ensures
            c.command@.len() == 2,
            arg_is_text(c.command@[0], "unobserve_property"@),
            c.command@[1] == CmdArg::Int(observer_id),
            c.request_id == request_id,
    {
        let mut args: Vec<CmdArg> = Vec::new();
        args.push(CmdArg::Text(String::from_str("unobserve_property")));
        args.push(CmdArg::Int(observer_id));
        MpvCommand { command: args, request_id }
    }

    /// Read a property value.
    pub fn get_property(name: &str, request_id: i64) -> (c: MpvCommand)
        ensures
            c.command@.len() == 2,
            arg_is_text(c.command@[0], "get_property"@),
            arg_is_text(c.command@[1], name@),
            c.request_id == request_id,
    {
        let mut args: Vec<CmdArg> = Vec::new();
        args.push(CmdArg::Text(String::from_str("get_property")));
        args.push(CmdArg::Text(String::from_str(name)));
        MpvCommand { command: args, request_id }
    }

    /// Ask the player to quit.
    pub fn quit(request_id: i64) -> (c: MpvCommand)
        ensures
            c.command@.len() == 1,
            arg_is_text(c.command@[0], "quit"@),
            c.request_id == request_id,
    {
        let mut args: Vec<CmdArg> = Vec::new();
        args.push(CmdArg::Text(String::from_str("quit")));
        MpvCommand { command: args, request_id }
    }

    /// Toggle a property, such as mute or fullscreen.
    pub fn cycle(property: &str, request_id: i64) -> (c: MpvCommand)
        ensures
            c.command@.len() == 2,
            arg_is_text(c.command@[0], "cycle"@),
            arg_is_text(c.command@[1], property@),
            c.request_id == request_id,
    {
        let mut args: Vec<CmdArg> = Vec::new();
        args.push(CmdArg::Text(String::from_str("cycle")));
        args.push(CmdArg::Text(String::from_str(property)));
        MpvCommand { command: args, request_id }
    }

    /// Set a string property, such as the forced media title.
    pub fn set_property_string(name: &str, value: &str, request_id: i64) -> (c: MpvCommand)
        ensures
            c.command@.len() == 3,
            arg_is_text(c.command@[0], "set_property"@),
            arg_is_text(c.command@[1], name@),
            arg_is_text(c.command@[2], value@),
            c.request_id == request_id,
    {
        let mut args: Vec<CmdArg> = Vec::new();
        args.push(CmdArg::Text(String::from_str("set_property")));
        args.push(CmdArg::Text(String::from_str(name)));
        args.push(CmdArg::Text(String::from_str(value)));
        MpvCommand { command: args, request_id }
    }

    /// Disable a track by setting its selector property to `no`.
    pub fn disable_track(property: &str, request_id: i64) -> (c: MpvCommand)
        ensures
            c.command@.len() == 3,
            arg_is_text(c.command@[0], "set_property"@),
            arg_is_text(c.command@[1], property@),
            arg_is_text(c.command@[2], "no"@),
            c.request_id == request_id,
    {
        let mut args: Vec<CmdArg> = Vec::new();
        args.push(CmdArg::Text(String::from_str("set_property")));
        args.push(CmdArg::Text(String::from_str(property)));
        args.push(CmdArg::Text(String::from_str("no")));
        MpvCommand { command: args, request_id }
    }
}

/// The load options a play action carries.
pub open spec fn loadfile_option_parts(
    start_millis: Option<i64>,
    audio_id: Option<i64>,
    subtitle_id: Option<i64>,
) -> Seq<Seq<char>> {
    (match start_millis {
        Some(m) => if m > 0 {
            seq!["start="@ + millis_str(m as int)]
        } else {
            Seq::empty()
        },
        None => Seq::empty(),
    }) + (match audio_id {
        Some(a) => seq!["aid="@ + dec_str(a as int)],
        None => Seq::empty(),
    }) + (match subtitle_id {
        Some(s) => if s == -1 {
            seq!["sid=no"@]
        } else {
            seq!["sid="@ + dec_str(s as int)]
        },
        None => Seq::empty(),
    })
}

/// Pieces joined by commas.
pub open spec fn join_commas(parts: Seq<Seq<char>>) -> Seq<char>
    decreases parts.len(),
{
    if parts.len() == 0 {
        Seq::empty()
    } else if parts.len() == 1 {
        parts[0]
    } else {
        join_commas(parts.drop_last()) + seq![','] + parts.last()
    }
}

/// Render the load options of a play action: a start position when one is
/// given and positive, an audio track id, and a subtitle track id where the
/// sentinel -1 turns subtitles off.
pub fn loadfile_options(
    start_millis: Option<i64>,
    audio_id: Option<i64>,
    subtitle_id: Option<i64>,
) -> (r: String)
    ensures
        r@ == join_commas(loadfile_option_parts(start_millis, audio_id, subtitle_id)),
        r@.len() == 0 <==> loadfile_option_parts(start_millis, audio_id, subtitle_id).len() == 0,
{
    let ghost all_parts = loadfile_option_parts(start_millis, audio_id, subtitle_id);
    let mut out = String::new();
    let mut any = false;
    match start_millis {
        Some(m) => {
            if m > 0 {
                out.append("start=");
                proof {
                    reveal_strlit("start=");
                }
                out.append(millis_to_seconds_string(m).as_str());
                any = true;
            }
        },
        None => {},
    }
    let ghost parts1 = (match start_millis {
        Some(m) => if m > 0 {
            seq!["start="@ + millis_str(m as int)]
        } else {
            Seq::<Seq<char>>::empty()
        },
        None => Seq::<Seq<char>>::empty(),
    });
    proof {
        assert(out@ =~= join_commas(parts1));
        assert(any == (parts1.len() > 0));
    }
    match audio_id {
        Some(a) => {
            if any {
                push_char(&mut out, ',');
            }
            out.append("aid=");
            proof {
                reveal_strlit("aid=");
            }
            out.append(i64_to_string(a).as_str());
            any = true;
        },
        None => {},
    }
    let ghost parts2 = parts1 + (match audio_id {
        Some(a) => seq!["aid="@ + dec_str(a as int)],
        None => Seq::<Seq<char>>::empty(),
    });
    proof {
        if audio_id is Some {
            if parts1.len() > 0 {
                assert(parts2.drop_last() =~= parts1);
            } else {
                assert(parts2 =~= seq!["aid="@ + dec_str(audio_id->Some_0 as int)]);
            }
        } else {
            assert(parts2 =~= parts1);
        }
        assert(out@ =~= join_commas(parts2));
        assert(any == (parts2.len() > 0));
    }
    match subtitle_id {
        Some(s) => {
            if any {
                push_char(&mut out, ',');
            }
            if s == -1 {
                out.append("sid=no");
                proof {
                    reveal_strlit("sid=no");
                }
            } else {
                out.append("sid=");
                proof {
                    reveal_strlit("sid=");
                }
                out.append(i64_to_string(s).as_str());
            }
        },
        None => {},
    }
    proof {
        let parts3 = parts2 + (match subtitle_id {
            Some(s) => if s == -1 {
                seq!["sid=no"@]
            } else {
                seq!["sid="@ + dec_str(s as int)]
            },
            None => Seq::<Seq<char>>::empty(),
        });
        if subtitle_id is Some {
            if parts2.len() > 0 {
                assert(parts3.drop_last() =~= parts2);
            } else {
                assert(parts3.len() == 1);
            }
        } else {
            assert(parts3 =~= parts2);
        }
        assert(parts3 =~= all_parts);
        assert(out@ =~= join_commas(all_parts));
    }
    out
}

/// A response from the player, matched to a command by `request_id`.
#[derive(Debug, Clone, PartialEq)]
pub struct MpvResponse {
    /// `success`, or the player's error message.
    pub error: String,
    /// Response data, already decoded into a plain value.
    pub data: Option<PropertyData>,
    /// The request this response answers.
    pub request_id: i64,
}

impl MpvResponse {
    /// Whether the player accepted the command.
    pub fn is_success(&self) -> (r: bool)
        ensures
            r == (self.error@ == "success"@),
    {
        str_eq(self.error.as_str(), "success")
    }
}

/// A property value or event datum from the player, decoded into a plain
/// value. Numbers arrive as whole milliseconds: the player reports seconds,
/// and the surrounding process scales them by a thousand, truncating.
#[derive(Debug, Clone, PartialEq)]
pub enum PropertyData {
    Bool(bool),
    /// A number, scaled to milliseconds of its unit.
    Millis(i64),
    Text(String),
    Null,
}

/// An asynchronous event from the player.
#[derive(Debug, Clone, PartialEq)]
pub struct MpvEvent {
    /// Event kind, such as a property change or the end of a file.
    pub event: String,
    /// Observer id for property changes.
    pub id: Option<i64>,
    /// Property name for property changes.
    pub name: Option<String>,
    /// Event data.
    pub data: Option<PropertyData>,
    /// Why a file ended, when one did.
    pub reason: Option<String>,
    /// Arguments of a script message.
    pub args: Option<Vec<String>>,
}

} // verus!
