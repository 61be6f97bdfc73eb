//! What the player process is started with.
//!
//! The endpoint path, the keybinding file's contents, and the argument list
//! are fixed here with exact contracts; the surrounding process does the
//! spawning and the file writes.

use vstd::prelude::*;

use crate::text::push_char;

verus! {

/// The fixed path of the player's IPC endpoint on a POSIX system. Only one
/// player session exists at a time, so the path needs no variation.
pub fn ipc_path() -> (r: String)
    ensures
        r@ == "/tmp/jmsr-mpv.sock"@,
{
    String::from_str("/tmp/jmsr-mpv.sock")
}

/// The contents of the keybinding file handed to the player: each of the
/// two keys sends the script message that advances within the series.
pub open spec fn input_conf_str(keybind_next: Seq<char>, keybind_prev: Seq<char>) -> Seq<char> {
    keybind_next + " script-message jmsr-next\n"@ + keybind_prev + " script-message jmsr-prev\n"@
}

/// Render the keybinding file for the two episode-navigation keys.
pub fn input_conf_contents(keybind_next: &str, keybind_prev: &str) -> (r: String)
    ensures
        r@ == input_conf_str(keybind_next@, keybind_prev@),
{
    proof {
        reveal_strlit(" script-message jmsr-next\n");
        reveal_strlit(" script-message jmsr-prev\n");
    }
    let mut s = String::from_str(keybind_next);
    s.append(" script-message jmsr-next\n");
    s.append(keybind_prev);
    s.append(" script-message jmsr-prev\n");
    proof {
        assert(s@ =~= input_conf_str(keybind_next@, keybind_prev@));
    }
    s
}

/// The player's argument list: the IPC server path, idling with a forced
/// window and no terminal, the keybinding file where one exists, then the
/// user's extra arguments in their order.
pub fn mpv_spawn_args(ipc: &str, input_conf: Option<&str>, extra_args: &Vec<String>) -> (r: Vec<
    String,
>)
    ensures
        ({
            let base: int = if input_conf is Some {
                6
            } else {
                5
            };
            &&& r@.len() == base + extra_args@.len()
            &&& r@[0]@ == "--input-ipc-server="@ + ipc@
            &&& r@[1]@ == "--idle"@
            &&& r@[2]@ == "--force-window"@
            &&& r@[3]@ == "--keep-open=no"@
            &&& r@[4]@ == "--no-terminal"@
            &&& (input_conf matches Some(c) ==> r@[5]@ == "--input-conf="@ + c@)
            &&& forall|i: int| 0 <= i < extra_args@.len() ==> r@[base + i] == extra_args@[i]
        }),
{
    proof {
        reveal_strlit("--input-ipc-server=");
        reveal_strlit("--idle");
        reveal_strlit("--force-window");
        reveal_strlit("--keep-open=no");
        reveal_strlit("--no-terminal");
        reveal_strlit("--input-conf=");
    }
    let mut args: Vec<String> = Vec::new();
    let mut ipc_arg = String::from_str("--input-ipc-server=");
    ipc_arg.append(ipc);
    args.push(ipc_arg);
    args.push(String::from_str("--idle"));
    args.push(String::from_str("--force-window"));
    args.push(String::from_str("--keep-open=no"));
    args.push(String::from_str("--no-terminal"));
    match input_conf {
        Some(c) => {
            let mut conf_arg = String::from_str("--input-conf=");
            conf_arg.append(c);
            args.push(conf_arg);
        },
        None => {},
    }
    let ghost prefix = args@;
    proof {
        assert(args@ =~= prefix + extra_args@.take(0));
    }
    let mut i: usize = 0;
    while i < extra_args.len()
        invariant
            0 <= i <= extra_args@.len(),
            args@ == prefix + extra_args@.take(i as int),
        decreases extra_args@.len() - i,
    {
        args.push(extra_args[i].clone());
        proof {
            assert(args@ =~= prefix + extra_args@.take(i + 1));
        }
        i += 1;
    }
    proof {
        assert(extra_args@.take(extra_args@.len() as int) =~= extra_args@);
    }
    args
}

} // verus!
