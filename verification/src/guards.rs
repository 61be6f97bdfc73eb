//! Validation of the values the user interface hands in.
//!
//! Each guard says exactly which inputs pass and which error comes back for
//! the rest; the command surface calls them before it touches the player.

use vstd::prelude::*;

use crate::errors::{CommandError, CommandErrorCode};
use crate::text::{is_prefix_of, starts_with};

verus! {

/// Only web URLs may be handed to the player: anything else could name a
/// local file or another scheme. Exactly the URLs with an `http://` or
/// `https://` prefix pass.
pub fn validate_load_url(url: &str) -> (r: Result<(), CommandError>)
    ensures
        r is Ok <==> (is_prefix_of("http://"@, url@) || is_prefix_of("https://"@, url@)),
        r matches Err(e) ==> e.code == CommandErrorCode::InvalidInput && e.message@
            == "Only http:// and https:// URLs are allowed"@,
{
    if starts_with(url, "http://") || starts_with(url, "https://") {
        Ok(())
    } else {
        Err(
            CommandError::invalid_input(
                String::from_str("Only http:// and https:// URLs are allowed"),
            ),
        )
    }
}

/// A seek position cannot be negative.
pub fn validate_seek_millis(position_millis: i64) -> (r: Result<(), CommandError>)
    ensures
        r is Ok <==> position_millis >= 0,
        r matches Err(e) ==> e.code == CommandErrorCode::InvalidInput && e.message@
            == "Seek time cannot be negative"@,
{
    if position_millis >= 0 {
        Ok(())
    } else {
        Err(CommandError::invalid_input(String::from_str("Seek time cannot be negative")))
    }
}

/// The volume runs from 0 to 100.
pub fn validate_volume(volume: i64) -> (r: Result<(), CommandError>)
    ensures
        r is Ok <==> 0 <= volume <= 100,
        r matches Err(e) ==> e.code == CommandErrorCode::InvalidInput && e.message@
            == "Volume must be between 0 and 100"@,
{
    if 0 <= volume && volume <= 100 {
        Ok(())
    } else {
        Err(CommandError::invalid_input(String::from_str("Volume must be between 0 and 100")))
    }
}

} // verus!
