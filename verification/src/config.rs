//! Application configuration and its validation rules.

use vstd::prelude::*;

use crate::text::{is_blank, str_is_blank};

verus! {

/// Application configuration. The surrounding process persists it in a
/// key-value store and applies it to the player and the server link.
#[derive(Debug, Clone, PartialEq)]
pub struct AppConfig {
    /// Explicit player executable path; empty choice means auto-detection.
    pub mpv_path: Option<String>,
    /// Extra player command-line arguments.
    pub mpv_args: Vec<String>,
    /// Device name shown in the server's cast menu.
    pub device_name: String,
    /// Progress reporting interval in seconds, between 1 and 60.
    pub progress_interval: u32,
    /// Start minimized to the system tray.
    pub start_minimized: bool,
    /// Player keybinding that advances to the next episode.
    pub keybind_next: String,
    /// Player keybinding that returns to the previous episode.
    pub keybind_prev: String,
}

/// The default device name.
pub fn default_device_name() -> (r: String)
    ensures
        r@ == "JMSR"@,
{
    String::from_str("JMSR")
}

/// The default progress reporting interval in seconds.
pub fn default_progress_interval() -> (r: u32)
    ensures
        r == 5,
{
    5
}

/// The default next-episode keybinding.
pub fn default_keybind_next() -> (r: String)
    ensures
        r@ == "Shift+n"@,
{
    String::from_str("Shift+n")
}

/// The default previous-episode keybinding.
pub fn default_keybind_prev() -> (r: String)
    ensures
        r@ == "Shift+p"@,
{
    String::from_str("Shift+p")
}

/// Whether every validation rule holds of the configuration: the device
/// name and both keybindings have a non-whitespace character, and the
/// progress interval lies between 1 and 60 seconds.
pub open spec fn config_valid(c: AppConfig) -> bool {
    &&& !is_blank(c.device_name@)
    &&& 1 <= c.progress_interval <= 60
    &&& !is_blank(c.keybind_next@)
    &&& !is_blank(c.keybind_prev@)
}

impl AppConfig {
    /// Check every validation rule; the first broken rule names itself.
    pub fn validate(&self) -> (r: Result<(), String>)
        ensures
            r is Ok <==> config_valid(*self),
            is_blank(self.device_name@) ==> (r matches Err(m) && m@
                == "Device name cannot be empty"@),
            !is_blank(self.device_name@) && !(1 <= self.progress_interval <= 60) ==> (r matches Err(
                m,
            ) && m@ == "Progress interval must be between 1 and 60 seconds"@),
            !is_blank(self.device_name@) && 1 <= self.progress_interval <= 60 && is_blank(
                self.keybind_next@,
            ) ==> (r matches Err(m) && m@ == "Next episode keybinding cannot be empty"@),
            !is_blank(self.device_name@) && 1 <= self.progress_interval <= 60 && !is_blank(
                self.keybind_next@,
            ) && is_blank(self.keybind_prev@) ==> (r matches Err(m) && m@
                == "Previous episode keybinding cannot be empty"@),
    {
        if str_is_blank(self.device_name.as_str()) {
            return Err(String::from_str("Device name cannot be empty"));
        }
        if self.progress_interval < 1 || self.progress_interval > 60 {
            return Err(String::from_str("Progress interval must be between 1 and 60 seconds"));
        }
        if str_is_blank(self.keybind_next.as_str()) {
            return Err(String::from_str("Next episode keybinding cannot be empty"));
        }
        if str_is_blank(self.keybind_prev.as_str()) {
            return Err(String::from_str("Previous episode keybinding cannot be empty"));
        }
        Ok(())
    }
}

impl Default for AppConfig {
    /// The default configuration; it satisfies every validation rule.
    fn default() -> (r: AppConfig)
        ensures
            r.mpv_path is None,
            r.mpv_args@.len() == 0,
            r.device_name@ == "JMSR"@,
            r.progress_interval == 5,
            !r.start_minimized,
            r.keybind_next@ == "Shift+n"@,
            r.keybind_prev@ == "Shift+p"@,
    {
        AppConfig {
            mpv_path: None,
            mpv_args: Vec::new(),
            device_name: default_device_name(),
            progress_interval: default_progress_interval(),
            start_minimized: false,
            keybind_next: default_keybind_next(),
            keybind_prev: default_keybind_prev(),
        }
    }
}

} // verus!
