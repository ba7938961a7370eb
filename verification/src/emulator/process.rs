//! Launch settings of the emulator process.

use crate::text::parsed_u64;
use vstd::prelude::*;
use vstd::string::*;

verus! {

/// Where the emulator lives and how it is started.
#[derive(Debug, Clone)]
pub struct DolphinConfig {
    pub executable_path: String,
    pub rom_directory: String,
    pub save_directory: String,
    pub window_title: String,
    pub enable_graphics_mods: bool,
    pub enable_netplay: bool,
    pub audio_backend: String,
    pub video_backend: String,
}

/// The startup timeout in seconds: the value of `DOLPHIN_STARTUP_TIMEOUT`
/// when it is set and parses, else 30.
pub open spec fn startup_timeout_of(setting: Option<Seq<char>>) -> u64 {
    match setting {
        Some(s) => match parsed_u64(s) {
            Some(v) => v,
            None => 30,
        },
        None => 30,
    }
}

/// The view of an optional string.
pub open spec fn opt_view(s: Option<String>) -> Option<Seq<char>> {
    match s {
        Some(x) => Some(x@),
        None => None,
    }
}

/// The startup timeout in seconds from the setting, if there is one.
pub fn startup_timeout_secs(setting: Option<String>) -> (t: u64)
    ensures
        t == startup_timeout_of(opt_view(setting)),
{
    match setting {
        Some(s) => match crate::text::parse_u64(s.as_str()) {
            Some(v) => v,
            None => 30,
        },
        None => 30,
    }
}

/// The path of a ROM: the directory, a slash and the name.
pub fn rom_path(rom_directory: &str, rom_name: &str) -> (p: String)
    ensures
        p@ == rom_directory@ + "/"@ + rom_name@,
{
    let mut p = String::from_str(rom_directory);
    p.append("/");
    p.append(rom_name);
    p
}

/// The command line arguments that start the emulator on a ROM.
pub open spec fn launch_args(config: DolphinConfig, rom: Seq<char>) -> Seq<Seq<char>> {
    seq![
        "--exec"@,
        rom,
        "--nogui"@,
        "--save"@,
        config.save_directory@,
        "--audio-backend"@,
        config.audio_backend@,
        "--video-backend"@,
        config.video_backend@,
    ]
}

/// The command line arguments that start the emulator on `rom_path`.
pub fn launch_arguments(config: &DolphinConfig, rom_path: &str) -> (v: Vec<String>)
    ensures
        v@.map_values(|s: String| s@) == launch_args(*config, rom_path@),
{
    let v = vec![
        String::from_str("--exec"),
        String::from_str(rom_path),
        String::from_str("--nogui"),
        String::from_str("--save"),
        config.save_directory.clone(),
        String::from_str("--audio-backend"),
        config.audio_backend.clone(),
        String::from_str("--video-backend"),
        config.video_backend.clone(),
    ];
    assert(v@.map_values(|s: String| s@) =~= launch_args(*config, rom_path@));
    v
}

/// Attempts at finding the emulator window.
pub const WINDOW_SEARCH_ATTEMPTS: u64 = 10;

/// The wait between two attempts at finding the window, in milliseconds.
pub const WINDOW_SEARCH_WAIT_MS: u64 = 500;

/// The outcome of one attempt at finding the window: from the third attempt
/// on, the window is found with the id `0x12345678` plus the attempt number.
pub fn window_search_attempt(attempt: u64) -> (w: Option<u64>)
    requires
        1 <= attempt <= WINDOW_SEARCH_ATTEMPTS,
    ensures
        w == if attempt >= 3 {
            Some((0x12345678 + attempt) as u64)
        } else {
            None::<u64>
        },
{
    if attempt >= 3 {
        Some(0x12345678 + attempt)
    } else {
        None
    }
}

} // verus!
