//! Emulator settings tuned for streaming.

use std::collections::HashMap;
use vstd::prelude::*;
use vstd::string::*;

verus! {

/// Video settings of the emulator.
#[derive(Debug, Clone)]
pub struct VideoConfig {
    pub backend: String,
    pub adapter: Option<String>,
    pub resolution_scale: u32,
    pub anti_aliasing: String,
    pub anisotropic_filtering: String,
    pub vsync: bool,
    pub fullscreen: bool,
}

/// Audio settings of the emulator.
#[derive(Debug, Clone)]
pub struct AudioConfig {
    pub backend: String,
    /// 0 to 100.
    pub volume: u8,
    pub dsp_hle: bool,
    /// Milliseconds.
    pub latency: u32,
}

/// The controller of one player.
#[derive(Debug, Clone)]
pub struct PlayerConfig {
    pub device: String,
    pub profile: String,
}

/// Controller settings, with the players by slot number.
#[derive(Debug, Clone)]
pub struct ControlsConfig {
    pub gamecube_adapter: bool,
    pub wiimote_source: String,
    pub players: HashMap<u8, PlayerConfig>,
}

/// General emulator switches.
#[derive(Debug, Clone, Copy, PartialEq, Eq)]
pub struct GeneralConfig {
    pub dual_core: bool,
    pub idle_skipping: bool,
    pub cheats_enabled: bool,
    pub discord_presence: bool,
    pub auto_update: bool,
}

/// All emulator settings.
#[derive(Debug, Clone)]
pub struct DolphinConfig {
    pub video: VideoConfig,
    pub audio: AudioConfig,
    pub controls: ControlsConfig,
    pub general: GeneralConfig,
}

/// The settings for streaming: Vulkan at twice the native resolution with
/// FXAA and 4x anisotropic filtering, no vsync, fullscreen; PulseAudio at
/// volume 80 with HLE DSP and 32 ms latency; emulated Wii remotes and a
/// standard controller for player 1; dual core and idle skipping on, the
/// rest off.
pub open spec fn is_streaming_default(c: DolphinConfig) -> bool {
    &&& c.video.backend@ == "Vulkan"@
    &&& c.video.adapter is None
    &&& c.video.resolution_scale == 2
    &&& c.video.anti_aliasing@ == "FXAA"@
    &&& c.video.anisotropic_filtering@ == "4x"@
    &&& !c.video.vsync
    &&& c.video.fullscreen
    &&& c.audio.backend@ == "Pulse"@
    &&& c.audio.volume == 80
    &&& c.audio.dsp_hle
    &&& c.audio.latency == 32
    &&& !c.controls.gamecube_adapter
    &&& c.controls.wiimote_source@ == "Emulated"@
    &&& c.controls.players@.dom() == set![1u8]
    &&& c.controls.players@[1u8].device@ == "Standard Controller"@
    &&& c.controls.players@[1u8].profile@ == "Remote Player"@
    &&& c.general == (GeneralConfig {
        dual_core: true,
        idle_skipping: true,
        cheats_enabled: false,
        discord_presence: false,
        auto_update: false,
    })
}

impl DolphinConfig {
    /// The settings for streaming.
    pub fn default_streaming() -> (c: Self)
        ensures
            is_streaming_default(c),
    {
        broadcast use vstd::std_specs::hash::group_hash_axioms;
        let mut players: HashMap<u8, PlayerConfig> = HashMap::new();
        players.insert(
            1,
            PlayerConfig {
                device: String::from_str("Standard Controller"),
                profile: String::from_str("Remote Player"),
            },
        );
        assert(players@.dom() =~= set![1u8]);
        DolphinConfig {
            video: VideoConfig {
                backend: String::from_str("Vulkan"),
                adapter: None,
                resolution_scale: 2,
                anti_aliasing: String::from_str("FXAA"),
                anisotropic_filtering: String::from_str("4x"),
                vsync: false,
                fullscreen: true,
            },
            audio: AudioConfig {
                backend: String::from_str("Pulse"),
                volume: 80,
                dsp_hle: true,
                latency: 32,
            },
            controls: ControlsConfig {
                gamecube_adapter: false,
                wiimote_source: String::from_str("Emulated"),
                players,
            },
            general: GeneralConfig {
                dual_core: true,
                idle_skipping: true,
                cheats_enabled: false,
                discord_presence: false,
                auto_update: false,
            },
        }
    }

    /// Saving in the emulator's own format is not implemented: nothing is
    /// written and the call succeeds.
    pub fn save_to_file(&self, path: &str) -> (r: Result<(), anyhow::Error>)
        ensures
            r is Ok,
    {
        Ok(())
    }

    /// Loading the emulator's own format is not implemented: the streaming
    /// settings are returned.
    pub fn load_from_file(path: &str) -> (r: Result<Self, anyhow::Error>)
        ensures
            r matches Ok(c) && is_streaming_default(c),
    {
        Ok(Self::default_streaming())
    }
}

} // verus!
