//! Controller mappings, the presets for known games, game profiles and
//! calibration.

use crate::input::processor::{ButtonLayout, DolphinButton};
use vstd::prelude::*;
use vstd::string::*;

verus! {

/// The console a mapping targets.
#[derive(Debug, Clone, Copy, PartialEq, Eq)]
pub enum ConsoleType {
    GameCube,
    Wii,
    WiiU,
}

/// How a client's controller drives the emulated one. Sensitivities,
/// strengths and the dead zone are in thousandths: 1000 stands for 1.0.
#[derive(Debug, Clone)]
pub struct ControllerMapping {
    pub name: String,
    pub description: String,
    pub console_type: ConsoleType,
    pub a_button: DolphinButton,
    pub b_button: DolphinButton,
    pub x_button: DolphinButton,
    pub y_button: DolphinButton,
    pub z_button: DolphinButton,
    pub l_button: DolphinButton,
    pub r_button: DolphinButton,
    pub start_button: DolphinButton,
    pub main_stick_sensitivity: u32,
    pub c_stick_sensitivity: u32,
    pub trigger_sensitivity: u32,
    pub enable_gyro_pointer: bool,
    pub enable_touch_pointer: bool,
    pub gyro_sensitivity: u32,
    pub deadzone: u32,
    pub vibration_strength: u32,
    pub invert_y_axis: bool,
}

/// The mappings the server ships.
#[derive(Debug, Clone, Copy, PartialEq, Eq)]
pub enum MappingPreset {
    DefaultGameCube,
    DefaultWiiRemote,
    SmashMelee,
    MetroidPrime,
    MetroidPrime2,
    SmashBrawl,
}

/// The settings of a preset, in the order name, description, console,
/// whether the Wii Remote layout swaps X and Y, main stick, C stick and
/// trigger sensitivity, gyro and touch pointers, gyro sensitivity, dead
/// zone, vibration, and Y inversion.
pub struct PresetSettings {
    pub name: Seq<char>,
    pub description: Seq<char>,
    pub console: ConsoleType,
    pub wii_layout: bool,
    pub main_stick: u32,
    pub c_stick: u32,
    pub trigger: u32,
    pub gyro: bool,
    pub touch: bool,
    pub gyro_sensitivity: u32,
    pub deadzone: u32,
    pub vibration: u32,
    pub invert_y: bool,
}

/// The standard GameCube mapping: buttons as they are, unit
/// sensitivities, no pointers, a 10% dead zone.
pub open spec fn gamecube_settings() -> PresetSettings {
    PresetSettings {
        name: "Default GameCube"@,
        description: "Standard GameCube controller mapping"@,
        console: ConsoleType::GameCube,
        wii_layout: false,
        main_stick: 1000,
        c_stick: 1000,
        trigger: 1000,
        gyro: false,
        touch: false,
        gyro_sensitivity: 1000,
        deadzone: 100,
        vibration: 1000,
        invert_y: false,
    }
}

/// The standard Wii Remote mapping: X and Y swapped, softer sticks, both
/// pointers, a 5% dead zone.
pub open spec fn wii_remote_settings() -> PresetSettings {
    PresetSettings {
        name: "Default Wii Remote"@,
        description: "Standard Wii Remote with pointer support"@,
        console: ConsoleType::Wii,
        wii_layout: true,
        main_stick: 800,
        c_stick: 800,
        trigger: 1000,
        gyro: true,
        touch: true,
        gyro_sensitivity: 2000,
        deadzone: 50,
        vibration: 800,
        invert_y: false,
    }
}

/// The settings of each preset; the game presets start from a standard
/// one.
pub open spec fn preset_settings(p: MappingPreset) -> PresetSettings {
    match p {
        MappingPreset::DefaultGameCube => gamecube_settings(),
        MappingPreset::DefaultWiiRemote => wii_remote_settings(),
        MappingPreset::SmashMelee => PresetSettings {
            name: "Smash Bros. Melee"@,
            description: "Optimized for competitive Melee play"@,
            c_stick: 1200,
            deadzone: 50,
            trigger: 1100,
            ..gamecube_settings()
        },
        MappingPreset::MetroidPrime => PresetSettings {
            name: "Metroid Prime"@,
            description: "Enhanced with gyro aiming"@,
            gyro: true,
            gyro_sensitivity: 1500,
            invert_y: true,
            ..gamecube_settings()
        },
        MappingPreset::MetroidPrime2 => PresetSettings {
            name: "Metroid Prime 2: Echoes"@,
            description: "Enhanced with gyro aiming"@,
            gyro: true,
            gyro_sensitivity: 1300,
            invert_y: true,
            ..gamecube_settings()
        },
        MappingPreset::SmashBrawl => PresetSettings {
            name: "Smash Bros. Brawl"@,
            description: "Wii Remote + Nunchuk style"@,
            gyro: true,
            touch: true,
            gyro_sensitivity: 1800,
            ..wii_remote_settings()
        },
    }
}

/// Whether `m` is the mapping of preset `p`.
pub open spec fn is_preset(m: ControllerMapping, p: MappingPreset) -> bool {
    let s = preset_settings(p);
    &&& m.name@ == s.name
    &&& m.description@ == s.description
    &&& m.console_type == s.console
    &&& m.a_button == DolphinButton::A
    &&& m.b_button == DolphinButton::B
    &&& m.x_button == if s.wii_layout {
        DolphinButton::Y
    } else {
        DolphinButton::X
    }
    &&& m.y_button == if s.wii_layout {
        DolphinButton::X
    } else {
        DolphinButton::Y
    }
    &&& m.z_button == DolphinButton::Z
    &&& m.l_button == DolphinButton::L
    &&& m.r_button == DolphinButton::R
    &&& m.start_button == DolphinButton::Start
    &&& m.main_stick_sensitivity == s.main_stick
    &&& m.c_stick_sensitivity == s.c_stick
    &&& m.trigger_sensitivity == s.trigger
    &&& m.enable_gyro_pointer == s.gyro
    &&& m.enable_touch_pointer == s.touch
    &&& m.gyro_sensitivity == s.gyro_sensitivity
    &&& m.deadzone == s.deadzone
    &&& m.vibration_strength == s.vibration
    &&& m.invert_y_axis == s.invert_y
}

/// The preset for a game id: Melee, Metroid Prime and its sequel, and
/// Brawl have their own; any other game gets the standard GameCube one.
pub open spec fn preset_for(game_id: Seq<char>) -> MappingPreset {
    if game_id == "GALE01"@ {
        MappingPreset::SmashMelee
    } else if game_id == "GM4E01"@ {
        MappingPreset::MetroidPrime
    } else if game_id == "GMPE01"@ {
        MappingPreset::MetroidPrime2
    } else if game_id == "RSBE01"@ {
        MappingPreset::SmashBrawl
    } else {
        MappingPreset::DefaultGameCube
    }
}

impl ControllerMapping {
    /// The standard GameCube mapping.
    pub fn default_gamecube() -> (m: Self)
        ensures
            is_preset(m, MappingPreset::DefaultGameCube),
    {
        ControllerMapping {
            name: String::from_str("Default GameCube"),
            description: String::from_str("Standard GameCube controller mapping"),
            console_type: ConsoleType::GameCube,
            a_button: DolphinButton::A,
            b_button: DolphinButton::B,
            x_button: DolphinButton::X,
            y_button: DolphinButton::Y,
            z_button: DolphinButton::Z,
            l_button: DolphinButton::L,
            r_button: DolphinButton::R,
            start_button: DolphinButton::Start,
            main_stick_sensitivity: 1000,
            c_stick_sensitivity: 1000,
            trigger_sensitivity: 1000,
            enable_gyro_pointer: false,
            enable_touch_pointer: false,
            gyro_sensitivity: 1000,
            deadzone: 100,
            vibration_strength: 1000,
            invert_y_axis: false,
        }
    }

    /// The standard Wii Remote mapping, held sideways.
    pub fn default_wii_remote() -> (m: Self)
        ensures
            is_preset(m, MappingPreset::DefaultWiiRemote),
    {
        ControllerMapping {
            name: String::from_str("Default Wii Remote"),
            description: String::from_str("Standard Wii Remote with pointer support"),
            console_type: ConsoleType::Wii,
            a_button: DolphinButton::A,
            b_button: DolphinButton::B,
            x_button: DolphinButton::Y,
            y_button: DolphinButton::X,
            z_button: DolphinButton::Z,
            l_button: DolphinButton::L,
            r_button: DolphinButton::R,
            start_button: DolphinButton::Start,
            main_stick_sensitivity: 800,
            c_stick_sensitivity: 800,
            trigger_sensitivity: 1000,
            enable_gyro_pointer: true,
            enable_touch_pointer: true,
            gyro_sensitivity: 2000,
            deadzone: 50,
            vibration_strength: 800,
            invert_y_axis: false,
        }
    }

    /// Melee: a livelier C stick, a smaller dead zone, firmer triggers.
    fn smash_melee_mapping() -> (m: Self)
        ensures
            is_preset(m, MappingPreset::SmashMelee),
    {
        let mut m = Self::default_gamecube();
        m.name = String::from_str("Smash Bros. Melee");
        m.description = String::from_str("Optimized for competitive Melee play");
        m.c_stick_sensitivity = 1200;
        m.deadzone = 50;
        m.trigger_sensitivity = 1100;
        m
    }

    /// Metroid Prime: gyro aiming with the Y axis inverted.
    fn metroid_prime_mapping() -> (m: Self)
        ensures
            is_preset(m, MappingPreset::MetroidPrime),
    {
        let mut m = Self::default_gamecube();
        m.name = String::from_str("Metroid Prime");
        m.description = String::from_str("Enhanced with gyro aiming");
        m.enable_gyro_pointer = true;
        m.gyro_sensitivity = 1500;
        m.invert_y_axis = true;
        m
    }

    /// Metroid Prime 2: as the first, with a calmer gyro.
    fn metroid_prime_2_mapping() -> (m: Self)
        ensures
            is_preset(m, MappingPreset::MetroidPrime2),
    {
        let mut m = Self::metroid_prime_mapping();
        m.name = String::from_str("Metroid Prime 2: Echoes");
        m.gyro_sensitivity = 1300;
        m
    }

    /// Brawl: the Wii Remote with both pointers.
    fn smash_brawl_mapping() -> (m: Self)
        ensures
            is_preset(m, MappingPreset::SmashBrawl),
    {
        let mut m = Self::default_wii_remote();
        m.name = String::from_str("Smash Bros. Brawl");
        m.description = String::from_str("Wii Remote + Nunchuk style");
        m.enable_gyro_pointer = true;
        m.enable_touch_pointer = true;
        m.gyro_sensitivity = 1800;
        m
    }

    /// The mapping for a game.
    pub fn for_game(game_id: &str) -> (m: Self)
        ensures
            is_preset(m, preset_for(game_id@)),
    {
        let id = String::from_str(game_id);
        if id == String::from_str("GALE01") {
            Self::smash_melee_mapping()
        } else if id == String::from_str("GM4E01") {
            Self::metroid_prime_mapping()
        } else if id == String::from_str("GMPE01") {
            Self::metroid_prime_2_mapping()
        } else if id == String::from_str("RSBE01") {
            Self::smash_brawl_mapping()
        } else {
            Self::default_gamecube()
        }
    }

    /// A copy of this mapping, field for field.
    pub fn duplicate(&self) -> (m: Self)
        ensures
            m == *self,
    {
        ControllerMapping {
            name: self.name.clone(),
            description: self.description.clone(),
            console_type: self.console_type,
            a_button: self.a_button,
            b_button: self.b_button,
            x_button: self.x_button,
            y_button: self.y_button,
            z_button: self.z_button,
            l_button: self.l_button,
            r_button: self.r_button,
            start_button: self.start_button,
            main_stick_sensitivity: self.main_stick_sensitivity,
            c_stick_sensitivity: self.c_stick_sensitivity,
            trigger_sensitivity: self.trigger_sensitivity,
            enable_gyro_pointer: self.enable_gyro_pointer,
            enable_touch_pointer: self.enable_touch_pointer,
            gyro_sensitivity: self.gyro_sensitivity,
            deadzone: self.deadzone,
            vibration_strength: self.vibration_strength,
            invert_y_axis: self.invert_y_axis,
        }
    }

    /// The emulated buttons the client's buttons press.
    pub fn button_layout(&self) -> (l: ButtonLayout)
        ensures
            l == (ButtonLayout {
                a_button: self.a_button,
                b_button: self.b_button,
                x_button: self.x_button,
                y_button: self.y_button,
                z_button: self.z_button,
                l_button: self.l_button,
                r_button: self.r_button,
                start_button: self.start_button,
            }),
    {
        ButtonLayout {
            a_button: self.a_button,
            b_button: self.b_button,
            x_button: self.x_button,
            y_button: self.y_button,
            z_button: self.z_button,
            l_button: self.l_button,
            r_button: self.r_button,
            start_button: self.start_button,
        }
    }
}

/// A game's controller profile and the settings recommended for it.
#[derive(Debug, Clone)]
pub struct GameProfile {
    pub game_id: String,
    pub game_name: String,
    pub console_type: ConsoleType,
    pub controller_mapping: ControllerMapping,
    pub recommended_settings: Vec<(String, String)>,
}

/// The name, console and preset of the profile made for a game id.
pub open spec fn profile_for(game_id: Seq<char>) -> (Seq<char>, ConsoleType, MappingPreset) {
    if game_id == "GALE01"@ {
        ("Super Smash Bros. Melee"@, ConsoleType::GameCube, MappingPreset::SmashMelee)
    } else if game_id == "GM4E01"@ {
        ("Metroid Prime"@, ConsoleType::GameCube, MappingPreset::MetroidPrime)
    } else if game_id == "RSBE01"@ {
        ("Super Smash Bros. Brawl"@, ConsoleType::Wii, MappingPreset::SmashBrawl)
    } else {
        ("Unknown Game"@, ConsoleType::GameCube, MappingPreset::DefaultGameCube)
    }
}

/// The views of pairs of strings.
pub open spec fn pair_views(v: Seq<(String, String)>) -> Seq<(Seq<char>, Seq<char>)> {
    v.map_values(|p: (String, String)| (p.0@, p.1@))
}

impl GameProfile {
    /// The profile made for a game without a saved one: its name, console
    /// and mapping by id, with 1080p at 60 frames per second recommended.
    pub fn default_for_game(game_id: &str) -> (p: Self)
        ensures
            p.game_id@ == game_id@,
            p.game_name@ == profile_for(game_id@).0,
            p.console_type == profile_for(game_id@).1,
            is_preset(p.controller_mapping, profile_for(game_id@).2),
            pair_views(p.recommended_settings@) == seq![
                ("recommended_resolution"@, "1080p"@),
                ("recommended_fps"@, "60"@),
            ],
    {
        let id = String::from_str(game_id);
        let (game_name, console_type, mapping) = if id == String::from_str("GALE01") {
            (
                String::from_str("Super Smash Bros. Melee"),
                ConsoleType::GameCube,
                ControllerMapping::smash_melee_mapping(),
            )
        } else if id == String::from_str("GM4E01") {
            (
                String::from_str("Metroid Prime"),
                ConsoleType::GameCube,
                ControllerMapping::metroid_prime_mapping(),
            )
        } else if id == String::from_str("RSBE01") {
            (
                String::from_str("Super Smash Bros. Brawl"),
                ConsoleType::Wii,
                ControllerMapping::smash_brawl_mapping(),
            )
        } else {
            (String::from_str("Unknown Game"), ConsoleType::GameCube, ControllerMapping::default_gamecube())
        };
        let settings = vec![
            (String::from_str("recommended_resolution"), String::from_str("1080p")),
            (String::from_str("recommended_fps"), String::from_str("60")),
        ];
        assert(pair_views(settings@) =~= seq![
            ("recommended_resolution"@, "1080p"@),
            ("recommended_fps"@, "60"@),
        ]);
        GameProfile {
            game_id: id,
            game_name,
            console_type,
            controller_mapping: mapping,
            recommended_settings: settings,
        }
    }
}

/// The presets offered for quick setup, in order.
pub open spec fn offered_presets() -> Seq<MappingPreset> {
    seq![
        MappingPreset::DefaultGameCube,
        MappingPreset::DefaultWiiRemote,
        MappingPreset::SmashMelee,
        MappingPreset::MetroidPrime,
        MappingPreset::SmashBrawl,
    ]
}

/// The presets offered have distinct names, so looking a preset up by the
/// name of an offered one finds that one.
pub proof fn lemma_offered_names_distinct()
    ensures
        forall|i: int, j: int|
            0 <= i < offered_presets().len() && 0 <= j < offered_presets().len() && preset_settings(
                #[trigger] offered_presets()[i],
            ).name == preset_settings(#[trigger] offered_presets()[j]).name ==> i == j,
{
    reveal_strlit("Default GameCube");
    reveal_strlit("Default Wii Remote");
    reveal_strlit("Smash Bros. Melee");
    reveal_strlit("Metroid Prime");
    reveal_strlit("Smash Bros. Brawl");
    assert("Default GameCube"@.len() == 16);
    assert("Default Wii Remote"@.len() == 18);
    assert("Smash Bros. Melee"@.len() == 17);
    assert("Metroid Prime"@.len() == 13);
    assert("Smash Bros. Brawl"@.len() == 17);
    assert("Smash Bros. Melee"@[12] != "Smash Bros. Brawl"@[12]);
}

/// The presets for quick setup.
pub struct MappingPresets;

impl MappingPresets {
    /// Every preset offered: the two standard ones, then Melee, Metroid
    /// Prime and Brawl.
    pub fn get_all() -> (v: Vec<ControllerMapping>)
        ensures
            v@.len() == offered_presets().len(),
            forall|i: int| 0 <= i < v@.len() ==> is_preset(#[trigger] v@[i], offered_presets()[i]),
    {
        let v = vec![
            ControllerMapping::default_gamecube(),
            ControllerMapping::default_wii_remote(),
            ControllerMapping::for_game("GALE01"),
            ControllerMapping::for_game("GM4E01"),
            ControllerMapping::for_game("RSBE01"),
        ];
        proof {
            reveal_strlit("GALE01");
            reveal_strlit("GM4E01");
            reveal_strlit("RSBE01");
            reveal_strlit("GMPE01");
            assert("GM4E01"@[2] != "GALE01"@[2]);
            assert("RSBE01"@[0] != "GALE01"@[0]);
            assert("RSBE01"@[0] != "GM4E01"@[0]);
            assert("RSBE01"@[0] != "GMPE01"@[0]);
            assert("GM4E01"@[2] != "GMPE01"@[2]);
        }
        v
    }

    /// The offered preset named `name`, if there is one.
    pub fn get_by_name(name: &str) -> (r: Option<ControllerMapping>)
        ensures
            match r {
                Some(m) => m.name@ == name@ && exists|i: int|
                    0 <= i < offered_presets().len() && #[trigger] is_preset(m, offered_presets()[i]),
                None => forall|i: int|
                    0 <= i < offered_presets().len() ==> #[trigger] preset_settings(
                        offered_presets()[i],
                    ).name != name@,
            },
    {
        let mut all = Self::get_all();
        let wanted = String::from_str(name);
        let mut i: usize = 0;
        while i < all.len()
            invariant
                i <= all@.len(),
                all@.len() == offered_presets().len(),
                forall|k: int| 0 <= k < all@.len() ==> is_preset(#[trigger] all@[k], offered_presets()[k]),
                wanted@ == name@,
                forall|k: int|
                    0 <= k < i ==> #[trigger] preset_settings(offered_presets()[k]).name != name@,
            decreases all@.len() - i,
        {
            if all[i].name == wanted {
                assert(is_preset(all@[i as int], offered_presets()[i as int]));
                let m = all.remove(i);
                return Some(m);
            }
            assert(is_preset(all@[i as int], offered_presets()[i as int]));
            i = i + 1;
        }
        None
    }
}

/// Calibration of the analog inputs.
#[derive(Debug, Clone, Copy, PartialEq, Eq)]
pub struct CalibrationData {
    pub stick_center_x: i16,
    pub stick_center_y: i16,
    pub stick_range_x: i16,
    pub stick_range_y: i16,
    pub trigger_range: u8,
}

impl Default for CalibrationData {
    /// Centred sticks with the full range, triggers over the full byte.
    fn default() -> (c: Self)
        ensures
            c == (CalibrationData {
                stick_center_x: 0,
                stick_center_y: 0,
                stick_range_x: 32767,
                stick_range_y: 32767,
                trigger_range: 255,
            }),
    {
        CalibrationData {
            stick_center_x: 0,
            stick_center_y: 0,
            stick_range_x: 32767,
            stick_range_y: 32767,
            trigger_range: 255,
        }
    }
}

} // verus!
