use dpstream::input::mapping::{
    CalibrationData, ConsoleType, ControllerMapping, GameProfile, MappingPresets,
};
use dpstream::input::processor::DolphinButton;

#[test]
fn test_default_gamecube_mapping() {
    let mapping = ControllerMapping::default_gamecube();
    assert_eq!(mapping.console_type, ConsoleType::GameCube);
    assert!(!mapping.enable_gyro_pointer);
    assert_eq!(mapping.deadzone as f32 / 1000.0, 0.1);
}

#[test]
fn test_wii_remote_mapping() {
    let mapping = ControllerMapping::default_wii_remote();
    assert_eq!(mapping.console_type, ConsoleType::Wii);
    assert!(mapping.enable_gyro_pointer);
    assert!(mapping.enable_touch_pointer);
}

#[test]
fn test_game_specific_mapping() {
    let melee = ControllerMapping::for_game("GALE01");
    assert_eq!(melee.name, "Smash Bros. Melee");
    assert_eq!(melee.deadzone as f32 / 1000.0, 0.05);

    let prime = ControllerMapping::for_game("GM4E01");
    assert!(prime.enable_gyro_pointer);
    assert!(prime.invert_y_axis);
}

#[test]
fn game_presets_by_id() {
    let echoes = ControllerMapping::for_game("GMPE01");
    assert_eq!(echoes.name, "Metroid Prime 2: Echoes");
    assert_eq!(echoes.gyro_sensitivity, 1300);
    assert!(echoes.invert_y_axis);

    let brawl = ControllerMapping::for_game("RSBE01");
    assert_eq!(brawl.console_type, ConsoleType::Wii);
    assert_eq!(brawl.x_button, DolphinButton::Y);
    assert_eq!(brawl.y_button, DolphinButton::X);
    assert_eq!(brawl.gyro_sensitivity, 1800);

    let other = ControllerMapping::for_game("XXXX99");
    assert_eq!(other.name, "Default GameCube");
    assert_eq!(other.deadzone, 100);

    let melee = ControllerMapping::for_game("GALE01");
    assert_eq!(melee.c_stick_sensitivity, 1200);
    assert_eq!(melee.trigger_sensitivity, 1100);
    let layout = melee.button_layout();
    assert_eq!(layout.x_button, DolphinButton::X);
    assert_eq!(layout.start_button, DolphinButton::Start);
}

#[test]
fn profiles_for_games() {
    let melee = GameProfile::default_for_game("GALE01");
    assert_eq!(melee.game_id, "GALE01");
    assert_eq!(melee.game_name, "Super Smash Bros. Melee");
    assert_eq!(melee.console_type, ConsoleType::GameCube);
    assert_eq!(melee.controller_mapping.name, "Smash Bros. Melee");
    assert_eq!(
        melee.recommended_settings,
        vec![
            ("recommended_resolution".to_string(), "1080p".to_string()),
            ("recommended_fps".to_string(), "60".to_string()),
        ]
    );

    let brawl = GameProfile::default_for_game("RSBE01");
    assert_eq!(brawl.console_type, ConsoleType::Wii);
    assert_eq!(brawl.controller_mapping.name, "Smash Bros. Brawl");

    // Metroid Prime 2 has a mapping preset but no profile of its own.
    let echoes = GameProfile::default_for_game("GMPE01");
    assert_eq!(echoes.game_name, "Unknown Game");
    assert_eq!(echoes.controller_mapping.name, "Default GameCube");
}

#[test]
fn preset_listing_and_lookup() {
    let all = MappingPresets::get_all();
    let names: Vec<&str> = all.iter().map(|m| m.name.as_str()).collect();
    assert_eq!(
        names,
        vec![
            "Default GameCube",
            "Default Wii Remote",
            "Smash Bros. Melee",
            "Metroid Prime",
            "Smash Bros. Brawl",
        ]
    );
    let prime = MappingPresets::get_by_name("Metroid Prime").unwrap();
    assert_eq!(prime.gyro_sensitivity, 1500);
    assert!(MappingPresets::get_by_name("Metroid Prime 2: Echoes").is_none());
    assert!(MappingPresets::get_by_name("").is_none());
}

#[test]
fn calibration_defaults() {
    let c = CalibrationData::default();
    assert_eq!(c.stick_center_x, 0);
    assert_eq!(c.stick_center_y, 0);
    assert_eq!(c.stick_range_x, 32767);
    assert_eq!(c.stick_range_y, 32767);
    assert_eq!(c.trigger_range, 255);
}
