use dpstream::network::discovery::{server_info_for, DiscoveryService};
use dpstream::network::vpn::{auth_arguments, node_configuration_arguments};
use dpstream::input::dolphin::{format_analog_command, format_pointer_command, format_trigger_command};
use dpstream::input::processor::AnalogStick;
use dpstream::emulator::config::DolphinConfig;
use dpstream::emulator::process::{launch_arguments, rom_path, startup_timeout_secs, window_search_attempt};
use dpstream::error::{
    DpstreamError, EmulatorError, ErrorReport, ErrorSeverity, InputError, NetworkError,
    StreamingError, VpnError,
};
use dpstream::health::{
    determine_overall_status, disk_space_check, network_interface_check, readiness_from,
    HealthCheck, HealthMonitor, ServiceStatus,
};
use dpstream::input::dolphin::{
    connect_command, disconnect_command, format_button_command, format_dpad_command,
    record_send, ConnectionHealth, DolphinInputAdapter,
};
use dpstream::input::processor::{convert_buttons, ButtonLayout, CommandBuffer, DigitalCommand, DolphinButton};
use dpstream::input::session::{assign_player_slot, count_active};
use dpstream::network::pairing::{pin_for_time, token_for_time, PairingManager, PairingRequest};
use dpstream::network::vpn::{parse_bool, parse_tailscale_status_checked, TailscaleConfig, VpnManager};
use dpstream::text::{decimal_string, join, parse_u64, split_on};

#[test]
fn decimal_and_parsing() {
    assert_eq!(decimal_string(0), "0");
    assert_eq!(decimal_string(1234567890), "1234567890");
    assert_eq!(decimal_string(u64::MAX), "18446744073709551615");
    assert_eq!(parse_u64("42"), Some(42));
    assert_eq!(parse_u64("+7"), Some(7));
    assert_eq!(parse_u64(""), None);
    assert_eq!(parse_u64("+"), None);
    assert_eq!(parse_u64("-1"), None);
    assert_eq!(parse_u64("12a"), None);
    assert_eq!(parse_u64("18446744073709551615"), Some(u64::MAX));
    assert_eq!(parse_u64("18446744073709551616"), None);
    assert_eq!(parse_bool("true"), Some(true));
    assert_eq!(parse_bool("false"), Some(false));
    assert_eq!(parse_bool("TRUE"), None);
}

#[test]
fn split_and_join_round_trip() {
    let pieces = split_on("a,,b", ',');
    assert_eq!(pieces, vec!["a", "", "b"]);
    assert_eq!(join(&pieces, ","), "a,,b");
    assert_eq!(split_on("", ','), vec![""]);
}

#[test]
fn error_codes_and_recoverability() {
    let timeout = DpstreamError::Network(NetworkError::Timeout { timeout: 250 });
    assert_eq!(timeout.error_code(), 1000);
    assert!(timeout.is_recoverable());
    assert_eq!(timeout.retry_delay_ms(), Some(1000));
    assert_eq!(timeout.severity(), ErrorSeverity::Medium);
    assert_eq!(
        timeout.message(),
        "Network error: Timeout: operation took longer than 250ms"
    );
    assert_eq!(
        timeout.user_message(),
        "Network operation timed out. Please check your connection."
    );
    assert_eq!(
        timeout.recovery_suggestions(),
        vec!["Retry the operation", "Check network connectivity"]
    );

    let bind = DpstreamError::Network(NetworkError::BindError("port 80".to_string()));
    assert!(!bind.is_recoverable());

    let memory = DpstreamError::MemoryAllocation { size: 4096 };
    assert_eq!(memory.error_code(), 9300);
    assert_eq!(memory.severity(), ErrorSeverity::Critical);
    assert_eq!(memory.message(), "Memory allocation failed: requested 4096 bytes");
    assert_eq!(memory.retry_delay_ms(), None);

    let unavailable = DpstreamError::ServiceUnavailable {
        service: "encoder".to_string(),
        retry_after_ms: 1500,
    };
    assert_eq!(unavailable.retry_delay_ms(), Some(1500));
    assert!(unavailable.is_recoverable());

    let crashed = DpstreamError::Emulator(EmulatorError::ProcessCrashed { code: -11 });
    assert_eq!(
        crashed.message(),
        "Emulator error: Dolphin process crashed with exit code -11"
    );
    assert_eq!(
        crashed.user_message(),
        "An error occurred: Emulator error: Dolphin process crashed with exit code -11"
    );
    assert_eq!(crashed.recovery_suggestions(), vec!["Check logs for more details"]);

    let streaming = DpstreamError::Streaming(StreamingError::BandwidthExceeded {
        current: 20,
        max: 10,
    });
    assert!(streaming.is_recoverable());
    assert_eq!(
        streaming.message(),
        "Streaming error: Bandwidth exceeded: current 20bps, max 10bps"
    );
    assert!(!DpstreamError::Streaming(StreamingError::InvalidPacket.clone()).error_code() != 3000);
    assert!(DpstreamError::Input(InputError::AdapterNotInitialized).is_recoverable());
    assert_eq!(
        DpstreamError::Vpn(VpnError::AuthFailed("x".to_string())).user_message(),
        "VPN authentication failed. Please check your Tailscale configuration."
    );
}

#[test]
fn error_report_log_line() {
    let report = ErrorReport::new(DpstreamError::Config("bad port".to_string()))
        .with_context("parsing".to_string())
        .with_context("startup".to_string())
        .with_correlation_id("c-1".to_string())
        .with_component("main".to_string())
        .with_retry_count(2);
    let line = report.format_for_log();
    assert!(line.ends_with(
        "] Configuration error: bad port (Code: 5000, Severity: High) | Context: parsing -> startup | Correlation: c-1 | Component: main | Retry: 2"
    ));
    assert!(line.starts_with('['));
    let mut fixed = ErrorReport::new(DpstreamError::Auth("denied".to_string()));
    fixed.timestamp = 0;
    assert_eq!(
        fixed.format_for_log(),
        "[1970-01-01 00:00:00 UTC] Authentication error: denied (Code: 6000, Severity: High)"
    );
}

#[test]
fn health_status_aggregation() {
    let check = |status| HealthCheck {
        status,
        message: String::new(),
        last_updated: 0,
        duration_ms: 0,
    };
    assert_eq!(determine_overall_status(&vec![]), ServiceStatus::Healthy);
    let checks = vec![
        ("a".to_string(), check(ServiceStatus::Healthy)),
        ("b".to_string(), check(ServiceStatus::Degraded)),
    ];
    assert_eq!(determine_overall_status(&checks), ServiceStatus::Degraded);
    let checks = vec![
        ("a".to_string(), check(ServiceStatus::Degraded)),
        ("b".to_string(), check(ServiceStatus::Unhealthy)),
    ];
    assert_eq!(determine_overall_status(&checks), ServiceStatus::Unhealthy);
}

#[test]
fn health_monitor_updates() {
    let mut monitor = HealthMonitor::new_at("1.0.0".to_string(), 100);
    let status = monitor.health_status_at(150);
    assert_eq!(status.version, "1.0.0");
    assert_eq!(status.status, ServiceStatus::Healthy);
    assert_eq!(status.uptime_seconds, 50);
    monitor.update_check_at("test_service", ServiceStatus::Degraded, "Test degraded state".to_string(), 120);
    monitor.update_check_at("test_service", ServiceStatus::Unhealthy, "down".to_string(), 130);
    let status = monitor.health_status_at(90);
    assert_eq!(status.uptime_seconds, 0);
    assert_eq!(status.checks.len(), 1);
    assert_eq!(status.checks[0].0, "test_service");
    assert_eq!(status.checks[0].1.last_updated, 130);
    assert_eq!(status.status, ServiceStatus::Unhealthy);
}

#[test]
fn readiness_checks() {
    let ready = readiness_from(
        vec![network_interface_check(None), disk_space_check(None)],
        5,
    );
    assert!(ready.ready);
    let not_ready = readiness_from(
        vec![
            network_interface_check(None),
            disk_space_check(Some("No such file".to_string())),
        ],
        5,
    );
    assert!(!not_ready.ready);
    assert_eq!(not_ready.checks[1].message, "Disk space check failed: No such file");
}

#[test]
fn pairing_flow() {
    let mut manager = PairingManager::new();
    let pin = manager
        .initiate_pairing(PairingRequest {
            client_id: "switch-1".to_string(),
            client_name: "Switch".to_string(),
            capabilities: vec![],
        })
        .unwrap();
    assert_eq!(pin.len(), 4);
    assert!(pin.chars().all(|c| c.is_ascii_digit()));
    let response = manager.complete_pairing(&pin).unwrap();
    assert!(response.success);
    assert_eq!(response.server_cert.as_deref(), Some("mock_cert"));
    let token = response.session_token.unwrap();
    assert!(token.starts_with("session_"));
    assert!(manager.verify_client("switch-1", &token));
    assert!(!manager.verify_client("switch-1", "session_0x"));
    assert!(!manager.verify_client("other", &token));
    let again = manager.complete_pairing(&pin).unwrap();
    assert!(!again.success);
    assert_eq!(again.error.as_deref(), Some("Invalid or expired PIN"));
}

#[test]
fn pin_and_token_formats() {
    assert_eq!(pin_for_time(1_700_000_042), "0042");
    assert_eq!(pin_for_time(9), "0009");
    assert_eq!(token_for_time(1_700_000_000), "session_1700000000");
}

#[test]
fn tailscale_settings() {
    let config = TailscaleConfig::from_settings(Some("key".to_string()), None, None, None).unwrap();
    assert_eq!(config.hostname, "dpstream-server");
    assert_eq!(config.advertise_routes, vec!["192.168.1.0/24"]);
    assert!(config.accept_dns);
    let config = TailscaleConfig::from_settings(
        Some("key".to_string()),
        Some("box".to_string()),
        Some("10.0.0.0/8,10.1.0.0/16".to_string()),
        Some("false".to_string()),
    )
    .unwrap();
    assert_eq!(config.advertise_routes, vec!["10.0.0.0/8", "10.1.0.0/16"]);
    assert!(!config.accept_dns);
    assert!(matches!(
        TailscaleConfig::from_settings(None, None, None, None),
        Err(VpnError::Config(m)) if m == "TAILSCALE_AUTH_KEY environment variable not set"
    ));
    assert!(matches!(
        TailscaleConfig::from_settings(Some("k".to_string()), None, None, Some("yes".to_string())),
        Err(VpnError::Config(m)) if m == "Invalid TAILSCALE_ACCEPT_DNS value"
    ));
}

#[test]
fn tailscale_status_parsing_and_connection() {
    let doc = r#"{"BackendState":"Running","Version":"1.60","Self":{"HostName":"box","OS":"linux","TailscaleIPs":["100.64.0.1",7,"fd7a::1"]}}"#;
    let status = parse_tailscale_status_checked(doc).unwrap().unwrap();
    assert_eq!(status.backend_state, "Running");
    assert_eq!(status.tailscale_ips, vec!["100.64.0.1", "fd7a::1"]);
    assert_eq!(status.hostname, "box");
    assert_eq!(status.os, "linux");
    assert_eq!(status.version, "1.60");
    assert_eq!(status.magicsock.derp, "unknown");

    let sparse = parse_tailscale_status_checked("{}").unwrap().unwrap();
    assert_eq!(sparse.backend_state, "Unknown");
    assert!(sparse.tailscale_ips.is_empty());
    assert_eq!(sparse.hostname, "unknown");

    assert!(parse_tailscale_status_checked(r#"{"Self":{}}"#).is_none());
    match parse_tailscale_status_checked("not json").unwrap() {
        Err(VpnError::Config(m)) => assert!(m.starts_with("Failed to parse status JSON: ")),
        _ => panic!("expected a configuration error"),
    }

    let config = TailscaleConfig::from_settings(Some("k".to_string()), None, None, None).unwrap();
    let mut vpn = VpnManager::new(config);
    assert!(!vpn.is_connected());
    assert_eq!(vpn.accept_status(sparse), None);
    assert_eq!(vpn.accept_status(status).as_deref(), Some("100.64.0.1"));
    assert!(vpn.is_connected());
    assert_eq!(vpn.get_ip().map(|s| s.as_str()), Some("100.64.0.1"));
    assert!(vpn.get_status_snapshot().is_some());
    assert_eq!(vpn.get_config().auth_key, "k");
    vpn.mark_disconnected();
    assert!(!vpn.is_connected());
    assert!(vpn.get_ip().is_none());
}

#[test]
fn emulator_settings() {
    let config = DolphinConfig::default_streaming();
    assert_eq!(config.video.backend, "Vulkan");
    assert_eq!(config.video.resolution_scale, 2);
    assert_eq!(config.audio.latency, 32);
    assert_eq!(config.controls.players.len(), 1);
    assert_eq!(config.controls.players[&1].profile, "Remote Player");
    assert!(config.save_to_file("/tmp/x.ini").is_ok());
    assert_eq!(DolphinConfig::load_from_file("/tmp/x.ini").unwrap().audio.volume, 80);

    assert_eq!(startup_timeout_secs(None), 30);
    assert_eq!(startup_timeout_secs(Some("5".to_string())), 5);
    assert_eq!(startup_timeout_secs(Some("soon".to_string())), 30);
    assert_eq!(rom_path("/roms", "game.iso"), "/roms/game.iso");
    assert_eq!(window_search_attempt(2), None);
    assert_eq!(window_search_attempt(3), Some(0x12345678 + 3));

    let process_config = dpstream::emulator::process::DolphinConfig {
        executable_path: "/bin/sleep".to_string(),
        rom_directory: "/tmp/test-roms".to_string(),
        save_directory: "/tmp/test-saves".to_string(),
        window_title: "Dolphin Test".to_string(),
        enable_graphics_mods: false,
        enable_netplay: false,
        audio_backend: "nullsink".to_string(),
        video_backend: "Null".to_string(),
    };
    assert_eq!(
        launch_arguments(&process_config, "/tmp/test-roms/a.iso"),
        vec![
            "--exec",
            "/tmp/test-roms/a.iso",
            "--nogui",
            "--save",
            "/tmp/test-saves",
            "--audio-backend",
            "nullsink",
            "--video-backend",
            "Null"
        ]
    );
}

#[test]
fn test_button_command_formatting() {
    let cmd = format_button_command(1, DolphinButton::A, true);
    assert_eq!(cmd, "BUTTON 1 A PRESS");

    let cmd = format_button_command(2, DolphinButton::Start, false);
    assert_eq!(cmd, "BUTTON 2 START RELEASE");
}

#[test]
fn dpad_and_controller_commands() {
    assert_eq!(format_dpad_command(1, true, false, true, false), "DPAD 1 5");
    assert_eq!(format_dpad_command(3, true, true, true, true), "DPAD 3 15");
    assert_eq!(connect_command(2).unwrap(), "SET CONTROLLER 2 STANDARD");
    assert_eq!(connect_command(0), Err(InputError::InvalidPlayer { player: 0 }));
    assert_eq!(connect_command(5), Err(InputError::InvalidPlayer { player: 5 }));
    assert_eq!(disconnect_command(4), "SET CONTROLLER 4 NONE");

    let mut health = ConnectionHealth { commands_sent: 0, commands_failed: 0, is_healthy: false };
    assert_eq!(record_send(&mut health, None), Err(InputError::AdapterNotInitialized));
    assert!(record_send(&mut health, Some(Ok(()))).is_ok());
    assert!(health.is_healthy);
    assert_eq!(
        record_send(&mut health, Some(Err("closed".to_string()))),
        Err(InputError::CommandSendFailed { reason: "closed".to_string() })
    );
    assert_eq!(health, ConnectionHealth { commands_sent: 1, commands_failed: 1, is_healthy: false });
}

#[test]
fn button_conversion_and_buffering() {
    let layout = ButtonLayout {
        a_button: DolphinButton::A,
        b_button: DolphinButton::B,
        x_button: DolphinButton::X,
        y_button: DolphinButton::Y,
        z_button: DolphinButton::Z,
        l_button: DolphinButton::L,
        r_button: DolphinButton::R,
        start_button: DolphinButton::Start,
    };
    let commands = convert_buttons(2, &layout, 0x1000 | 0x0010 | 0x0001 | 0x0008);
    assert_eq!(commands.len(), 9);
    assert_eq!(
        commands[0],
        DigitalCommand::ButtonPress { player: 2, button: DolphinButton::A, pressed: true }
    );
    assert_eq!(
        commands[1],
        DigitalCommand::ButtonPress { player: 2, button: DolphinButton::B, pressed: false }
    );
    assert_eq!(
        commands[7],
        DigitalCommand::ButtonPress { player: 2, button: DolphinButton::Start, pressed: true }
    );
    assert_eq!(
        commands[8],
        DigitalCommand::DPadInput { player: 2, up: true, down: false, left: false, right: true }
    );

    let mut buffer = CommandBuffer::with_capacity(2);
    assert_eq!(buffer.take_batch(5), None);
    buffer.push(1u8);
    buffer.push(2u8);
    buffer.push(3u8);
    assert_eq!(buffer.len(), 2);
    assert_eq!(buffer.take_batch(1), Some(vec![2u8]));
    assert_eq!(buffer.take_all(), Some(vec![3u8]));
    assert_eq!(buffer.take_all(), None);
}

#[test]
fn player_slots() {
    assert_eq!(assign_player_slot(&vec![]), 1);
    assert_eq!(assign_player_slot(&vec![(1, true), (2, false)]), 2);
    assert_eq!(assign_player_slot(&vec![(1, true), (2, true), (3, true)]), 4);
    assert_eq!(assign_player_slot(&vec![(1, true), (2, true), (3, true), (4, true)]), 1);
    assert_eq!(count_active(&vec![(1, true), (2, false), (3, true)]), 2);
}

#[test]
fn test_health_monitor_creation() {
    let monitor = HealthMonitor::new("1.0.0".to_string());
    let status = monitor.get_health_status();

    assert_eq!(status.version, "1.0.0");
    assert!(matches!(status.status, ServiceStatus::Healthy));
}

#[test]
fn test_readiness_checks() {
    let readiness = readiness_from(
        vec![
            dpstream::health::dolphin_check(true),
            dpstream::health::streaming_service_check(),
            dpstream::health::redis_check(),
            network_interface_check(None),
            disk_space_check(None),
        ],
        0,
    );

    assert!(!readiness.checks.is_empty());
    assert!(readiness.ready);
}

#[test]
fn test_health_check_updates() {
    let mut monitor = HealthMonitor::new("1.0.0".to_string());

    monitor.update_check(
        "test_service",
        ServiceStatus::Degraded,
        "Test degraded state".to_string(),
    );

    let status = monitor.get_health_status();
    assert!(status.checks.iter().any(|(name, _)| name == "test_service"));
    assert!(matches!(status.status, ServiceStatus::Degraded));
}

#[test]
fn analog_trigger_and_pointer_commands() {
    assert_eq!(format_analog_command(1, AnalogStick::Main, 127, 127), "ANALOG 1 MAIN 127 127");
    assert_eq!(format_analog_command(1, AnalogStick::CStick, 255, 0), "ANALOG 1 C 255 0");
    assert_eq!(format_trigger_command(1, 127, 255), "TRIGGER 1 127 255");
    assert_eq!(format_pointer_command(3, 512, 384, 50), "POINTER 3 512 384 50");
}

#[test]
fn tailscale_command_arguments() {
    let config = TailscaleConfig::from_settings(
        Some("tskey-abc".to_string()),
        None,
        Some("10.0.0.0/8,192.168.0.0/16".to_string()),
        None,
    )
    .unwrap();
    assert_eq!(auth_arguments(&config), vec!["up", "--auth-key", "tskey-abc"]);
    assert_eq!(
        node_configuration_arguments(&config),
        vec![
            vec!["set".to_string(), "--hostname".to_string(), "dpstream-server".to_string()],
            vec![
                "set".to_string(),
                "--advertise-routes".to_string(),
                "10.0.0.0/8,192.168.0.0/16".to_string()
            ],
            vec!["set".to_string(), "--accept-dns".to_string()],
        ]
    );
    let quiet = TailscaleConfig {
        auth_key: "k".to_string(),
        hostname: "h".to_string(),
        advertise_routes: vec![],
        accept_dns: false,
    };
    assert_eq!(
        node_configuration_arguments(&quiet),
        vec![vec!["set".to_string(), "--hostname".to_string(), "h".to_string()]]
    );
}

#[test]
fn discovery_announcement() {
    let info = server_info_for(None, "100.64.0.1".to_string(), 47989);
    assert_eq!(info.hostname, "dpstream-server");
    assert_eq!(info.version, "1.0.0");
    assert_eq!(info.capabilities, vec!["dolphin", "gamecube", "wii", "h264", "nvenc", "tailscale"]);
    let named = server_info_for(Some("rig".to_string()), "10.0.0.2".to_string(), 1);
    assert_eq!((named.hostname.as_str(), named.ip.as_str(), named.port), ("rig", "10.0.0.2", 1));

    let mut service = DiscoveryService::new("100.64.0.1".to_string(), 47989).unwrap();
    assert!(!service.is_advertising());
    assert_eq!(service.get_server_info().port, 47989);
    service.start_advertising().unwrap();
    service.start_advertising().unwrap();
    assert!(service.is_advertising());
    service.stop_advertising().unwrap();
    assert!(!service.is_advertising());
    assert!(DiscoveryService::discover_servers(100).unwrap().is_empty());
}

#[test]
fn test_adapter_creation() {
    let adapter = DolphinInputAdapter::new();
    assert!(adapter.is_ok());

    let adapter = adapter.unwrap();
    let status = adapter.get_status();
    assert!(!status.is_active);
    assert_eq!(status.connected_controllers, 0);
}

#[test]
fn adapter_commands_over_the_pipe() {
    let mut adapter = DolphinInputAdapter::new().unwrap();
    assert_eq!(
        adapter.send_commands(vec![DigitalCommand::DPadInput {
            player: 1,
            up: true,
            down: false,
            left: false,
            right: false
        }]),
        Err(InputError::AdapterNotInitialized)
    );
    assert_eq!(adapter.send_command("HEARTBEAT".to_string()), Err(InputError::AdapterNotInitialized));

    let (tx, mut rx) = tokio::sync::mpsc::unbounded_channel::<String>();
    adapter.attach(tx, None);
    assert_eq!(adapter.connect_controller(5), Err(InputError::InvalidPlayer { player: 5 }));
    adapter
        .send_commands(vec![
            DigitalCommand::ButtonPress { player: 2, button: DolphinButton::A, pressed: true },
            DigitalCommand::DPadInput { player: 2, up: false, down: true, left: false, right: true },
            DigitalCommand::ButtonPress { player: 2, button: DolphinButton::B, pressed: false },
        ])
        .unwrap();
    let mut sent = Vec::new();
    while let Ok(c) = rx.try_recv() {
        sent.push(c);
    }
    assert_eq!(
        sent,
        vec![
            "SET CONTROLLER 2 STANDARD",
            "BUTTON 2 A PRESS",
            "DPAD 2 10",
            "BUTTON 2 B RELEASE"
        ]
    );
    let status = adapter.get_status();
    assert!(status.is_active);
    assert_eq!(status.connected_controllers, 1);
    assert!(!status.has_dolphin_process);

    assert!(adapter.is_connected(2));
    adapter.disconnect_controller(2).unwrap();
    assert!(!adapter.is_connected(2));
    assert_eq!(rx.try_recv().unwrap(), "SET CONTROLLER 2 NONE");
    adapter.disconnect_controller(3).unwrap();
    assert!(rx.try_recv().is_err());

    // Once the receiving side is gone, sends fail and the pipe turns unhealthy.
    adapter.connect_controller(1).unwrap();
    drop(rx);
    assert!(matches!(
        adapter.send_command("BUTTON 1 A PRESS".to_string()),
        Err(InputError::CommandSendFailed { .. })
    ));
    assert!(!adapter.check_health_at(u64::MAX));

    let process = adapter.shutdown();
    assert!(process.is_err());
    assert!(!adapter.get_status().is_active);
}

#[test]
fn adapter_shutdown_and_heartbeat() {
    let mut adapter = DolphinInputAdapter::new().unwrap();
    let (tx, mut rx) = tokio::sync::mpsc::unbounded_channel::<String>();
    adapter.attach(tx, None);
    adapter.connect_controller(1).unwrap();
    adapter.connect_controller(3).unwrap();
    assert!(adapter.check_health_at(u64::MAX));
    let _ = rx.try_recv();
    let _ = rx.try_recv();
    assert_eq!(rx.try_recv().unwrap(), "HEARTBEAT");
    assert!(adapter.shutdown().unwrap().is_none());
    assert_eq!(rx.try_recv().unwrap(), "SET CONTROLLER 1 NONE");
    assert_eq!(rx.try_recv().unwrap(), "SET CONTROLLER 3 NONE");
    let status = adapter.get_status();
    assert_eq!(status.connected_controllers, 0);
    assert!(!status.is_active);
}

/// A stick axis from -1.0..1.0 to the emulator's byte, as the server's
/// input side converts it before formatting.
fn axis_byte(v: f32) -> u8 {
    ((v + 1.0) * 127.5) as u8
}

/// A trigger from 0.0..1.0 to the emulator's byte.
fn trigger_byte(v: f32) -> u8 {
    (v * 255.0) as u8
}

#[test]
fn test_analog_command_formatting() {
    let cmd = format_analog_command(1, AnalogStick::Main, axis_byte(0.0), axis_byte(0.0));
    assert_eq!(cmd, "ANALOG 1 MAIN 127 127");

    let cmd = format_analog_command(1, AnalogStick::CStick, axis_byte(1.0), axis_byte(-1.0));
    assert_eq!(cmd, "ANALOG 1 C 255 0");
}

#[test]
fn test_trigger_command_formatting() {
    let cmd = format_trigger_command(1, trigger_byte(0.5), trigger_byte(1.0));
    assert_eq!(cmd, "TRIGGER 1 127 255");
}

use dpstream::error::ErrorContext;

#[test]
fn context_wraps_errors_only() {
    let ok: Result<u32, DpstreamError> = Ok(7);
    assert_eq!(ok.with_context(|| "unused".to_string()), Ok(7));
    let failed: Result<u32, DpstreamError> =
        Err(DpstreamError::Network(NetworkError::Timeout { timeout: 5 }));
    let wrapped = failed.with_context(|| "Loading profile".to_string());
    match wrapped {
        Err(DpstreamError::Internal(m)) => {
            assert!(m.starts_with("Loading profile: Network error: "), "{}", m);
        }
        other => panic!("unexpected {:?}", other),
    }
}

#[test]
fn adapter_batches_and_shutdown_outcomes() {
    // Nothing to unplug: shutdown succeeds at once.
    let mut idle = DolphinInputAdapter::new().unwrap();
    assert!(idle.shutdown().unwrap().is_none());

    // A controller without a pipe cannot be told to unplug.
    let mut unpiped = DolphinInputAdapter::new().unwrap();
    assert_eq!(unpiped.connect_controller(1), Err(InputError::AdapterNotInitialized));
    assert_eq!(unpiped.get_status().connected_controllers, 1);
    assert!(matches!(unpiped.shutdown(), Err(InputError::AdapterNotInitialized)));

    let mut adapter = DolphinInputAdapter::new().unwrap();
    let (tx, mut rx) = tokio::sync::mpsc::unbounded_channel::<String>();
    adapter.attach(tx, None);
    // Just created, the adapter has not been idle long enough for a heartbeat.
    assert!(adapter.check_health());
    assert!(rx.try_recv().is_err());
    // An empty batch succeeds and sends nothing.
    assert_eq!(adapter.send_commands(vec![]), Ok(()));
    assert!(rx.try_recv().is_err());
    // A button of a player outside 1 to 4 stops the batch before anything is sent.
    assert_eq!(
        adapter.send_commands(vec![
            DigitalCommand::ButtonPress { player: 7, button: DolphinButton::A, pressed: true },
            DigitalCommand::DPadInput { player: 1, up: true, down: false, left: false, right: false },
        ]),
        Err(InputError::InvalidPlayer { player: 7 })
    );
    assert!(rx.try_recv().is_err());
    assert_eq!(adapter.get_status().connected_controllers, 0);
    // The commands before a failure went through.
    assert_eq!(
        adapter.send_commands(vec![
            DigitalCommand::DPadInput { player: 1, up: true, down: false, left: false, right: false },
            DigitalCommand::ButtonPress { player: 9, button: DolphinButton::A, pressed: true },
        ]),
        Err(InputError::InvalidPlayer { player: 9 })
    );
    assert_eq!(rx.try_recv().unwrap(), "DPAD 1 1");
}
