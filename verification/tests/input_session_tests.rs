use dpstream::error::InputError;
use dpstream::input::mapping::{ControllerMapping, GameProfile};
use dpstream::input::processor::DigitalCommand;
use dpstream::input::session::{ServerInputManager, StoredProfile};
use dpstream::streaming::moonlight::ControllerInput;

fn packet(buttons: u32) -> ControllerInput {
    ControllerInput {
        buttons,
        left_stick_x: 0,
        left_stick_y: 0,
        right_stick_x: 0,
        right_stick_y: 0,
        left_trigger: 0,
        right_trigger: 0,
    }
}

#[test]
fn sessions_take_the_first_free_slots() {
    let mut m = ServerInputManager::new().unwrap();
    let stats = m.get_stats();
    assert_eq!(stats.total_sessions, 0);
    assert_eq!(m.register_client_at(10, 100), 1);
    assert_eq!(m.register_client_at(20, 100), 2);
    assert_eq!(m.register_client_at(30, 100), 3);
    assert_eq!(m.register_client_at(40, 100), 4);
    // All four slots are held: the fifth player shares the first.
    assert_eq!(m.register_client_at(50, 100), 1);
    let stats = m.get_stats();
    assert_eq!(stats.total_sessions, 5);
    assert_eq!(stats.active_sessions, 5);
    assert_eq!(m.session(20).unwrap().player_slot, 2);
    assert_eq!(m.session(20).unwrap().mapping.name, "Default GameCube");
    assert!(m.session(99).is_none());
}

#[test]
fn registering_an_id_again_replaces_its_session() {
    let mut m = ServerInputManager::new().unwrap();
    assert_eq!(m.register_client_at(7, 100), 1);
    // The old session still holds slot 1 while the new slot is chosen.
    assert_eq!(m.register_client_at(7, 200), 2);
    assert_eq!(m.get_stats().total_sessions, 1);
    assert_eq!(m.session(7).unwrap().last_input_secs, 200);
}

#[test]
fn unregistering_frees_the_slot() {
    let mut m = ServerInputManager::new().unwrap();
    m.register_client_at(1, 0);
    m.register_client_at(2, 0);
    assert_eq!(m.unregister_client(1), Ok(()));
    assert!(m.session(1).is_none());
    assert_eq!(m.unregister_client(1), Ok(()));
    assert_eq!(m.register_client_at(3, 0), 1);
}

#[test]
fn mappings_per_session_and_per_game() {
    let mut m = ServerInputManager::new().unwrap();
    m.register_client_at(1, 0);
    m.register_client_at(2, 0);
    assert_eq!(m.update_mapping(2, ControllerMapping::default_wii_remote()), Ok(()));
    assert_eq!(m.session(2).unwrap().mapping.name, "Default Wii Remote");
    assert_eq!(m.session(1).unwrap().mapping.name, "Default GameCube");
    assert_eq!(m.update_mapping(9, ControllerMapping::default_wii_remote()), Ok(()));

    assert_eq!(m.load_game_profile("GALE01", StoredProfile::Unreadable), Ok(()));
    assert_eq!(m.session(2).unwrap().mapping.name, "Default Wii Remote");

    assert_eq!(m.load_game_profile("GALE01", StoredProfile::Missing), Ok(()));
    assert_eq!(m.session(1).unwrap().mapping.name, "Smash Bros. Melee");
    assert_eq!(m.session(2).unwrap().mapping.name, "Smash Bros. Melee");

    let brawl = GameProfile::default_for_game("RSBE01");
    assert_eq!(m.load_game_profile("GALE01", StoredProfile::Loaded(brawl)), Ok(()));
    assert_eq!(m.session(1).unwrap().mapping.name, "Smash Bros. Brawl");
    m.register_client_at(3, 0);
    assert_eq!(m.session(3).unwrap().mapping.name, "Smash Bros. Brawl");
}

#[test]
fn idle_sessions_expire() {
    let mut m = ServerInputManager::new().unwrap();
    m.register_client_at(1, 100);
    m.register_client_at(2, 100);
    m.register_client_at(3, 100);
    m.note_input_at(2, 120);
    // Thirty seconds is not yet too long.
    assert_eq!(m.expire_idle_sessions_at(130), Ok(vec![]));
    assert_eq!(m.expire_idle_sessions_at(131), Ok(vec![1, 3]));
    assert_eq!(m.get_stats().total_sessions, 1);
    assert!(m.session(2).is_some());
    // A clock that went back leaves the sessions alone.
    assert_eq!(m.expire_idle_sessions_at(50), Ok(vec![]));
}

#[test]
fn a_failed_unplugging_stops_the_expiry() {
    let mut m = ServerInputManager::new().unwrap();
    m.register_client_at(1, 0);
    m.register_client_at(2, 0);
    // Without a pipe the controller counts as plugged in, but the command fails.
    assert_eq!(
        m.adapter_mut().connect_controller(1),
        Err(InputError::AdapterNotInitialized)
    );
    assert_eq!(
        m.expire_idle_sessions_at(100),
        Err(InputError::AdapterNotInitialized)
    );
    // The first session went; the second stays, marked inactive.
    assert!(m.session(1).is_none());
    let second = m.session(2).unwrap();
    assert!(!second.is_active);
    let stats = m.get_stats();
    assert_eq!(stats.total_sessions, 1);
    assert_eq!(stats.active_sessions, 0);
    assert_eq!(m.expire_idle_sessions_at(100), Ok(vec![2]));
}

#[test]
fn a_default_manager_is_empty() {
    let m = ServerInputManager::default();
    let stats = m.get_stats();
    assert_eq!(stats.total_sessions, 0);
    assert_eq!(stats.active_sessions, 0);
}

#[test]
fn a_round_takes_ten_packets_and_sends_one_batch() {
    let mut m = ServerInputManager::new().unwrap();
    assert_eq!(m.register_client_at(5, 100), 1);
    let packets: Vec<ControllerInput> = (0..12).map(|_| packet(0)).collect();
    let (taken, batch) = m.process_session_packets(5, &packets);
    assert_eq!(taken, 10);
    let batch = batch.unwrap();
    assert_eq!(batch.len(), 20);
    // Every command goes to the session's player.
    for c in &batch {
        let player = match c {
            DigitalCommand::ButtonPress { player, .. } => *player,
            DigitalCommand::DPadInput { player, .. } => *player,
        };
        assert_eq!(player, 1);
    }
    let stats = m.get_stats().processor_stats;
    assert_eq!(stats.packets_processed, 10);
    assert_eq!(stats.commands_sent, 20);
    assert_eq!(stats.commands_dropped, 0);
    assert_eq!(m.pending_count(), 70);

    // The two packets left over come in the next round.
    let (taken, batch) = m.process_session_packets(5, &packets[10..].to_vec());
    assert_eq!(taken, 2);
    assert_eq!(batch.unwrap().len(), 20);
    let stats = m.get_stats().processor_stats;
    assert_eq!(stats.packets_processed, 12);
    assert_eq!(stats.commands_sent, 40);
    assert_eq!(m.pending_count(), 68);
}

#[test]
fn a_full_buffer_drops_its_oldest_commands() {
    let mut m = ServerInputManager::new().unwrap();
    m.register_client_at(5, 100);
    let packets: Vec<ControllerInput> = (0..10).map(|_| packet(0)).collect();
    let mut pending: u64 = 0;
    let mut dropped: u64 = 0;
    for _ in 0..20 {
        m.process_session_packets(5, &packets);
        let total = pending + 90;
        if total > 1000 {
            dropped += total - 1000;
        }
        pending = total.min(1000) - 20;
        assert_eq!(m.pending_count() as u64, pending);
    }
    let stats = m.get_stats().processor_stats;
    assert!(dropped > 0);
    assert_eq!(stats.commands_dropped, dropped);
    assert_eq!(stats.commands_sent, 400);
    assert_eq!(stats.packets_processed, 200);
}

#[test]
fn a_round_for_an_unknown_session_still_sends_what_waits() {
    let mut m = ServerInputManager::new().unwrap();
    m.register_client_at(5, 100);
    let packets = vec![packet(0x1000), packet(0)];
    let (taken, batch) = m.process_session_packets(5, &packets);
    assert_eq!(taken, 2);
    assert_eq!(batch.unwrap().len(), 18);
    assert_eq!(m.pending_count(), 0);
    let (taken, batch) = m.process_session_packets(99, &packets);
    assert_eq!(taken, 0);
    assert!(batch.is_none());

    let many: Vec<ControllerInput> = (0..10).map(|_| packet(0)).collect();
    m.process_session_packets(5, &many);
    assert_eq!(m.pending_count(), 70);
    let (taken, batch) = m.process_session_packets(99, &many);
    assert_eq!(taken, 0);
    assert_eq!(batch.unwrap().len(), 20);
    assert_eq!(m.pending_count(), 50);
    let stats = m.get_stats().processor_stats;
    assert_eq!(stats.packets_processed, 12);
    assert_eq!(stats.commands_sent, 58);
}

#[test]
fn an_empty_round_leaves_the_counters() {
    let mut m = ServerInputManager::new().unwrap();
    m.register_client_at(5, 100);
    let (taken, batch) = m.process_session_packets(5, &Vec::new());
    assert_eq!(taken, 0);
    assert!(batch.is_none());
    assert_eq!(m.get_stats().processor_stats.packets_processed, 0);
}
