use deadlock_rpc::game_state::{GamePhase, GameState};
use deadlock_rpc::process_watcher::{
    is_deadlock_comm, is_deadlock_exe_name, is_deadlock_name, is_pid_dir_name, PollOutcome, ProcessEdge,
    ProcessWatcher, POLL_SECS,
};

#[test]
fn first_sighting_without_log_data_is_reported() {
    let mut gs = GameState::new();
    let out = ProcessWatcher::observe(&mut gs, false, true);
    assert_eq!(out, PollOutcome { edge: ProcessEdge::Appeared, running_without_log_data: true });
    assert_eq!(gs.phase, GamePhase::Running);
    let out = ProcessWatcher::observe(&mut gs, true, true);
    assert_eq!(out, PollOutcome { edge: ProcessEdge::Unchanged, running_without_log_data: false });
}

#[test]
fn sighting_with_a_known_phase_is_not_generic() {
    let mut gs = GameState::new();
    gs.enter_hideout();
    let out = ProcessWatcher::observe(&mut gs, false, true);
    assert_eq!(out, PollOutcome { edge: ProcessEdge::Appeared, running_without_log_data: false });
    assert_eq!(gs.phase, GamePhase::Hideout);
}

#[test]
fn vanished_process_resets_the_state() {
    let mut gs = GameState::new();
    gs.start_match();
    let out = ProcessWatcher::observe(&mut gs, true, false);
    assert_eq!(out.edge, ProcessEdge::Vanished);
    assert!(!out.running_without_log_data);
    assert_eq!(gs.phase, GamePhase::NotRunning);
    let out = ProcessWatcher::observe(&mut gs, false, false);
    assert_eq!(out.edge, ProcessEdge::Unchanged);
}

#[test]
fn every_poll_corrects_a_stale_phase() {
    let mut gs = GameState::new();
    ProcessWatcher::observe(&mut gs, false, false);
    gs.phase = GamePhase::InMatch;
    ProcessWatcher::observe(&mut gs, false, false);
    assert_eq!(gs.phase, GamePhase::NotRunning);
}

#[test]
fn poll_interval() {
    assert_eq!(POLL_SECS, 2);
}

#[test]
fn process_directory_names() {
    assert!(is_pid_dir_name("1234"));
    assert!(is_pid_dir_name("0"));
    assert!(is_pid_dir_name(""));
    assert!(!is_pid_dir_name("self"));
    assert!(!is_pid_dir_name("12a"));
    assert!(!is_pid_dir_name("١٢"));
}

#[test]
fn game_process_names() {
    assert!(is_deadlock_name("deadlock"));
    assert!(is_deadlock_name("DeadLock"));
    assert!(!is_deadlock_name(" deadlock"));
    assert!(is_deadlock_comm("deadlock\n"));
    assert!(is_deadlock_comm("  Deadlock \t"));
    assert!(!is_deadlock_comm("deadlock2\n"));
    assert!(is_deadlock_exe_name("Deadlock.exe"));
    assert!(is_deadlock_exe_name("DEADLOCK.EXE"));
    assert!(!is_deadlock_exe_name("deadlock"));
}

#[test]
fn command_names_are_trimmed_of_unicode_white_space() {
    assert!(is_deadlock_comm("\u{3000}deadlock\u{85}"));
    assert!(!is_deadlock_comm("\u{200b}deadlock"));
}
