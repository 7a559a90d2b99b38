use deadlock_rpc::config::StatusStrings;
use deadlock_rpc::game_state::{format_match_elapsed, GamePhase, GameState, MatchMode, PartyEventKind};
use std::time::Duration;

#[test]
fn process_signal_promotes_not_running_to_running() {
    let mut gs = GameState::new();
    gs.apply_process_signal(true);
    assert_eq!(gs.phase, GamePhase::Running);
}

#[test]
fn process_signal_never_overrides_log_derived_phase() {
    let mut gs = GameState::new();
    gs.start_match();
    gs.apply_process_signal(true);
    assert_eq!(gs.phase, GamePhase::InMatch);
}

#[test]
fn process_gone_resets_to_not_running() {
    let mut gs = GameState::new();
    gs.apply_process_signal(true);
    gs.apply_process_signal(false);
    assert_eq!(gs.phase, GamePhase::NotRunning);
}

#[test]
fn process_gone_clears_stale_log_phase() {
    // A crashed session can leave the log resync stuck on an in-game phase.
    let mut gs = GameState::new();
    gs.start_match();
    gs.hero_key = Some("hero_dynamo".to_string());
    gs.apply_process_signal(false);
    assert_eq!(gs.phase, GamePhase::NotRunning);
    assert_eq!(gs.hero_key, None);
}

#[test]
fn process_signal_is_noop_when_nothing_runs() {
    let mut gs = GameState::new();
    gs.apply_process_signal(false);
    assert_eq!(gs.phase, GamePhase::NotRunning);
}

#[test]
fn reset_keeps_running_phase_while_process_alive() {
    // Stale log data replaying a shutdown must not mark a live game as closed.
    let mut gs = GameState::new();
    gs.apply_process_signal(true);
    gs.start_match();
    gs.reset();
    assert_eq!(gs.phase, GamePhase::Running);
}

#[test]
fn reset_goes_to_not_running_without_process() {
    let mut gs = GameState::new();
    gs.start_match();
    gs.reset();
    assert_eq!(gs.phase, GamePhase::NotRunning);
}

#[test]
fn running_phase_hides_hero_and_uses_in_game_status() {
    let mut gs = GameState::new();
    gs.apply_process_signal(true);
    assert!(!gs.phase.shows_hero());
    let cfg = StatusStrings::default();
    assert_eq!(gs.presence_status(None, None, None, &cfg), "In Game");
}

// ---- labels ----

#[test]
fn match_mode_labels_and_map_location() {
    let all = [
        (MatchMode::Unknown, "In Match", true),
        (MatchMode::Standard, "Standard Match", true),
        (MatchMode::Ranked, "Ranked Match", true),
        (MatchMode::StreetBrawl, "Street Brawl", true),
        (MatchMode::BotMatch, "Bot Match", false),
        (MatchMode::TrainingRange, "Training Range", false),
        (MatchMode::HeroLabs, "Hero Labs", false),
    ];
    for (mode, label, map) in all {
        assert_eq!(mode.display(), label);
        assert_eq!(mode.show_map_location(), map);
    }
}

#[test]
fn phase_descriptions_and_hero_visibility() {
    let all = [
        (GamePhase::NotRunning, "Not Running", false),
        (GamePhase::Running, "In Game", false),
        (GamePhase::MainMenu, "Main Menu", false),
        (GamePhase::Hideout, "Hideout", true),
        (GamePhase::InQueue, "Searching for Match", true),
        (GamePhase::MatchIntro, "Match Starting", true),
        (GamePhase::InMatch, "In Match", true),
        (GamePhase::PostMatch, "Post Match", false),
        (GamePhase::Spectating, "Spectating", false),
    ];
    for (phase, text, hero) in all {
        assert_eq!(phase.description(), text);
        assert_eq!(phase.shows_hero(), hero);
    }
}

// ---- clock text ----

#[test]
fn elapsed_under_an_hour_is_minutes_and_seconds() {
    assert_eq!(format_match_elapsed(Duration::from_secs(462)), "07:42");
    assert_eq!(format_match_elapsed(Duration::from_secs(0)), "00:00");
    assert_eq!(format_match_elapsed(Duration::from_secs(3599)), "59:59");
}

#[test]
fn elapsed_past_an_hour_shows_hours() {
    assert_eq!(format_match_elapsed(Duration::from_secs(3600)), "1:00:00");
    assert_eq!(format_match_elapsed(Duration::from_secs(4062)), "1:07:42");
    assert_eq!(format_match_elapsed(Duration::from_secs(36000 + 61)), "10:01:01");
}

#[test]
fn elapsed_ignores_fractions_of_a_second() {
    assert_eq!(format_match_elapsed(Duration::from_millis(62_999)), "01:02");
}

// ---- fresh state and phase transitions ----

#[test]
fn new_state_is_fresh() {
    let gs = GameState::new();
    assert_eq!(gs.phase, GamePhase::NotRunning);
    assert_eq!(gs.match_mode, MatchMode::Unknown);
    assert_eq!(gs.hero_key, None);
    assert_eq!(gs.map_name, None);
    assert_eq!(gs.party_size, 1);
    assert!(gs.match_started_at.is_none());
    assert!(gs.hero_window_open);
    assert!(!gs.hideout_loaded);
    assert_eq!(gs.local_account_id, None);
    assert_eq!(gs.party_id, None);
    assert!(gs.party_members.is_empty());
    assert_eq!(gs.pending_player_count, 0);
    assert!(!gs.process_alive);
}

#[test]
fn reset_clears_everything_but_the_process_observation() {
    let mut gs = GameState::new();
    gs.apply_process_signal(true);
    gs.enter_hideout();
    gs.apply_hero_signal("hero_haze");
    gs.local_account_id = Some(7);
    gs.apply_party_event(3, "JoinedParty", 7);
    gs.match_mode = MatchMode::Ranked;
    gs.reset();
    assert_eq!(gs.phase, GamePhase::Running);
    assert!(gs.process_alive);
    assert_eq!(gs.hero_key, None);
    assert_eq!(gs.party_id, None);
    assert!(gs.party_members.is_empty());
    assert_eq!(gs.party_size, 1);
    assert_eq!(gs.local_account_id, None);
    assert_eq!(gs.match_mode, MatchMode::Unknown);
}

#[test]
fn phase_transitions_stop_the_clock() {
    let mut gs = GameState::new();
    gs.start_match();
    assert!(gs.match_started_at.is_some());
    gs.end_match();
    assert_eq!(gs.phase, GamePhase::PostMatch);
    assert!(gs.match_started_at.is_none());

    gs.start_match();
    gs.enter_spectating();
    assert_eq!(gs.phase, GamePhase::Spectating);
    assert!(gs.match_started_at.is_none());

    gs.start_match();
    gs.enter_main_menu();
    assert_eq!(gs.phase, GamePhase::MainMenu);
    assert!(gs.match_started_at.is_none());

    gs.start_match();
    gs.enter_queue();
    assert_eq!(gs.phase, GamePhase::InQueue);
    assert!(gs.match_started_at.is_none());
    gs.leave_queue();
    assert_eq!(gs.phase, GamePhase::Hideout);

    gs.start_match();
    gs.enter_hideout();
    assert_eq!(gs.phase, GamePhase::Hideout);
    assert!(gs.match_started_at.is_none());
}

#[test]
fn enter_hideout_forgets_the_hero() {
    let mut gs = GameState::new();
    gs.start_match();
    gs.apply_hero_signal("hero_wraith");
    gs.hideout_loaded = true;
    gs.enter_hideout();
    assert_eq!(gs.hero_key, None);
    assert!(gs.hero_window_open);
    assert!(!gs.hideout_loaded);
}

#[test]
fn match_intro_resets_match_tracking() {
    let mut gs = GameState::new();
    gs.match_mode = MatchMode::BotMatch;
    gs.hero_key = Some("hero_atlas".to_string());
    gs.hero_window_open = false;
    gs.pending_player_count = 12;
    gs.enter_match_intro();
    assert_eq!(gs.phase, GamePhase::MatchIntro);
    assert_eq!(gs.match_mode, MatchMode::Unknown);
    assert_eq!(gs.hero_key, None);
    assert!(gs.hero_window_open);
    assert_eq!(gs.pending_player_count, 0);
    assert!(gs.match_started_at.is_none());
}

#[test]
fn repeated_start_match_keeps_the_clock() {
    let mut gs = GameState::new();
    gs.start_match();
    let first = gs.match_started_at;
    while std::time::Instant::now() == first.unwrap() {}
    gs.start_match();
    assert_eq!(gs.match_started_at, first);
    assert_eq!(gs.phase, GamePhase::InMatch);
}

#[test]
fn match_elapsed_only_during_a_match() {
    let mut gs = GameState::new();
    assert!(gs.match_elapsed().is_none());
    gs.start_match();
    assert!(gs.match_elapsed().is_some());
    gs.phase = GamePhase::PostMatch;
    assert!(gs.match_elapsed().is_none());
    gs.phase = GamePhase::InMatch;
    gs.match_started_at = None;
    assert!(gs.match_elapsed().is_none());
}

#[test]
fn prepare_match_hero_tracking_reopens_selection() {
    let mut gs = GameState::new();
    gs.hero_key = Some("hero_x".to_string());
    gs.hero_window_open = false;
    gs.prepare_match_hero_tracking();
    assert_eq!(gs.hero_key, None);
    assert!(gs.hero_window_open);
}

// ---- hero signals ----

#[test]
fn hero_is_locked_in_during_a_match() {
    let mut gs = GameState::new();
    gs.enter_match_intro();
    gs.apply_hero_signal("hero_haze");
    assert_eq!(gs.hero_key.as_deref(), Some("hero_haze"));
    assert!(!gs.hero_window_open);
    gs.apply_hero_signal("hero_bebop");
    assert_eq!(gs.hero_key.as_deref(), Some("hero_haze"));
    gs.start_match();
    gs.apply_hero_signal("hero_bebop");
    assert_eq!(gs.hero_key.as_deref(), Some("hero_haze"));
    gs.apply_hero_signal("hero_haze");
    assert_eq!(gs.hero_key.as_deref(), Some("hero_haze"));
}

#[test]
fn closed_hero_window_refuses_a_first_hero() {
    let mut gs = GameState::new();
    gs.start_match();
    gs.hero_window_open = false;
    gs.apply_hero_signal("hero_haze");
    assert_eq!(gs.hero_key, None);
}

#[test]
fn free_swap_modes_take_any_hero() {
    for mode in [MatchMode::TrainingRange, MatchMode::HeroLabs] {
        let mut gs = GameState::new();
        gs.start_match();
        gs.match_mode = mode;
        gs.apply_hero_signal("hero_haze");
        gs.apply_hero_signal("hero_bebop");
        assert_eq!(gs.hero_key.as_deref(), Some("hero_bebop"));
        assert!(!gs.hero_window_open);
    }
}

#[test]
fn hero_signals_by_phase() {
    let mut gs = GameState::new();
    gs.enter_spectating();
    gs.apply_hero_signal("hero_haze");
    assert_eq!(gs.hero_key, None);

    gs.enter_main_menu();
    gs.apply_hero_signal("hero_haze");
    assert_eq!(gs.hero_key, None);

    gs.end_match();
    gs.apply_hero_signal("hero_haze");
    assert_eq!(gs.hero_key, None);

    gs.enter_hideout();
    gs.apply_hero_signal("hero_haze");
    gs.apply_hero_signal("hero_bebop");
    assert_eq!(gs.hero_key.as_deref(), Some("hero_bebop"));
    assert!(gs.hero_window_open);

    gs.enter_queue();
    gs.apply_hero_signal("hero_wraith");
    assert_eq!(gs.hero_key.as_deref(), Some("hero_wraith"));
}

// ---- party events ----

#[test]
fn local_join_starts_a_party_of_self() {
    let mut gs = GameState::new();
    gs.local_account_id = Some(100);
    gs.apply_party_event(9, "JoinedParty", 100);
    assert_eq!(gs.party_id, Some(9));
    assert_eq!(gs.party_members.len(), 1);
    assert!(gs.party_members.contains(&100));
    assert_eq!(gs.party_size, 2);
}

#[test]
fn event_names_are_matched_in_any_case() {
    let mut gs = GameState::new();
    gs.local_account_id = Some(100);
    gs.apply_party_event(9, "PARTY_JOINEDPARTY_EVENT", 100);
    assert_eq!(gs.party_id, Some(9));
    gs.apply_party_event(9, "k_EJoinedParty", 200);
    gs.apply_party_event(9, "JoinedParty", 300);
    assert_eq!(gs.party_size, 3);
    gs.apply_party_event(9, "KickedFromParty", 300);
    assert_eq!(gs.party_size, 2);
    assert!(!gs.party_members.contains(&300));
}

#[test]
fn join_of_another_party_replaces_the_members() {
    let mut gs = GameState::new();
    gs.apply_party_event(1, "joinedparty", 10);
    gs.apply_party_event(1, "joinedparty", 11);
    assert_eq!(gs.party_members.len(), 2);
    gs.apply_party_event(2, "joinedparty", 12);
    assert_eq!(gs.party_id, Some(2));
    assert_eq!(gs.party_members.len(), 1);
    assert!(gs.party_members.contains(&12));
    assert_eq!(gs.party_size, 2);
}

#[test]
fn leaving_members_shrink_the_party() {
    let mut gs = GameState::new();
    gs.local_account_id = Some(1);
    gs.apply_party_event(5, "joinedparty", 1);
    gs.apply_party_event(5, "joinedparty", 2);
    gs.apply_party_event(5, "joinedparty", 3);
    assert_eq!(gs.party_size, 3);
    gs.apply_party_event(5, "leftparty", 2);
    assert_eq!(gs.party_size, 2);
    gs.apply_party_event(5, "removedfromparty", 3);
    assert_eq!(gs.party_size, 1);
    assert_eq!(gs.party_id, Some(5));
    assert!(gs.party_members.contains(&1));
}

#[test]
fn local_leave_or_disband_clears_the_party() {
    let mut gs = GameState::new();
    gs.local_account_id = Some(1);
    gs.apply_party_event(5, "joinedparty", 1);
    gs.apply_party_event(5, "joinedparty", 2);
    gs.apply_party_event(5, "leftparty", 1);
    assert_eq!(gs.party_id, None);
    assert!(gs.party_members.is_empty());
    assert_eq!(gs.party_size, 1);

    gs.apply_party_event(6, "joinedparty", 1);
    gs.apply_party_event(6, "PartyDisbanded", 77);
    assert_eq!(gs.party_id, None);
    assert!(gs.party_members.is_empty());
    assert_eq!(gs.party_size, 1);
}

#[test]
fn unrelated_events_change_nothing() {
    let mut gs = GameState::new();
    gs.apply_party_event(5, "joinedparty", 1);
    gs.apply_party_event(5, "chatmessage", 2);
    assert_eq!(gs.party_id, Some(5));
    assert_eq!(gs.party_members.len(), 1);
    assert_eq!(gs.party_size, 2);
}

#[test]
fn unknown_local_account_never_matches_a_real_id() {
    let mut gs = GameState::new();
    gs.apply_party_event(5, "joinedparty", 1);
    gs.apply_party_event(5, "joinedparty", 2);
    gs.apply_party_event(5, "leftparty", 1);
    assert_eq!(gs.party_id, Some(5));
    assert_eq!(gs.party_size, 1);
}

#[test]
fn party_size_is_the_member_count_truncated_to_a_byte() {
    let mut gs = GameState::new();
    for id in 0..255u64 {
        gs.apply_party_event(4, "joinedparty", id);
    }
    assert_eq!(gs.party_size, 255);
    gs.apply_party_event(4, "joinedparty", 255);
    assert_eq!(gs.party_members.len(), 256);
    assert_eq!(gs.party_size, 2);
    gs.apply_party_event(4, "joinedparty", 256);
    assert_eq!(gs.party_size, 2);
    gs.apply_party_event(4, "joinedparty", 257);
    assert_eq!(gs.party_size, 2);
    gs.apply_party_event(4, "joinedparty", 258);
    assert_eq!(gs.party_size, 3);
}

#[test]
fn party_event_kinds() {
    assert_eq!(GameState::party_event_kind("joinedparty"), PartyEventKind::Joined);
    assert_eq!(GameState::party_event_kind("x_leftparty"), PartyEventKind::Left);
    assert_eq!(GameState::party_event_kind("removedfromparty"), PartyEventKind::Left);
    assert_eq!(GameState::party_event_kind("kickedfromparty"), PartyEventKind::Left);
    assert_eq!(GameState::party_event_kind("disbanded"), PartyEventKind::Disbanded);
    assert_eq!(GameState::party_event_kind("JoinedParty"), PartyEventKind::Other);
    assert_eq!(GameState::party_event_kind(""), PartyEventKind::Other);
}

#[test]
fn clear_party_resets_the_party() {
    let mut gs = GameState::new();
    gs.apply_party_event(5, "joinedparty", 1);
    gs.clear_party();
    assert_eq!(gs.party_id, None);
    assert!(gs.party_members.is_empty());
    assert_eq!(gs.party_size, 1);
}

#[test]
fn match_elapsed_is_measured_from_the_recorded_start() {
    let mut gs = GameState::new();
    let now = std::time::Instant::now();
    assert_eq!(gs.match_elapsed_at(&now), None);
    gs.start_match();
    let start = gs.match_started_at.unwrap();
    assert_eq!(gs.match_elapsed_at(&(start + Duration::from_secs(462))), Some(Duration::from_secs(462)));
    assert_eq!(gs.match_elapsed_at(&start), Some(Duration::ZERO));
    let later = std::time::Instant::now();
    let elapsed = gs.match_elapsed().unwrap();
    assert!(elapsed >= later.saturating_duration_since(start));
    gs.end_match();
    assert_eq!(gs.match_elapsed_at(&(start + Duration::from_secs(5))), None);
}
