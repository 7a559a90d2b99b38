use deadlock_rpc::game_state::{GamePhase, GameState, MatchMode};

#[test]
fn process_signal_twice_is_once() {
    for alive in [true, false] {
        for phase in [GamePhase::NotRunning, GamePhase::Hideout, GamePhase::InMatch] {
            let mut a = GameState::new();
            a.phase = phase;
            a.apply_process_signal(alive);
            let (p1, h1) = (a.phase, a.process_alive);
            a.apply_process_signal(alive);
            assert_eq!((a.phase, a.process_alive), (p1, h1));
        }
    }
}

#[test]
fn gone_process_wipes_hero_and_party() {
    let mut gs = GameState::new();
    gs.enter_hideout();
    gs.apply_hero_signal("hero_abrams");
    gs.apply_party_event(3, "joinedparty", 4);
    gs.apply_process_signal(false);
    assert_eq!(gs.hero_key, None);
    assert_eq!(gs.party_id, None);
    assert_eq!(gs.party_size, 1);
    assert!(gs.party_members.is_empty());
}

#[test]
fn reset_twice_is_reset_once() {
    let mut gs = GameState::new();
    gs.apply_process_signal(true);
    gs.start_match();
    gs.reset();
    gs.reset();
    assert_eq!(gs.phase, GamePhase::Running);
    assert!(gs.process_alive);
}

#[test]
fn clock_is_cleared_on_leaving_the_match() {
    let mut gs = GameState::new();
    gs.start_match();
    gs.end_match();
    gs.enter_queue();
    gs.leave_queue();
    assert!(gs.match_started_at.is_none());
    assert_eq!(gs.phase, GamePhase::Hideout);
}

#[test]
fn leaving_the_queue_from_a_match_clears_the_start_time() {
    let mut gs = GameState::new();
    gs.start_match();
    gs.leave_queue();
    assert_eq!(gs.phase, GamePhase::Hideout);
    assert!(gs.match_started_at.is_none());
    assert!(gs.match_elapsed().is_none());
}

#[test]
fn locked_hero_survives_signals() {
    let mut gs = GameState::new();
    gs.start_match();
    gs.match_mode = MatchMode::StreetBrawl;
    gs.apply_hero_signal("hero_lash");
    for h in ["hero_a", "hero_b", "hero_lash", ""] {
        gs.apply_hero_signal(h);
        assert_eq!(gs.hero_key.as_deref(), Some("hero_lash"));
    }
}

#[test]
fn reachable_states_stay_consistent() {
    let mut gs = GameState::new();
    gs.local_account_id = Some(1);
    gs.apply_party_event(2, "joinedparty", 3);
    gs.apply_party_event(2, "leftparty", 3);
    assert!(gs.party_size >= 1);
    gs.apply_party_event(2, "leftparty", 1);
    assert_eq!(gs.party_id, None);
    assert!(gs.party_members.is_empty());
    gs.apply_party_event(9, "leftparty", 4);
    assert!(gs.party_members.is_empty());
    assert!(gs.party_size >= 1);
    gs.start_match();
    gs.enter_queue();
    assert!(gs.match_started_at.is_none());
}
