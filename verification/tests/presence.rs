use deadlock_rpc::config::{apply_vars, StatusStrings};
use deadlock_rpc::game_state::{GamePhase, GameState, MatchMode};

fn cfg() -> StatusStrings {
    StatusStrings {
        game_not_running: "Idle".to_string(),
        in_game: "Playing".to_string(),
        in_main_menu: "Menu".to_string(),
        in_hideout: "Hideout as {hero}".to_string(),
        in_matchmaking: "Queueing".to_string(),
        loading_into_match: "Loading {mode}".to_string(),
        in_match: "{mode} @ {location} [{timer}]".to_string(),
        match_location_label: "Lane".to_string(),
        post_match: "GG".to_string(),
        spectating: "Watching".to_string(),
    }
}

fn at(phase: GamePhase) -> GameState {
    let mut gs = GameState::new();
    gs.phase = phase;
    gs
}

#[test]
fn default_templates() {
    let c = StatusStrings::default();
    assert_eq!(c.game_not_running, "Not Running");
    assert_eq!(c.in_game, "In Game");
    assert_eq!(c.in_main_menu, "Main Menu");
    assert_eq!(c.in_hideout, "Hideout");
    assert_eq!(c.in_matchmaking, "Searching for Match");
    assert_eq!(c.loading_into_match, "Loading into {mode}");
    assert_eq!(c.in_match, "{mode} - {location}");
    assert_eq!(c.match_location_label, "In Lane");
    assert_eq!(c.post_match, "Post Match");
    assert_eq!(c.spectating, "Spectating");
}

#[test]
fn plain_phases_use_their_template() {
    let c = cfg();
    assert_eq!(at(GamePhase::NotRunning).presence_status(None, None, None, &c), "Idle");
    assert_eq!(at(GamePhase::Running).presence_status(None, None, None, &c), "Playing");
    assert_eq!(at(GamePhase::MainMenu).presence_status(Some("x"), Some("y"), Some("z"), &c), "Menu");
    assert_eq!(at(GamePhase::InQueue).presence_status(None, None, None, &c), "Queueing");
    assert_eq!(at(GamePhase::PostMatch).presence_status(None, None, None, &c), "GG");
    assert_eq!(at(GamePhase::Spectating).presence_status(None, None, None, &c), "Watching");
}

#[test]
fn hideout_text_takes_priority() {
    let c = cfg();
    let gs = at(GamePhase::Hideout);
    assert_eq!(gs.presence_status(Some("Custom text"), Some("Haze"), None, &c), "Custom text");
    assert_eq!(gs.presence_status(Some(""), Some("Haze"), None, &c), "Hideout as Haze");
    assert_eq!(gs.presence_status(None, Some("Haze"), None, &c), "Hideout as Haze");
    assert_eq!(gs.presence_status(None, None, None, &c), "Hideout as ");
}

#[test]
fn match_intro_names_the_mode() {
    let c = cfg();
    let mut gs = at(GamePhase::MatchIntro);
    assert_eq!(gs.presence_status(None, None, None, &c), "Loading In Match");
    gs.match_mode = MatchMode::BotMatch;
    assert_eq!(gs.presence_status(None, None, None, &c), "Loading Bot Match");
}

#[test]
fn match_template_places_the_timer() {
    let c = cfg();
    let mut gs = at(GamePhase::InMatch);
    gs.match_mode = MatchMode::Standard;
    assert_eq!(gs.presence_status(None, None, Some("07:42"), &c), "Standard Match @ Lane [07:42]");
    assert_eq!(gs.presence_status(None, None, None, &c), "Standard Match @ Lane []");
}

#[test]
fn old_templates_get_the_timer_appended() {
    let c = StatusStrings::default();
    let mut gs = at(GamePhase::InMatch);
    gs.match_mode = MatchMode::Ranked;
    assert_eq!(gs.presence_status(None, None, Some("1:02:03"), &c), "Ranked Match - In Lane - 1:02:03");
    assert_eq!(gs.presence_status(None, None, None, &c), "Ranked Match - In Lane");
}

#[test]
fn modes_without_a_map_show_the_mode_and_timer() {
    let c = cfg();
    let mut gs = at(GamePhase::InMatch);
    gs.match_mode = MatchMode::HeroLabs;
    assert_eq!(gs.presence_status(None, None, Some("00:10"), &c), "Hero Labs - 00:10");
    assert_eq!(gs.presence_status(None, None, None, &c), "Hero Labs");
}

#[test]
fn timer_is_always_shown_in_a_match() {
    let templates = ["{timer}", "{mode}{timer}{location}", "no placeholders", "{timer} {timer}", "{mode}"];
    let modes = [MatchMode::Unknown, MatchMode::StreetBrawl, MatchMode::BotMatch, MatchMode::TrainingRange];
    for t in templates {
        for m in modes {
            let mut c = cfg();
            c.in_match = t.to_string();
            let mut gs = at(GamePhase::InMatch);
            gs.match_mode = m;
            let s = gs.presence_status(None, None, Some("12:34"), &c);
            assert!(s.contains("12:34"), "{s}");
        }
    }
}

#[test]
fn variables_are_substituted_in_order() {
    assert_eq!(apply_vars("{a}-{b}-{a}", &[("a", "1"), ("b", "2")]), "1-2-1");
    assert_eq!(apply_vars("{a}", &[("a", "{b}"), ("b", "x")]), "x");
    assert_eq!(apply_vars("{b}", &[("a", "1")]), "{b}");
    assert_eq!(apply_vars("plain", &[]), "plain");
    assert_eq!(apply_vars("{{a}}", &[("a", "z")]), "{z}");
}
