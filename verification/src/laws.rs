//! Properties of the game-state machine as a whole, stated over the abstract
//! transitions that the methods of `GameState` are proved to follow.

use vstd::prelude::*;
use std::time::Instant;

use crate::config::{placeholder, substitute_vars, StatusStrings};
use crate::game_state::{
    party_event_kind_of, text_or_empty, GamePhase, GameStateView, MatchMode, PartyEventKind,
};
use crate::text::{
    is_brace_word, lemma_contains_after_prefix, lemma_contains_appended,
    lemma_replace_all_keeps_brace_word, lemma_replace_all_shows_replacement, occurs_at,
    seq_contains,
};
use crate::process_watcher::{edge_of, is_pid_name, ProcessEdge};
use crate::clock::duration_between;
use crate::game_state::GameState;
use crate::text::replace_all;

verus! {

/// The match clock runs only in a match: a start time is recorded only in the
/// InMatch phase.
pub open spec fn clock_runs_only_in_match(s: GameStateView) -> bool {
    s.match_started_at is Some ==> s.phase == GamePhase::InMatch
}

/// A process observation applied twice has the effect of applying it once.
pub proof fn law_process_signal_idempotent(s: GameStateView, alive: bool)
    ensures
        s.after_process_signal(alive).after_process_signal(alive) == s.after_process_signal(alive),
{
}

/// A live process never overrides a phase the log watcher established; it only
/// promotes NotRunning to the generic Running phase.
pub proof fn law_alive_process_keeps_known_phase(s: GameStateView)
    ensures
        s.phase != GamePhase::NotRunning ==> s.after_process_signal(true).phase == s.phase,
        s.phase == GamePhase::NotRunning ==> s.after_process_signal(true).phase == GamePhase::Running,
        s.after_process_signal(true).process_alive,
{
}

/// When the process is gone, every state but NotRunning is reset to the fresh
/// state, stale hero and party included; NotRunning stays NotRunning.
pub proof fn law_gone_process_resets(s: GameStateView)
    ensures
        s.phase != GamePhase::NotRunning ==> s.after_process_signal(false) == GameStateView::initial(),
        s.after_process_signal(false).phase == GamePhase::NotRunning,
        !s.after_process_signal(false).process_alive,
{
}

/// A reset shows Running while the process is alive and NotRunning otherwise,
/// keeps the process observation, and a second reset changes nothing.
pub proof fn law_reset_follows_process(s: GameStateView)
    ensures
        s.after_reset().phase == (if s.process_alive { GamePhase::Running } else { GamePhase::NotRunning }),
        s.after_reset().process_alive == s.process_alive,
        s.after_reset().after_reset() == s.after_reset(),
        !s.process_alive ==> s.after_reset() == GameStateView::initial(),
{
}

/// A repeated start of the match does not restart its clock.
pub proof fn law_start_match_keeps_clock(s: GameStateView, first: Instant, second: Instant)
    ensures
        s.after_start_match(first).after_start_match(second) == s.after_start_match(first),
        s.after_start_match(first).match_started_at is Some,
{
}

/// What holds of every state reached from the fresh state through the methods:
/// the party shows at least one player, no party means no members, and the match
/// clock runs only in a match.
pub open spec fn consistent(s: GameStateView) -> bool {
    &&& s.party_size >= 1
    &&& s.party_id is None ==> s.party_members.is_empty()
    &&& clock_runs_only_in_match(s)
}

/// The fresh state is consistent and every transition keeps a consistent state
/// consistent; in particular the start time is cleared whenever the InMatch
/// phase is left.
pub proof fn law_transitions_keep_consistency(
    s: GameStateView,
    alive: bool,
    party_id: u64,
    kind: PartyEventKind,
    account_id: u64,
    now: Instant,
    hero: Seq<char>,
)
    requires
        consistent(s),
    ensures
        consistent(GameStateView::initial()),
        consistent(s.after_reset()),
        consistent(s.after_process_signal(alive)),
        consistent(s.after_enter_hideout()),
        consistent(s.after_clear_party()),
        consistent(s.after_party_event(party_id, kind, account_id)),
        consistent(s.after_enter_main_menu()),
        consistent(s.after_enter_queue()),
        consistent(s.after_leave_queue()),
        consistent(s.after_enter_match_intro()),
        consistent(s.after_start_match(now)),
        consistent(s.after_end_match()),
        consistent(s.after_enter_spectating()),
        consistent(s.after_prepare_match_hero_tracking()),
        consistent(s.after_hero_signal(hero)),
{
    assert(GameStateView::initial().party_members =~= Set::<u64>::empty());
    if kind == PartyEventKind::Left && s.party_id is None {
        assert(s.party_members.remove(account_id) =~= Set::<u64>::empty());
    }
}

/// Hero signals. In the match intro and the match, a hero once picked is locked
/// in for Standard, Ranked, Street Brawl, Bot and unknown matches: no hero
/// signal replaces it. Only the Training Range and Hero Labs take any hero at any
/// time, closing the hero window. With no hero yet in a match of the other
/// modes, a signal is taken exactly while the hero window is open. Spectating, the main menu and the
/// post-match screen ignore hero signals; the hideout, the queue and the
/// phases before any log data take every hero.
pub proof fn law_hero_locked_in(s: GameStateView, hero: Seq<char>)
    ensures
        (s.phase == GamePhase::MatchIntro || s.phase == GamePhase::InMatch) && (s.match_mode
            == MatchMode::Standard || s.match_mode == MatchMode::Ranked || s.match_mode
            == MatchMode::StreetBrawl || s.match_mode == MatchMode::BotMatch || s.match_mode
            == MatchMode::Unknown) && s.hero_key is Some ==> s.after_hero_signal(hero).hero_key == s.hero_key,
        (s.phase == GamePhase::MatchIntro || s.phase == GamePhase::InMatch) && (s.match_mode
            == MatchMode::TrainingRange || s.match_mode == MatchMode::HeroLabs) ==> s.after_hero_signal(
            hero,
        ).hero_key == Some(hero) && !s.after_hero_signal(hero).hero_window_open,
        (s.phase == GamePhase::MatchIntro || s.phase == GamePhase::InMatch) && (s.match_mode
            == MatchMode::Standard || s.match_mode == MatchMode::Ranked || s.match_mode
            == MatchMode::StreetBrawl || s.match_mode == MatchMode::BotMatch || s.match_mode
            == MatchMode::Unknown) && s.hero_key is None ==> (s.after_hero_signal(hero).hero_key == Some(
            hero,
        ) <==> s.hero_window_open),
        s.phase == GamePhase::Spectating || s.phase == GamePhase::MainMenu || s.phase
            == GamePhase::PostMatch ==> s.after_hero_signal(hero) == s,
        s.phase == GamePhase::Hideout || s.phase == GamePhase::InQueue || s.phase == GamePhase::Running
            || s.phase == GamePhase::NotRunning ==> s.after_hero_signal(hero).hero_key == Some(hero)
            && s.after_hero_signal(hero).hero_window_open == s.hero_window_open,
        s.after_hero_signal(hero).phase == s.phase,
        s.after_hero_signal(hero).match_mode == s.match_mode,
        s.after_hero_signal(hero).party_members == s.party_members,
{
}

/// Party events: after a join the account is a member of that party and the
/// party shows at least two players; after another player leaves that player is
/// no member; a leave of the local player or a disband clears the party; and a
/// party size of at least one stays at least one.
pub proof fn law_party_events(s: GameStateView, party_id: u64, account_id: u64, kind: PartyEventKind)
    ensures
        s.after_party_event(party_id, PartyEventKind::Joined, account_id).party_members.contains(account_id),
        s.after_party_event(party_id, PartyEventKind::Joined, account_id).party_id == Some(party_id),
        s.after_party_event(party_id, PartyEventKind::Joined, account_id).party_size >= 2,
        !s.after_party_event(party_id, PartyEventKind::Left, account_id).party_members.contains(account_id),
        s.local_account_id == Some(account_id) ==> s.after_party_event(party_id, PartyEventKind::Left, account_id)
            == s.after_clear_party(),
        s.after_party_event(party_id, PartyEventKind::Disbanded, account_id) == s.after_clear_party(),
        s.party_size >= 1 ==> s.after_party_event(party_id, kind, account_id).party_size >= 1,
{
}

proof fn lemma_placeholder_is_brace_word(name: Seq<char>)
    requires
        forall|k: int| 0 <= k < name.len() ==> #[trigger] name[k] != '{' && name[k] != '}',
    ensures
        is_brace_word(placeholder(name)),
{
    let w = placeholder(name);
    assert forall|k: int| 1 <= k < w.len() - 1 implies #[trigger] w[k] != '{' && w[k] != '}' by {
        assert(w[k] == name[k - 1]);
    }
}

/// In a match, a timer handed to the status line always shows in it: a template
/// that places `{timer}` gets it substituted, any other status gets it appended.
pub proof fn law_match_timer_always_shown(
    s: GameStateView,
    hideout_text: Option<Seq<char>>,
    hero_name: Option<Seq<char>>,
    timer: Seq<char>,
    cfg: StatusStrings,
)
    requires
        s.phase == GamePhase::InMatch,
    ensures
        seq_contains(s.presence_status_text(hideout_text, hero_name, Some(timer), cfg), timer),
{
    let mode = s.match_mode.label();
    let uses_template = s.match_mode.has_map_location();
    let vars = seq![("mode"@, mode), ("location"@, cfg.match_location_label@), ("timer"@, timer)];
    let base = if uses_template { substitute_vars(cfg.in_match@, vars) } else { mode };
    let placed = uses_template && seq_contains(cfg.in_match@, "{timer}"@);
    assert(text_or_empty(Some(timer)) == timer);
    if placed {
        reveal_strlit("{timer}");
        reveal_strlit("timer");
        reveal_strlit("mode");
        reveal_strlit("location");
        let p_mode = placeholder("mode"@);
        let p_loc = placeholder("location"@);
        let p_timer = placeholder("timer"@);
        assert(p_timer =~= "{timer}"@);
        lemma_placeholder_is_brace_word("mode"@);
        lemma_placeholder_is_brace_word("location"@);
        lemma_placeholder_is_brace_word("timer"@);
        assert(p_mode.len() != p_timer.len());
        assert(p_loc.len() != p_timer.len());
        let t0 = cfg.in_match@;
        let i0 = choose|i: int| occurs_at(t0, p_timer, i);
        assert(vars.drop_last() =~= seq![("mode"@, mode), ("location"@, cfg.match_location_label@)]);
        assert(vars.drop_last().drop_last() =~= seq![("mode"@, mode)]);
        assert(vars.drop_last().drop_last().drop_last() =~= Seq::<(Seq<char>, Seq<char>)>::empty());
        let t1 = substitute_vars(t0, vars.drop_last().drop_last());
        let t2 = substitute_vars(t0, vars.drop_last());
        assert(substitute_vars(t0, vars.drop_last().drop_last().drop_last()) == t0);
        assert(vars.drop_last().drop_last().last() == ("mode"@, mode));
        assert(t1 == crate::text::replace_all(t0, p_mode, mode));
        lemma_replace_all_keeps_brace_word(t0, p_timer, p_mode, mode, i0);
        let i1 = choose|i: int| occurs_at(t1, p_timer, i);
        assert(t2 == crate::text::replace_all(t1, p_loc, cfg.match_location_label@));
        lemma_replace_all_keeps_brace_word(t1, p_timer, p_loc, cfg.match_location_label@, i1);
        let i2 = choose|i: int| occurs_at(t2, p_timer, i);
        assert(base == crate::text::replace_all(t2, p_timer, timer));
        lemma_replace_all_shows_replacement(t2, p_timer, timer, i2);
    } else {
        lemma_contains_appended(base + " - "@, timer);
    }
}

/// Every phase change lands in its phase, with the match clock stopped except
/// when the match starts, and leaves the party and the process observation alone.
pub proof fn law_phase_changes(s: GameStateView, now: Instant)
    ensures
        s.after_enter_hideout().phase == GamePhase::Hideout,
        s.after_enter_hideout().match_started_at is None,
        s.after_enter_hideout().hero_key is None,
        s.after_enter_main_menu().phase == GamePhase::MainMenu,
        s.after_enter_main_menu().match_started_at is None,
        s.after_enter_queue().phase == GamePhase::InQueue,
        s.after_enter_queue().match_started_at is None,
        s.after_leave_queue().phase == GamePhase::Hideout,
        s.after_enter_match_intro().phase == GamePhase::MatchIntro,
        s.after_enter_match_intro().match_started_at is None,
        s.after_enter_match_intro().match_mode == MatchMode::Unknown,
        s.after_enter_match_intro().hero_key is None,
        s.after_enter_match_intro().hero_window_open,
        s.after_start_match(now).phase == GamePhase::InMatch,
        s.after_end_match().phase == GamePhase::PostMatch,
        s.after_end_match().match_started_at is None,
        s.after_enter_spectating().phase == GamePhase::Spectating,
        s.after_enter_spectating().match_started_at is None,
        s.after_enter_hideout().party_members == s.party_members,
        s.after_enter_queue().party_members == s.party_members,
        s.after_enter_match_intro().party_members == s.party_members,
        s.after_end_match().party_members == s.party_members,
        s.after_enter_queue().hero_key == s.hero_key,
        s.after_enter_queue().process_alive == s.process_alive,
        s.after_leave_queue().process_alive == s.process_alive,
{
}

/// The fresh state: nothing running, unknown mode, no hero with the hero window
/// open, no map, a party of one with no party id and no members, no local
/// account, no pending players and no clock.
pub proof fn law_fresh_state()
    ensures
        GameStateView::initial().phase == GamePhase::NotRunning,
        GameStateView::initial().match_mode == MatchMode::Unknown,
        GameStateView::initial().hero_key is None,
        GameStateView::initial().map_name is None,
        GameStateView::initial().party_size == 1,
        GameStateView::initial().match_started_at is None,
        GameStateView::initial().hero_window_open,
        !GameStateView::initial().hideout_loaded,
        GameStateView::initial().local_account_id is None,
        GameStateView::initial().party_id is None,
        GameStateView::initial().party_members.len() == 0,
        GameStateView::initial().pending_player_count == 0,
        !GameStateView::initial().process_alive,
{
}

/// How a lower-cased party event name is read: any name holding "joinedparty"
/// is a join; otherwise any holding "leftparty", "removedfromparty" or
/// "kickedfromparty" is a leave; otherwise any holding "disband" (such as
/// "disbandparty" or "partydisbanded") is a disband; any other name changes
/// nothing.
pub proof fn law_party_event_names(lowered: Seq<char>)
    ensures
        seq_contains(lowered, "joinedparty"@) ==> party_event_kind_of(lowered) == PartyEventKind::Joined,
        !seq_contains(lowered, "joinedparty"@) && (seq_contains(lowered, "leftparty"@) || seq_contains(
            lowered,
            "removedfromparty"@,
        ) || seq_contains(lowered, "kickedfromparty"@)) ==> party_event_kind_of(lowered)
            == PartyEventKind::Left,
        !seq_contains(lowered, "joinedparty"@) && !seq_contains(lowered, "leftparty"@) && !seq_contains(
            lowered,
            "removedfromparty"@,
        ) && !seq_contains(lowered, "kickedfromparty"@) && seq_contains(lowered, "disband"@)
            ==> party_event_kind_of(lowered) == PartyEventKind::Disbanded,
        !seq_contains(lowered, "joinedparty"@) && !seq_contains(lowered, "leftparty"@) && !seq_contains(
            lowered,
            "removedfromparty"@,
        ) && !seq_contains(lowered, "kickedfromparty"@) && !seq_contains(lowered, "disband"@)
            ==> party_event_kind_of(lowered) == PartyEventKind::Other,
{
}

/// A party event whose lower-cased name holds "disband" and no join or leave
/// word clears the party: no party id, no members, a party of one; an event
/// whose name holds none of the words changes nothing.
pub proof fn law_disband_clears_party(s: GameStateView, party_id: u64, lowered: Seq<char>, account_id: u64)
    ensures
        !seq_contains(lowered, "joinedparty"@) && !seq_contains(lowered, "leftparty"@) && !seq_contains(
            lowered,
            "removedfromparty"@,
        ) && !seq_contains(lowered, "kickedfromparty"@) && seq_contains(lowered, "disband"@) ==> {
            let t = s.after_party_event(party_id, party_event_kind_of(lowered), account_id);
            &&& t.party_id is None
            &&& t.party_members.len() == 0
            &&& t.party_size == 1
            &&& t.phase == s.phase
        },
        !seq_contains(lowered, "joinedparty"@) && !seq_contains(lowered, "leftparty"@) && !seq_contains(
            lowered,
            "removedfromparty"@,
        ) && !seq_contains(lowered, "kickedfromparty"@) && !seq_contains(lowered, "disband"@)
            ==> s.after_party_event(party_id, party_event_kind_of(lowered), account_id) == s,
{
}

/// The party size shown is the member count while that count is between two
/// (one after a leave) and 255.
pub proof fn law_party_size_counts_members(s: GameStateView, party_id: u64, account_id: u64)
    ensures
        ({
            let t = s.after_party_event(party_id, PartyEventKind::Joined, account_id);
            2 <= t.party_members.len() < 256 ==> t.party_size == t.party_members.len()
        }),
        ({
            let t = s.after_party_event(party_id, PartyEventKind::Left, account_id);
            1 <= t.party_members.len() < 256 ==> t.party_size == t.party_members.len()
        }),
        s.local_account_id == Some(account_id) ==> s.after_party_event(
            party_id,
            PartyEventKind::Joined,
            account_id,
        ).party_members =~= Set::empty().insert(account_id),
{
}

/// In a match, the Standard, Ranked, Street Brawl and unknown modes build the
/// status from the match template with the mode, the map location and the timer
/// (the timer appended after it only when the template has no `{timer}`); the
/// Bot, Training Range and Hero Labs modes show their label instead.
pub proof fn law_match_status_template(
    s: GameStateView,
    hideout_text: Option<Seq<char>>,
    hero_name: Option<Seq<char>>,
    timer: Option<Seq<char>>,
    cfg: StatusStrings,
)
    requires
        s.phase == GamePhase::InMatch,
    ensures
        s.match_mode == MatchMode::Standard || s.match_mode == MatchMode::Ranked || s.match_mode
            == MatchMode::StreetBrawl || s.match_mode == MatchMode::Unknown ==> {
            let base = substitute_vars(
                cfg.in_match@,
                seq![("mode"@, s.match_mode.label()), ("location"@, cfg.match_location_label@), ("timer"@, text_or_empty(timer))],
            );
            s.presence_status_text(hideout_text, hero_name, timer, cfg) == if timer is Some
                && !seq_contains(cfg.in_match@, "{timer}"@) {
                base + " - "@ + timer->0
            } else {
                base
            }
        },
        s.match_mode == MatchMode::BotMatch || s.match_mode == MatchMode::TrainingRange || s.match_mode
            == MatchMode::HeroLabs ==> s.presence_status_text(hideout_text, hero_name, timer, cfg) == if timer is Some {
            s.match_mode.label() + " - "@ + timer->0
        } else {
            s.match_mode.label()
        },
{
}

/// Which template each phase shows: the phase's own template for every phase
/// but the hideout, the match intro and the match; in the hideout a non-empty
/// hideout text, else the hideout template with the hero's name.
pub proof fn law_phase_templates(
    s: GameStateView,
    hideout_text: Option<Seq<char>>,
    hero_name: Option<Seq<char>>,
    timer: Option<Seq<char>>,
    cfg: StatusStrings,
)
    ensures
        ({
            let r = s.presence_status_text(hideout_text, hero_name, timer, cfg);
            &&& s.phase == GamePhase::NotRunning ==> r == cfg.game_not_running@
            &&& s.phase == GamePhase::Running ==> r == cfg.in_game@
            &&& s.phase == GamePhase::MainMenu ==> r == cfg.in_main_menu@
            &&& s.phase == GamePhase::InQueue ==> r == cfg.in_matchmaking@
            &&& s.phase == GamePhase::PostMatch ==> r == cfg.post_match@
            &&& s.phase == GamePhase::Spectating ==> r == cfg.spectating@
            &&& s.phase == GamePhase::Hideout && hideout_text is Some && hideout_text->0.len() > 0
                ==> r == hideout_text->0
            &&& s.phase == GamePhase::Hideout && !(hideout_text is Some && hideout_text->0.len() > 0)
                ==> r == substitute_vars(cfg.in_hideout@, seq![("hero"@, text_or_empty(hero_name))])
            &&& s.phase == GamePhase::MatchIntro ==> r == substitute_vars(
                cfg.loading_into_match@,
                seq![("mode"@, s.match_mode.label())],
            )
        }),
{
}

/// The labels and flags of each match mode and phase.
pub proof fn law_labels()
    ensures
        MatchMode::Unknown.label() == "In Match"@,
        MatchMode::Standard.label() == "Standard Match"@,
        MatchMode::Ranked.label() == "Ranked Match"@,
        MatchMode::StreetBrawl.label() == "Street Brawl"@,
        MatchMode::BotMatch.label() == "Bot Match"@,
        MatchMode::TrainingRange.label() == "Training Range"@,
        MatchMode::HeroLabs.label() == "Hero Labs"@,
        MatchMode::Unknown.has_map_location(),
        MatchMode::Standard.has_map_location(),
        MatchMode::Ranked.has_map_location(),
        MatchMode::StreetBrawl.has_map_location(),
        !MatchMode::BotMatch.has_map_location(),
        !MatchMode::TrainingRange.has_map_location(),
        !MatchMode::HeroLabs.has_map_location(),
        GamePhase::NotRunning.text() == "Not Running"@,
        GamePhase::Running.text() == "In Game"@,
        GamePhase::MainMenu.text() == "Main Menu"@,
        GamePhase::Hideout.text() == "Hideout"@,
        GamePhase::InQueue.text() == "Searching for Match"@,
        GamePhase::MatchIntro.text() == "Match Starting"@,
        GamePhase::InMatch.text() == "In Match"@,
        GamePhase::PostMatch.text() == "Post Match"@,
        GamePhase::Spectating.text() == "Spectating"@,
        !GamePhase::NotRunning.hero_visible(),
        !GamePhase::Running.hero_visible(),
        !GamePhase::MainMenu.hero_visible(),
        GamePhase::Hideout.hero_visible(),
        GamePhase::InQueue.hero_visible(),
        GamePhase::MatchIntro.hero_visible(),
        GamePhase::InMatch.hero_visible(),
        !GamePhase::PostMatch.hero_visible(),
        !GamePhase::Spectating.hero_visible(),
{
}

/// A process-table name is a process id exactly when each of its characters is
/// one of the ten ASCII digits 0, 1, 2, 3, 4, 5, 6, 7, 8 and 9.
pub proof fn law_pid_names_are_decimal(name: Seq<char>)
    ensures
        is_pid_name(name) <==> forall|i: int| 0 <= i < name.len() ==> {
            let c = #[trigger] name[i];
            c == '0' || c == '1' || c == '2' || c == '3' || c == '4' || c == '5' || c == '6'
                || c == '7' || c == '8' || c == '9'
        },
{
}

/// One poll's edge: a process seen now but not before appeared, one seen before
/// but not now vanished, anything else is unchanged.
pub proof fn law_poll_edges()
    ensures
        edge_of(false, true) == ProcessEdge::Appeared,
        edge_of(true, false) == ProcessEdge::Vanished,
        edge_of(true, true) == ProcessEdge::Unchanged,
        edge_of(false, false) == ProcessEdge::Unchanged,
{
}

/// Joins and leaves of other players: a join into another party than the known
/// one starts that party with just the joining player; a join into the known
/// party adds the player; another player's leave removes just that player and
/// keeps the party id.
pub proof fn law_party_membership(s: GameStateView, party_id: u64, account_id: u64)
    requires
        s.local_account_id != Some(account_id),
        s.local_account_id is None ==> account_id != u64::MAX,
    ensures
        s.party_id != Some(party_id) ==> s.after_party_event(party_id, PartyEventKind::Joined, account_id).party_members
            =~= Set::empty().insert(account_id),
        s.party_id == Some(party_id) ==> s.after_party_event(party_id, PartyEventKind::Joined, account_id).party_members
            =~= s.party_members.insert(account_id),
        s.after_party_event(party_id, PartyEventKind::Left, account_id).party_members =~= s.party_members.remove(
            account_id,
        ),
        s.after_party_event(party_id, PartyEventKind::Left, account_id).party_id == s.party_id,
{
}

/// A match started with no clock running takes the clock reading of the start.
pub proof fn law_start_match_reads_clock(s: GameStateView, now: Instant)
    ensures
        !(s.phase == GamePhase::InMatch && s.match_started_at is Some) ==> s.after_start_match(now).match_started_at
            == Some(now),
{
}

/// The running time of a match at a clock reading is measured from the recorded
/// start to that reading, and there is none outside a match or without a start.
pub proof fn law_match_elapsed_from_start(g: GameState, now: Instant)
    ensures
        g.phase != GamePhase::InMatch ==> g.match_elapsed_at_spec(now) is None,
        g.match_started_at is None ==> g.match_elapsed_at_spec(now) is None,
        g.phase == GamePhase::InMatch && g.match_started_at is Some ==> g.match_elapsed_at_spec(now) == Some(
            duration_between(now, g.match_started_at->0),
        ),
{
}

/// The placeholders of the status variables are their names in braces, and the
/// variables are substituted one after the other, in the order given.
pub proof fn law_substitution_order(
    template: Seq<char>,
    vars: Seq<(Seq<char>, Seq<char>)>,
    v: (Seq<char>, Seq<char>),
)
    ensures
        placeholder("mode"@) == "{mode}"@,
        placeholder("location"@) == "{location}"@,
        placeholder("timer"@) == "{timer}"@,
        placeholder("hero"@) == "{hero}"@,
        substitute_vars(template, Seq::empty()) == template,
        substitute_vars(template, vars.push(v)) == replace_all(
            substitute_vars(template, vars),
            placeholder(v.0),
            v.1,
        ),
{
    reveal_strlit("mode");
    reveal_strlit("location");
    reveal_strlit("timer");
    reveal_strlit("hero");
    reveal_strlit("{mode}");
    reveal_strlit("{location}");
    reveal_strlit("{timer}");
    reveal_strlit("{hero}");
    assert(placeholder("mode"@) =~= "{mode}"@);
    assert(placeholder("location"@) =~= "{location}"@);
    assert(placeholder("timer"@) =~= "{timer}"@);
    assert(placeholder("hero"@) =~= "{hero}"@);
    assert(vars.push(v).drop_last() =~= vars);
}

} // verus!
