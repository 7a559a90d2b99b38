//! The game-state machine behind the rich-presence status: the current phase,
//! match mode, hero and party, fed by log and process signals.

use vstd::prelude::*;
use std::collections::HashSet;
use std::time::{Duration, Instant};

use crate::clock::{
    clock_text, duration_as_secs, duration_between, duration_since, duration_whole_secs, format_elapsed_secs,
    instant_now,
};
use crate::config::{apply_vars, substitute_vars, vars_view, StatusStrings};
use crate::text::{seq_contains, str_contains, str_eq, to_lowercase, unicode_lowercase};

verus! {

broadcast use vstd::std_specs::hash::group_hash_axioms;

#[derive(Debug, Clone, Copy, PartialEq, Eq, Structural)]
pub enum MatchMode {
    Unknown,
    Standard,
    Ranked,
    StreetBrawl,
    BotMatch,
    TrainingRange,
    HeroLabs,
}

impl MatchMode {
    /// The label shown for a match mode.
    pub open spec fn label(self) -> Seq<char> {
        match self {
            MatchMode::Unknown => "In Match"@,
            MatchMode::Standard => "Standard Match"@,
            MatchMode::Ranked => "Ranked Match"@,
            MatchMode::StreetBrawl => "Street Brawl"@,
            MatchMode::BotMatch => "Bot Match"@,
            MatchMode::TrainingRange => "Training Range"@,
            MatchMode::HeroLabs => "Hero Labs"@,
        }
    }

    /// Modes whose status line uses the match template with the map location.
    pub open spec fn has_map_location(self) -> bool {
        match self {
            MatchMode::Standard | MatchMode::Ranked | MatchMode::StreetBrawl | MatchMode::Unknown => true,
            _ => false,
        }
    }

    /// Modes in which the hero may be swapped at any time.
    pub open spec fn is_free_swap(self) -> bool {
        match self {
            MatchMode::TrainingRange | MatchMode::HeroLabs => true,
            _ => false,
        }
    }

    pub fn display(self) -> (r: &'static str)
        ensures
            r@ == self.label(),
    {
        match self {
            MatchMode::Unknown => "In Match",
            MatchMode::Standard => "Standard Match",
            MatchMode::Ranked => "Ranked Match",
            MatchMode::StreetBrawl => "Street Brawl",
            MatchMode::BotMatch => "Bot Match",
            MatchMode::TrainingRange => "Training Range",
            MatchMode::HeroLabs => "Hero Labs",
        }
    }

    pub fn show_map_location(self) -> (r: bool)
        ensures
            r == self.has_map_location(),
    {
        match self {
            MatchMode::Standard | MatchMode::Ranked | MatchMode::StreetBrawl | MatchMode::Unknown => true,
            _ => false,
        }
    }
}

#[derive(Debug, Clone, Copy, PartialEq, Eq, Structural)]
pub enum GamePhase {
    NotRunning,
    /// The game process is alive but no usable log data exists, e.g. the game was
    /// started outside the app without -condebug: a generic "In Game" presence.
    Running,
    MainMenu,
    Hideout,
    InQueue,
    MatchIntro,
    InMatch,
    PostMatch,
    Spectating,
}

impl GamePhase {
    /// The description shown for a phase.
    pub open spec fn text(self) -> Seq<char> {
        match self {
            GamePhase::NotRunning => "Not Running"@,
            GamePhase::Running => "In Game"@,
            GamePhase::MainMenu => "Main Menu"@,
            GamePhase::Hideout => "Hideout"@,
            GamePhase::InQueue => "Searching for Match"@,
            GamePhase::MatchIntro => "Match Starting"@,
            GamePhase::InMatch => "In Match"@,
            GamePhase::PostMatch => "Post Match"@,
            GamePhase::Spectating => "Spectating"@,
        }
    }

    /// Phases in which the hero image and the "Playing as" label are shown.
    pub open spec fn hero_visible(self) -> bool {
        match self {
            GamePhase::NotRunning | GamePhase::Running | GamePhase::MainMenu | GamePhase::PostMatch
            | GamePhase::Spectating => false,
            _ => true,
        }
    }

    pub fn description(self) -> (r: &'static str)
        ensures
            r@ == self.text(),
    {
        match self {
            GamePhase::NotRunning => "Not Running",
            GamePhase::Running => "In Game",
            GamePhase::MainMenu => "Main Menu",
            GamePhase::Hideout => "Hideout",
            GamePhase::InQueue => "Searching for Match",
            GamePhase::MatchIntro => "Match Starting",
            GamePhase::InMatch => "In Match",
            GamePhase::PostMatch => "Post Match",
            GamePhase::Spectating => "Spectating",
        }
    }

    /// Whether the hero image and "Playing as" label should be shown for this phase.
    pub fn shows_hero(self) -> (r: bool)
        ensures
            r == self.hero_visible(),
    {
        match self {
            GamePhase::NotRunning | GamePhase::Running | GamePhase::MainMenu | GamePhase::PostMatch
            | GamePhase::Spectating => false,
            _ => true,
        }
    }
}

/// Renders a match duration as a clock: "07:42", or "1:07:42" once past an hour.
pub fn format_match_elapsed(d: Duration) -> (r: String)
    ensures
        r@ == clock_text(duration_whole_secs(d) as nat),
{
    let total = duration_as_secs(&d);
    format_elapsed_secs(total)
}

pub struct GameState {
    pub phase: GamePhase,
    pub match_mode: MatchMode,
    pub hero_key: Option<String>,
    pub map_name: Option<String>,
    pub party_size: u8,
    /// Set when the match actually starts, cleared whenever the InMatch phase is left.
    pub match_started_at: Option<Instant>,
    pub hero_window_open: bool,
    pub hideout_loaded: bool,
    pub local_account_id: Option<u64>,
    pub party_id: Option<u64>,
    pub party_members: HashSet<u64>,
    pub pending_player_count: u32,
    /// Last observation from the process watcher. Survives `reset` so that stale
    /// log shutdown events cannot mark a live game as not running.
    pub process_alive: bool,
}

/// The text of an optional string.
pub open spec fn opt_text(o: Option<String>) -> Option<Seq<char>> {
    match o {
        Some(s) => Some(s@),
        None => None,
    }
}

/// The text of an optional string slice.
pub open spec fn opt_str_text(o: Option<&str>) -> Option<Seq<char>> {
    match o {
        Some(s) => Some(s@),
        None => None,
    }
}

/// The text, or the empty text when there is none.
pub open spec fn text_or_empty(o: Option<Seq<char>>) -> Seq<char> {
    match o {
        Some(s) => s,
        None => Seq::empty(),
    }
}

/// What a party event does, read from its (lower-cased) event name.
#[derive(Debug, Clone, Copy, PartialEq, Eq, Structural)]
pub enum PartyEventKind {
    Joined,
    Left,
    Disbanded,
    Other,
}

/// The kind of a lower-cased party event name: a name holding "joinedparty"
/// is a join; else one holding "leftparty", "removedfromparty" or
/// "kickedfromparty" is a leave; else one holding "disband" is a disband.
pub open spec fn party_event_kind_of(lowered: Seq<char>) -> PartyEventKind {
    if seq_contains(lowered, "joinedparty"@) {
        PartyEventKind::Joined
    } else if seq_contains(lowered, "leftparty"@) || seq_contains(lowered, "removedfromparty"@)
        || seq_contains(lowered, "kickedfromparty"@) {
        PartyEventKind::Left
    } else if seq_contains(lowered, "disband"@) {
        PartyEventKind::Disbanded
    } else {
        PartyEventKind::Other
    }
}

/// The party size shown for `n` members: `n` taken as a `u8` (modulo 256, as a
/// cast truncates), but at least `floor`.
pub open spec fn shown_party_size(n: nat, floor: u8) -> u8 {
    let t = (n % 256) as u8;
    if t < floor {
        floor
    } else {
        t
    }
}

/// The abstract state: every field, strings by their text and the party by its
/// set of account ids.
#[verifier::ext_equal]
pub struct GameStateView {
    pub phase: GamePhase,
    pub match_mode: MatchMode,
    pub hero_key: Option<Seq<char>>,
    pub map_name: Option<Seq<char>>,
    pub party_size: u8,
    pub match_started_at: Option<Instant>,
    pub hero_window_open: bool,
    pub hideout_loaded: bool,
    pub local_account_id: Option<u64>,
    pub party_id: Option<u64>,
    pub party_members: Set<u64>,
    pub pending_player_count: u32,
    pub process_alive: bool,
}

impl View for GameState {
    type V = GameStateView;

    open spec fn view(&self) -> GameStateView {
        GameStateView {
            phase: self.phase,
            match_mode: self.match_mode,
            hero_key: opt_text(self.hero_key),
            map_name: opt_text(self.map_name),
            party_size: self.party_size,
            match_started_at: self.match_started_at,
            hero_window_open: self.hero_window_open,
            hideout_loaded: self.hideout_loaded,
            local_account_id: self.local_account_id,
            party_id: self.party_id,
            party_members: self.party_members@,
            pending_player_count: self.pending_player_count,
            process_alive: self.process_alive,
        }
    }
}

impl GameStateView {
    /// The state of a fresh start: nothing running, nothing known.
    pub open spec fn initial() -> GameStateView {
        GameStateView {
            phase: GamePhase::NotRunning,
            match_mode: MatchMode::Unknown,
            hero_key: None,
            map_name: None,
            party_size: 1,
            match_started_at: None,
            hero_window_open: true,
            hideout_loaded: false,
            local_account_id: None,
            party_id: None,
            party_members: Set::empty(),
            pending_player_count: 0,
            process_alive: false,
        }
    }

    /// A reset: the fresh state, except that the process observation survives and,
    /// while the process is alive, the phase is the generic Running.
    pub open spec fn after_reset(self) -> GameStateView {
        GameStateView {
            phase: if self.process_alive { GamePhase::Running } else { GamePhase::NotRunning },
            process_alive: self.process_alive,
            ..GameStateView::initial()
        }
    }

    /// A process observation: alive promotes NotRunning to Running and leaves any
    /// other phase; gone resets every state but NotRunning.
    pub open spec fn after_process_signal(self, alive: bool) -> GameStateView {
        if alive {
            GameStateView {
                phase: if self.phase == GamePhase::NotRunning { GamePhase::Running } else { self.phase },
                process_alive: true,
                ..self
            }
        } else if self.phase != GamePhase::NotRunning {
            GameStateView { process_alive: false, ..self }.after_reset()
        } else {
            GameStateView { process_alive: false, ..self }
        }
    }

    /// Entering the hideout: the match clock stops and the hero is forgotten.
    pub open spec fn after_enter_hideout(self) -> GameStateView {
        GameStateView {
            phase: GamePhase::Hideout,
            match_started_at: None,
            hero_key: None,
            hero_window_open: true,
            hideout_loaded: false,
            ..self
        }
    }

    /// Leaving the party: no party, no members, a party of one.
    pub open spec fn after_clear_party(self) -> GameStateView {
        GameStateView { party_id: None, party_members: Set::empty(), party_size: 1, ..self }
    }

    /// A party event of the given kind about `account_id` in party `party_id`.
    pub open spec fn after_party_event(self, party_id: u64, kind: PartyEventKind, account_id: u64) -> GameStateView {
        let local = match self.local_account_id {
            Some(id) => id,
            None => u64::MAX,
        };
        match kind {
            PartyEventKind::Joined => {
                let base = if account_id == local {
                    Set::empty().insert(account_id)
                } else if self.party_id != Some(party_id) {
                    Set::empty()
                } else {
                    self.party_members
                };
                let members = base.insert(account_id);
                GameStateView {
                    party_id: Some(party_id),
                    party_members: members,
                    party_size: shown_party_size(members.len(), 2),
                    ..self
                }
            },
            PartyEventKind::Left => {
                if account_id == local {
                    self.after_clear_party()
                } else {
                    let members = self.party_members.remove(account_id);
                    GameStateView {
                        party_members: members,
                        party_size: shown_party_size(members.len(), 1),
                        ..self
                    }
                }
            },
            PartyEventKind::Disbanded => self.after_clear_party(),
            PartyEventKind::Other => self,
        }
    }

    pub open spec fn after_enter_main_menu(self) -> GameStateView {
        GameStateView { phase: GamePhase::MainMenu, match_started_at: None, ..self }
    }

    pub open spec fn after_enter_queue(self) -> GameStateView {
        GameStateView { phase: GamePhase::InQueue, match_started_at: None, ..self }
    }

    /// Back to the hideout from the queue; leaving a match this way stops its clock.
    pub open spec fn after_leave_queue(self) -> GameStateView {
        GameStateView {
            phase: GamePhase::Hideout,
            match_started_at: if self.phase == GamePhase::InMatch { None } else { self.match_started_at },
            ..self
        }
    }

    /// The match intro: clock stopped, mode unknown, hero selection open again.
    pub open spec fn after_enter_match_intro(self) -> GameStateView {
        GameStateView {
            phase: GamePhase::MatchIntro,
            match_started_at: None,
            match_mode: MatchMode::Unknown,
            hero_key: None,
            hero_window_open: true,
            pending_player_count: 0,
            ..self
        }
    }

    /// A match with its clock already running: the state that a repeated
    /// "game in progress" signal must not restart.
    pub open spec fn match_clock_running(self) -> bool {
        self.phase == GamePhase::InMatch && self.match_started_at is Some
    }

    /// The match starts (the clock reading `now` is used only when no clock runs yet).
    pub open spec fn after_start_match(self, now: Instant) -> GameStateView {
        GameStateView {
            phase: GamePhase::InMatch,
            match_started_at: if self.match_clock_running() { self.match_started_at } else { Some(now) },
            ..self
        }
    }

    pub open spec fn after_end_match(self) -> GameStateView {
        GameStateView { phase: GamePhase::PostMatch, match_started_at: None, ..self }
    }

    pub open spec fn after_enter_spectating(self) -> GameStateView {
        GameStateView { phase: GamePhase::Spectating, match_started_at: None, ..self }
    }

    pub open spec fn after_prepare_match_hero_tracking(self) -> GameStateView {
        GameStateView { hero_key: None, hero_window_open: true, ..self }
    }

    /// A hero seen in the logs. Ignored while spectating, in the main menu and
    /// after a match. In the match intro and the match, outside the free-swap
    /// modes, a hero once picked is locked in (a different hero is ignored) and,
    /// with no hero yet, only taken while the hero window is open; a hero taken
    /// there closes the window. In every other phase the hero is taken.
    pub open spec fn after_hero_signal(self, hero: Seq<char>) -> GameStateView {
        match self.phase {
            GamePhase::Spectating | GamePhase::MainMenu | GamePhase::PostMatch => self,
            GamePhase::MatchIntro | GamePhase::InMatch => {
                let refused = !self.match_mode.is_free_swap() && match self.hero_key {
                    Some(current) => hero != current,
                    None => !self.hero_window_open,
                };
                if refused {
                    self
                } else {
                    GameStateView { hero_key: Some(hero), hero_window_open: false, ..self }
                }
            },
            _ => GameStateView { hero_key: Some(hero), ..self },
        }
    }

    /// The status line of a match in progress: with the map location the match
    /// template (variables mode, location, timer), else the mode's label; a timer
    /// that the template does not place is appended after " - ".
    pub open spec fn in_match_status(self, timer: Option<Seq<char>>, cfg: StatusStrings) -> Seq<char> {
        let mode = self.match_mode.label();
        let uses_template = self.match_mode.has_map_location();
        let base = if uses_template {
            substitute_vars(
                cfg.in_match@,
                seq![("mode"@, mode), ("location"@, cfg.match_location_label@), ("timer"@, text_or_empty(timer))],
            )
        } else {
            mode
        };
        let placed = uses_template && seq_contains(cfg.in_match@, "{timer}"@);
        if timer is Some && !placed {
            base + " - "@ + timer->0
        } else {
            base
        }
    }

    /// The presence status line for the current phase: the phase's template from
    /// `cfg`; in the hideout a non-empty hideout text takes priority over the
    /// hideout template (variable hero); the match intro template has the
    /// variable mode; a match in progress is `in_match_status`.
    pub open spec fn presence_status_text(
        self,
        hideout_text: Option<Seq<char>>,
        hero_name: Option<Seq<char>>,
        timer: Option<Seq<char>>,
        cfg: StatusStrings,
    ) -> Seq<char> {
        match self.phase {
            GamePhase::NotRunning => cfg.game_not_running@,
            GamePhase::Running => cfg.in_game@,
            GamePhase::MainMenu => cfg.in_main_menu@,
            GamePhase::Hideout => {
                if hideout_text is Some && hideout_text->0.len() > 0 {
                    hideout_text->0
                } else {
                    substitute_vars(cfg.in_hideout@, seq![("hero"@, text_or_empty(hero_name))])
                }
            },
            GamePhase::InQueue => cfg.in_matchmaking@,
            GamePhase::MatchIntro => substitute_vars(
                cfg.loading_into_match@,
                seq![("mode"@, self.match_mode.label())],
            ),
            GamePhase::InMatch => self.in_match_status(timer, cfg),
            GamePhase::PostMatch => cfg.post_match@,
            GamePhase::Spectating => cfg.spectating@,
        }
    }
}

impl GameState {
    pub fn new() -> (r: Self)
        ensures
            r@ == GameStateView::initial(),
    {
        Self {
            phase: GamePhase::NotRunning,
            match_mode: MatchMode::Unknown,
            hero_key: None,
            map_name: None,
            party_size: 1,
            match_started_at: None,
            hero_window_open: true,
            hideout_loaded: false,
            local_account_id: None,
            party_id: None,
            party_members: HashSet::new(),
            pending_player_count: 0,
            process_alive: false,
        }
    }

    pub fn reset(&mut self)
        ensures
            final(self)@ == old(self)@.after_reset(),
    {
        let process_alive = self.process_alive;
        *self = Self::new();
        self.process_alive = process_alive;
        // A reset normally means the game closed, but if the process is still
        // alive the shutdown signal came from stale log data (previous session).
        // Keep showing the generic In Game presence instead of Not Running.
        if process_alive {
            self.phase = GamePhase::Running;
        }
    }

    /// Feeds process watcher observations into the state machine.
    ///
    /// The log watcher owns detailed phase tracking; this covers the gap where the
    /// game runs without usable log data:
    /// - process alive with no known phase: generic In Game presence
    /// - process gone: full reset back to Not Running
    ///
    /// Never overrides a phase the log watcher has already established.
    pub fn apply_process_signal(&mut self, alive: bool)
        ensures
            final(self)@ == old(self)@.after_process_signal(alive),
    {
        self.process_alive = alive;
        if alive {
            if self.phase == GamePhase::NotRunning {
                self.phase = GamePhase::Running;
            }
        } else if self.phase != GamePhase::NotRunning {
            self.reset();
        }
    }

    pub fn enter_hideout(&mut self)
        ensures
            final(self)@ == old(self)@.after_enter_hideout(),
    {
        self.phase = GamePhase::Hideout;
        self.match_started_at = None;
        self.hero_key = None;
        self.hero_window_open = true;
        self.hideout_loaded = false;
    }

    pub fn clear_party(&mut self)
        ensures
            final(self)@ == old(self)@.after_clear_party(),
    {
        self.party_id = None;
        self.party_members.clear();
        self.party_size = 1;
    }

    /// The kind of a party event, read from its lower-cased name (see `party_event_kind_of`).
    pub fn party_event_kind(lowered: &str) -> (r: PartyEventKind)
        ensures
            r == party_event_kind_of(lowered@),
    {
        if str_contains(lowered, "joinedparty") {
            PartyEventKind::Joined
        } else if str_contains(lowered, "leftparty") || str_contains(lowered, "removedfromparty")
            || str_contains(lowered, "kickedfromparty") {
            PartyEventKind::Left
        } else if str_contains(lowered, "disband") {
            PartyEventKind::Disbanded
        } else {
            PartyEventKind::Other
        }
    }

    fn set_party_size_from_members(&mut self, floor: u8)
        ensures
            final(self)@ == (GameStateView {
                party_size: shown_party_size(old(self)@.party_members.len(), floor),
                ..old(self)@
            }),
    {
        let n = self.party_members.len();
        let t = (n % 256) as u8;
        self.party_size = if t < floor {
            floor
        } else {
            t
        };
    }

    /// Applies a party event of a known kind.
    pub fn apply_party_event_kind(&mut self, party_id: u64, kind: PartyEventKind, account_id: u64)
        ensures
            final(self)@ == old(self)@.after_party_event(party_id, kind, account_id),
    {
        let local = match self.local_account_id {
            Some(id) => id,
            None => u64::MAX,
        };
        match kind {
            PartyEventKind::Joined => {
                if account_id == local {
                    self.party_id = Some(party_id);
                    let mut members = HashSet::new();
                    members.insert(account_id);
                    self.party_members = members;
                } else {
                    let same_party = match self.party_id {
                        Some(p) => p == party_id,
                        None => false,
                    };
                    if !same_party {
                        self.party_id = Some(party_id);
                        self.party_members.clear();
                    }
                }
                self.party_members.insert(account_id);
                self.set_party_size_from_members(2);
            },
            PartyEventKind::Left => {
                if account_id == local {
                    self.clear_party();
                } else {
                    self.party_members.remove(&account_id);
                    self.set_party_size_from_members(1);
                }
            },
            PartyEventKind::Disbanded => {
                self.clear_party();
            },
            PartyEventKind::Other => {},
        }
    }

    /// Applies a party event from the logs: its name is lower-cased and read for
    /// its kind (see `party_event_kind_of`), then that kind is applied.
    pub fn apply_party_event(&mut self, party_id: u64, event_name: &str, account_id: u64)
        ensures
            final(self)@ == old(self)@.after_party_event(
                party_id,
                party_event_kind_of(unicode_lowercase(event_name@)),
                account_id,
            ),
    {
        let ev = to_lowercase(event_name);
        let kind = Self::party_event_kind(ev.as_str());
        self.apply_party_event_kind(party_id, kind, account_id);
    }

    pub fn enter_main_menu(&mut self)
        ensures
            final(self)@ == old(self)@.after_enter_main_menu(),
    {
        self.phase = GamePhase::MainMenu;
        self.match_started_at = None;
    }

    pub fn enter_queue(&mut self)
        ensures
            final(self)@ == old(self)@.after_enter_queue(),
    {
        self.phase = GamePhase::InQueue;
        self.match_started_at = None;
    }

    pub fn leave_queue(&mut self)
        ensures
            final(self)@ == old(self)@.after_leave_queue(),
    {
        if self.phase == GamePhase::InMatch {
            // The start time is cleared whenever the InMatch phase is left.
            self.match_started_at = None;
        }
        self.phase = GamePhase::Hideout;
    }

    pub fn enter_match_intro(&mut self)
        ensures
            final(self)@ == old(self)@.after_enter_match_intro(),
    {
        self.phase = GamePhase::MatchIntro;
        self.match_started_at = None;
        self.match_mode = MatchMode::Unknown;
        self.hero_key = None;
        self.hero_window_open = true;
        self.pending_player_count = 0;
    }

    /// Starts the match; a repeated "game in progress" signal does not restart the clock.
    pub fn start_match(&mut self)
        ensures
            final(self).match_started_at is Some,
            final(self)@ == old(self)@.after_start_match(final(self).match_started_at.unwrap()),
    {
        if self.phase != GamePhase::InMatch || self.match_started_at.is_none() {
            self.match_started_at = Some(instant_now());
        }
        self.phase = GamePhase::InMatch;
    }

    pub fn end_match(&mut self)
        ensures
            final(self)@ == old(self)@.after_end_match(),
    {
        self.phase = GamePhase::PostMatch;
        self.match_started_at = None;
    }

    pub fn enter_spectating(&mut self)
        ensures
            final(self)@ == old(self)@.after_enter_spectating(),
    {
        self.phase = GamePhase::Spectating;
        self.match_started_at = None;
    }

    /// How long the current match has been running, or None outside of an active match.
    /// The clock is read only during a running match.
    pub fn match_elapsed(&self) -> (r: Option<Duration>)
        ensures
            r is Some <==> self@.match_clock_running(),
            r is Some ==> exists|now: Instant| r == self.match_elapsed_at_spec(now),
    {
        if self.phase != GamePhase::InMatch || self.match_started_at.is_none() {
            return None;
        }
        let now = instant_now();
        self.match_elapsed_at(&now)
    }

    /// The running time of the current match at the clock reading `now`: the time
    /// from the recorded start to `now` (zero if `now` is not later), or None
    /// outside of an active match.
    pub open spec fn match_elapsed_at_spec(&self, now: Instant) -> Option<Duration> {
        if self@.match_clock_running() {
            Some(duration_between(now, self.match_started_at->0))
        } else {
            None
        }
    }

    /// How long the current match has been running at the clock reading `now`.
    pub fn match_elapsed_at(&self, now: &Instant) -> (r: Option<Duration>)
        ensures
            r == self.match_elapsed_at_spec(*now),
    {
        if self.phase != GamePhase::InMatch {
            return None;
        }
        match &self.match_started_at {
            Some(t) => Some(duration_since(now, t)),
            None => None,
        }
    }

    pub fn prepare_match_hero_tracking(&mut self)
        ensures
            final(self)@ == old(self)@.after_prepare_match_hero_tracking(),
    {
        self.hero_key = None;
        self.hero_window_open = true;
    }

    pub fn apply_hero_signal(&mut self, hero_key: &str)
        ensures
            final(self)@ == old(self)@.after_hero_signal(hero_key@),
    {
        if self.phase == GamePhase::Spectating {
            return;
        }
        match self.phase {
            GamePhase::MatchIntro | GamePhase::InMatch => {
                let free_swap = match self.match_mode {
                    MatchMode::TrainingRange | MatchMode::HeroLabs => true,
                    _ => false,
                };
                if !free_swap {
                    match &self.hero_key {
                        Some(current) => {
                            if !str_eq(hero_key, current.as_str()) {
                                // hero locked in: a different hero is ignored
                                return;
                            }
                        },
                        None => {
                            if !self.hero_window_open {
                                return;
                            }
                        },
                    }
                }
                self.hero_key = Some(String::from_str(hero_key));
                self.hero_window_open = false;
            },
            GamePhase::Hideout => {
                self.hero_key = Some(String::from_str(hero_key));
            },
            GamePhase::MainMenu | GamePhase::PostMatch => {},
            _ => {
                self.hero_key = Some(String::from_str(hero_key));
            },
        }
    }

    /// Returns the presence status line for the current phase.
    ///
    /// - `hideout_text`: hero-specific text (takes priority in the Hideout phase).
    /// - `hero_name`: display name of the current hero (the `{hero}` variable).
    /// - `cfg`: per-phase string templates.
    /// - `timer`: formatted match duration (the `{timer}` variable, appended if the
    ///   template omits it).
    pub fn presence_status(
        &self,
        hideout_text: Option<&str>,
        hero_name: Option<&str>,
        timer: Option<&str>,
        cfg: &StatusStrings,
    ) -> (r: String)
        ensures
            r@ == self@.presence_status_text(
                opt_str_text(hideout_text),
                opt_str_text(hero_name),
                opt_str_text(timer),
                *cfg,
            ),
    {
        proof {
            reveal_strlit("");
        }
        match self.phase {
            GamePhase::NotRunning => cfg.game_not_running.clone(),
            GamePhase::Running => cfg.in_game.clone(),
            GamePhase::MainMenu => cfg.in_main_menu.clone(),
            GamePhase::Hideout => {
                match hideout_text {
                    Some(text) if !text.is_empty() => String::from_str(text),
                    _ => {
                        let hero = match hero_name {
                            Some(h) => h,
                            None => "",
                        };
                        assert(""@ =~= Seq::<char>::empty());
                        assert(hero@ == text_or_empty(opt_str_text(hero_name)));
                        let vars = vec![("hero", hero)];
                        assert(vars_view(vars@)[0] == ("hero"@, hero@));
                        assert(vars_view(vars@) =~= seq![("hero"@, text_or_empty(opt_str_text(hero_name)))]);
                        apply_vars(cfg.in_hideout.as_str(), vars.as_slice())
                    },
                }
            },
            GamePhase::InQueue => cfg.in_matchmaking.clone(),
            GamePhase::MatchIntro => {
                let vars = vec![("mode", self.match_mode.display())];
                assert(vars_view(vars@) =~= seq![("mode"@, self.match_mode.label())]);
                apply_vars(cfg.loading_into_match.as_str(), vars.as_slice())
            },
            GamePhase::InMatch => {
                let mode = self.match_mode.display();
                let uses_template = self.match_mode.show_map_location();
                let mut status = if uses_template {
                    let t = match timer {
                        Some(t) => t,
                        None => "",
                    };
                    assert(t@ == text_or_empty(opt_str_text(timer)));
                    let vars = vec![("mode", mode), ("location", cfg.match_location_label.as_str()), ("timer", t)];
                    assert(vars_view(vars@)[0] == ("mode"@, mode@));
                    assert(vars_view(vars@)[1] == ("location"@, cfg.match_location_label@));
                    assert(vars_view(vars@)[2] == ("timer"@, t@));
                    assert(vars_view(vars@) =~= seq![
                        ("mode"@, self.match_mode.label()),
                        ("location"@, cfg.match_location_label@),
                        ("timer"@, text_or_empty(opt_str_text(timer))),
                    ]);
                    apply_vars(cfg.in_match.as_str(), vars.as_slice())
                } else {
                    String::from_str(mode)
                };
                // Templates written before {timer} existed still get the timer, appended.
                let placed = uses_template && str_contains(cfg.in_match.as_str(), "{timer}");
                match timer {
                    Some(t) if !placed => {
                        status.append(" - ");
                        status.append(t);
                    },
                    _ => {},
                }
                status
            },
            GamePhase::PostMatch => cfg.post_match.clone(),
            GamePhase::Spectating => cfg.spectating.clone(),
        }
    }
}

} // verus!
