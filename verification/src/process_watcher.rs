//! The decisions of the process watcher: what one poll of the game process does
//! to the state, what is worth reporting, and which processes are the game.

use vstd::prelude::*;

use crate::game_state::{GamePhase, GameState};
use crate::text::{eq_ignore_ascii_case, eq_ignore_ascii_case_spec, trim, trimmed};

verus! {

/// Seconds between two polls of the process list.
pub const POLL_SECS: u64 = 2;

/// Polls for the game process and feeds what it sees into the game state.
pub struct ProcessWatcher;

/// How the observed process changed since the previous poll.
#[derive(Debug, Clone, Copy, PartialEq, Eq, Structural)]
pub enum ProcessEdge {
    Unchanged,
    Appeared,
    Vanished,
}

/// What one poll found worth reporting.
#[derive(Debug, Clone, Copy, PartialEq, Eq, Structural)]
pub struct PollOutcome {
    pub edge: ProcessEdge,
    /// The game was found already running with no log data: only the generic
    /// In Game presence can be shown.
    pub running_without_log_data: bool,
}

/// The edge between two consecutive observations.
pub open spec fn edge_of(was_alive: bool, alive: bool) -> ProcessEdge {
    if alive && !was_alive {
        ProcessEdge::Appeared
    } else if !alive && was_alive {
        ProcessEdge::Vanished
    } else {
        ProcessEdge::Unchanged
    }
}

/// A directory name under the process table that names a process: its
/// characters are all ASCII digits.
pub open spec fn is_pid_name(name: Seq<char>) -> bool {
    forall|i: int| 0 <= i < name.len() ==> '0' <= #[trigger] name[i] && name[i] <= '9'
}

impl ProcessWatcher {
    /// One poll: the observation is fed to the state on every poll, not only on
    /// edges, so that a stale phase left by the log watcher keeps being corrected
    /// until real log data takes over.
    pub fn observe(state: &mut GameState, was_alive: bool, alive: bool) -> (r: PollOutcome)
        ensures
            final(state)@ == old(state)@.after_process_signal(alive),
            r.edge == edge_of(was_alive, alive),
            r.running_without_log_data == (alive && !was_alive && old(state).phase == GamePhase::NotRunning
                && final(state).phase == GamePhase::Running),
    {
        let edge = if alive && !was_alive {
            ProcessEdge::Appeared
        } else if !alive && was_alive {
            ProcessEdge::Vanished
        } else {
            ProcessEdge::Unchanged
        };
        let prev_phase = state.phase;
        state.apply_process_signal(alive);
        let running_without_log_data = alive && !was_alive && prev_phase == GamePhase::NotRunning
            && state.phase == GamePhase::Running;
        PollOutcome { edge, running_without_log_data }
    }
}

/// Whether a process-table entry name is a process id (all ASCII digits).
pub fn is_pid_dir_name(name: &str) -> (r: bool)
    ensures
        r == is_pid_name(name@),
{
    let n = name.unicode_len();
    let mut i: usize = 0;
    while i < n
        invariant
            n == name@.len(),
            i <= n,
            forall|k: int| 0 <= k < i ==> '0' <= #[trigger] name@[k] && name@[k] <= '9',
        decreases n - i,
    {
        let c = name.get_char(i);
        if !('0' <= c && c <= '9') {
            return false;
        }
        i += 1;
    }
    true
}

/// Whether a process name is the game's, in any ASCII case.
pub fn is_deadlock_name(name: &str) -> (r: bool)
    ensures
        r == eq_ignore_ascii_case_spec(name@, "deadlock"@),
{
    eq_ignore_ascii_case(name, "deadlock")
}

/// Whether the contents of a process's command-name file name the game: the
/// contents with surrounding white space trimmed, in any ASCII case.
pub fn is_deadlock_comm(comm: &str) -> (r: bool)
    ensures
        r == eq_ignore_ascii_case_spec(trimmed(comm@), "deadlock"@),
{
    is_deadlock_name(trim(comm))
}

/// Whether an executable file name is the game's, in any ASCII case.
pub fn is_deadlock_exe_name(exe: &str) -> (r: bool)
    ensures
        r == eq_ignore_ascii_case_spec(exe@, "deadlock.exe"@),
{
    eq_ignore_ascii_case(exe, "deadlock.exe")
}

} // verus!
