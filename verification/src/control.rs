//! What the dashboard does between two redraws.

use vstd::prelude::*;

verus! {

/// Seconds after a refresh at which the data is fetched again.
pub const REFRESH_SECS: u64 = 30;

/// Milliseconds the dashboard waits for a key before it redraws.
pub const POLL_MILLIS: u64 = 200;

/// A key press: the character typed, if the key types one, and whether
/// the control modifier was held.
#[derive(Clone, Copy, Debug, PartialEq, Eq, Structural)]
pub struct KeyPress {
    pub ch: Option<char>,
    pub control: bool,
}

/// What the dashboard does next.
#[derive(Clone, Copy, Debug, PartialEq, Eq, Structural)]
pub enum Command {
    /// Leave the dashboard.
    Quit,
    /// Fetch all data again.
    Refresh,
    /// Draw again and wait for the next key.
    Idle,
}

/// The command a key press gives: `q` or `Q`, or control with `c`, quits;
/// `r` or `R` refreshes; any other key does nothing.
pub open spec fn key_command_spec(key: KeyPress) -> Command {
    match key.ch {
        Some(c) => if c == 'q' || c == 'Q' || (c == 'c' && key.control) {
            Command::Quit
        } else if c == 'r' || c == 'R' {
            Command::Refresh
        } else {
            Command::Idle
        },
        None => Command::Idle,
    }
}

/// The command that a key press gives.
pub fn key_command(key: KeyPress) -> (cmd: Command)
    ensures
        cmd == key_command_spec(key),
        cmd == Command::Quit <==> (key.ch == Some('q') || key.ch == Some('Q') || (key.ch == Some('c')
            && key.control)),
        cmd == Command::Refresh <==> (key.ch == Some('r') || key.ch == Some('R')),
        key.ch is None ==> cmd == Command::Idle,
{
    match key.ch {
        Some(c) => {
            if c == 'q' || c == 'Q' {
                Command::Quit
            } else if c == 'c' && key.control {
                Command::Quit
            } else if c == 'r' || c == 'R' {
                Command::Refresh
            } else {
                Command::Idle
            }
        },
        None => Command::Idle,
    }
}

/// Whether the data is due to be fetched again, given the whole seconds
/// since the last refresh; never before a first refresh.
pub fn refresh_due(elapsed_secs: Option<u64>) -> (due: bool)
    ensures
        due == refresh_due_spec(elapsed_secs),
        elapsed_secs is None ==> !due,
        forall|s: u64| elapsed_secs == Some(s) ==> (due <==> s >= 30),
{
    match elapsed_secs {
        Some(s) => s >= REFRESH_SECS,
        None => false,
    }
}

/// A refresh is due at least `REFRESH_SECS` seconds after the last one.
pub open spec fn refresh_due_spec(elapsed_secs: Option<u64>) -> bool {
    elapsed_secs matches Some(s) && s >= REFRESH_SECS
}

/// What a turn of the dashboard's loop does once the screen is drawn.
#[derive(Clone, Copy, Debug, PartialEq, Eq, Structural)]
pub enum Turn {
    /// Fetch all data again, then start the next turn.
    Fetch,
    /// Wait up to this many milliseconds for a key, then start the next turn.
    Wait(u64),
}

/// The turn of the dashboard's loop, from the whole seconds since the last
/// refresh: a fetch exactly when one is due, else a wait of `POLL_MILLIS`
/// for a key, so the screen is drawn again at least that often.
pub fn next_turn(elapsed_secs: Option<u64>) -> (turn: Turn)
    ensures
        turn == (if refresh_due_spec(elapsed_secs) { Turn::Fetch } else { Turn::Wait(POLL_MILLIS) }),
        turn == Turn::Fetch <==> (elapsed_secs matches Some(s) && s >= 30),
        turn != Turn::Fetch ==> turn == Turn::Wait(200),
{
    if refresh_due(elapsed_secs) {
        Turn::Fetch
    } else {
        Turn::Wait(POLL_MILLIS)
    }
}

/// The keys: `q` and `Q` quit with or without control, control with `c`
/// quits, `r` and `R` refresh with or without control; every other key,
/// and every key that types no character, does nothing.
pub proof fn lemma_key_commands(key: KeyPress)
    ensures
        key_command_spec(key) == Command::Quit <==> (key.ch == Some('q') || key.ch == Some('Q') || (
        key.ch == Some('c') && key.control)),
        key_command_spec(key) == Command::Refresh <==> (key.ch == Some('r') || key.ch == Some('R')),
        key.ch is None ==> key_command_spec(key) == Command::Idle,
        key.ch == Some('c') && !key.control ==> key_command_spec(key) == Command::Idle,
{
}

/// Refresh timing: before a first refresh, and for fewer than 30 seconds
/// after the last one, a turn waits 200 milliseconds for a key; from 30
/// seconds on it fetches. Waiting longer never stops a refresh being due.
pub proof fn lemma_refresh_timing(earlier: u64, later: u64)
    requires
        earlier <= later,
    ensures
        !refresh_due_spec(None),
        earlier < 30 ==> !refresh_due_spec(Some(earlier)),
        later >= 30 ==> refresh_due_spec(Some(later)),
        refresh_due_spec(Some(earlier)) ==> refresh_due_spec(Some(later)),
{
}

} // verus!
