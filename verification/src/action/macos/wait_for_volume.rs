//! Waiting until the volume is mounted.
use vstd::prelude::*;
use crate::action::run::leaf;
use crate::action::{Action, StatefulAction};
use crate::command::{command_line, Command, CommandLine};
use crate::error::PlanningError;
use crate::state::ActionState;

verus! {

/// How often the volume is asked for at most.
pub const ATTEMPTS: u32 = 50;

/// How long to wait before asking again, in milliseconds.
pub const INTERVAL: u64 = 100;

/// Wait until the volume at `path` is there, asking at most `attempts`
/// times in all, `interval` milliseconds apart.
#[derive(Debug, PartialEq, Eq)]
pub struct WaitForVolume {
    pub path: String,
    pub attempts: u32,
    pub interval: u64,
}

/// What to do after the volume has been asked for.
#[derive(Clone, Copy, PartialEq, Eq, Structural, Debug)]
pub enum Wait {
    /// Go on: the volume is there, or it has been asked for often enough.
    Ready,
    /// Sleep for `sleep` milliseconds and ask again; the volume may then be
    /// asked for `remaining` more times.
    Retry { remaining: u32, sleep: u64 },
}

impl WaitForVolume {
    /// Plans to wait for the volume at `path`: it is asked for up to 50
    /// times, 100 milliseconds apart.
    pub fn plan(path: String) -> (plan: Result<StatefulAction, PlanningError>)
        ensures
            plan matches Ok(node) && node@ == leaf(
                Action::WaitForVolume(
                    WaitForVolume { path, attempts: ATTEMPTS, interval: INTERVAL },
                ),
                ActionState::Uncompleted,
            ),
    {
        Ok(
            StatefulAction::uncompleted(
                Action::WaitForVolume(WaitForVolume { path, attempts: ATTEMPTS, interval: INTERVAL }),
            ),
        )
    }

    /// The command whose success tells that the volume is there.
    pub open spec fn probe_line(self) -> CommandLine {
        command_line("/usr/sbin/diskutil"@, seq!["info"@, self.path@])
    }

    /// The command whose success tells that the volume is there.
    pub fn probe_command(&self) -> (command: Command)
        ensures
            command@ == self.probe_line(),
    {
        let command = Command::new("/usr/sbin/diskutil").arg("info").arg(self.path.as_str());
        assert(command@.args =~= self.probe_line().args);
        command
    }

    /// What to do after the volume has been asked for, where it might be
    /// asked for `remaining` times, this time counted: go on where it was
    /// `found` or this was the last time, and else sleep and ask again with
    /// one time less.
    pub fn after_probe(&self, remaining: u32, found: bool) -> (next: Wait)
        ensures
            next == (if found || remaining <= 1 {
                Wait::Ready
            } else {
                Wait::Retry { remaining: (remaining - 1) as u32, sleep: self.interval }
            }),
    {
        if found || remaining <= 1 {
            Wait::Ready
        } else {
            Wait::Retry { remaining: remaining - 1, sleep: self.interval }
        }
    }
}

/// How often the volume is asked for when it may be asked for `remaining`
/// times and is found at the asking counted by `found_at` (from 0), or never
/// where `found_at` is negative. It is asked for once in any case.
pub open spec fn probes(remaining: nat, found_at: int) -> nat
    decreases remaining,
{
    if found_at == 0 || remaining <= 1 {
        1
    } else {
        1 + probes((remaining - 1) as nat, found_at - 1)
    }
}

/// The wait is bounded: the volume is asked for no more often than it may
/// be, whenever it is found or not; with the planned number, at most 50
/// times in all.
pub proof fn lemma_wait_is_bounded(remaining: nat, found_at: int)
    requires
        remaining >= 1,
    ensures
        probes(remaining, found_at) <= remaining,
        remaining == ATTEMPTS ==> probes(remaining, found_at) <= 50,
    decreases remaining,
{
    if found_at != 0 && remaining > 1 {
        lemma_wait_is_bounded((remaining - 1) as nat, found_at - 1);
    }
}

} // verus!
