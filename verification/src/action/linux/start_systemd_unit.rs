//! Starting a systemd unit.
use vstd::prelude::*;
use crate::action::run::leaf;
use crate::action::{Action, StatefulAction};
use crate::command::{command_line, command_lines, single, Command, CommandLine};
use crate::error::PlanningError;
use crate::state::ActionState;

verus! {

/// Start a given systemd unit.
#[derive(Debug, PartialEq, Eq)]
pub struct StartSystemdUnit {
    pub unit: String,
}

impl StartSystemdUnit {
    /// Plans to enable and start `unit`. For a unit that is `enabled`
    /// already the work is done.
    pub fn plan(unit: String, enabled: bool) -> (plan: Result<StatefulAction, PlanningError>)
        ensures
            plan matches Ok(node) && node@ == leaf(
                Action::StartSystemdUnit(StartSystemdUnit { unit }),
                if enabled {
                    ActionState::Completed
                } else {
                    ActionState::Uncompleted
                },
            ),
    {
        if enabled {
            Ok(StatefulAction::completed(Action::StartSystemdUnit(StartSystemdUnit { unit })))
        } else {
            Ok(StatefulAction::uncompleted(Action::StartSystemdUnit(StartSystemdUnit { unit })))
        }
    }

    /// The command whose success tells that the unit is enabled.
    pub open spec fn probe_line(unit: Seq<char>) -> CommandLine {
        command_line("systemctl"@, seq!["is-enabled"@, unit])
    }

    /// The command that enables and starts the unit.
    pub open spec fn execute_line(self) -> CommandLine {
        command_line("systemctl"@, seq!["enable"@, "--now"@, self.unit@])
    }

    /// The command that disables and stops the unit.
    pub open spec fn revert_line(self) -> CommandLine {
        command_line("systemctl"@, seq!["disable"@, "--now"@, self.unit@])
    }

    /// The command whose success tells that the unit is enabled.
    pub fn probe_command(unit: &str) -> (command: Command)
        ensures
            command@ == Self::probe_line(unit@),
    {
        let command = Command::new("systemctl").arg("is-enabled").arg(unit);
        assert(command@.args =~= Self::probe_line(unit@).args);
        command
    }

    /// The command that enables and starts the unit.
    pub fn execute_commands(&self) -> (commands: Vec<Command>)
        ensures
            command_lines(commands@) == seq![self.execute_line()],
    {
        let command = Command::new("systemctl").arg("enable").arg("--now").arg(self.unit.as_str());
        assert(command@.args =~= self.execute_line().args);
        single(command)
    }

    /// The command that disables and stops the unit.
    pub fn revert_commands(&self) -> (commands: Vec<Command>)
        ensures
            command_lines(commands@) == seq![self.revert_line()],
    {
        let command = Command::new("systemctl").arg("disable").arg("--now").arg(self.unit.as_str());
        assert(command@.args =~= self.revert_line().args);
        single(command)
    }
}

} // verus!
