//! Unmounting an APFS volume.
use vstd::prelude::*;
use crate::action::run::leaf;
use crate::action::{Action, StatefulAction};
use crate::command::{command_line, command_lines, single, Command, CommandLine};
use crate::error::PlanningError;
use crate::state::ActionState;

verus! {

/// Unmount an APFS volume.
#[derive(Debug, PartialEq, Eq)]
pub struct UnmountApfsVolume {
    pub disk: String,
    pub name: String,
}

impl UnmountApfsVolume {
    /// Plans to unmount the volume `name`.
    pub fn plan(disk: String, name: String) -> (plan: Result<StatefulAction, PlanningError>)
        ensures
            plan matches Ok(node) && node@ == leaf(
                Action::UnmountApfsVolume(UnmountApfsVolume { disk, name }),
                ActionState::Uncompleted,
            ),
    {
        Ok(StatefulAction::uncompleted(Action::UnmountApfsVolume(UnmountApfsVolume { disk, name })))
    }

    /// The command that unmounts the volume.
    pub open spec fn execute_line(self) -> CommandLine {
        command_line("/usr/sbin/diskutil"@, seq!["unmount"@, "force"@, self.name@])
    }

    /// The command that unmounts the volume.
    pub fn execute_commands(&self) -> (commands: Vec<Command>)
        ensures
            command_lines(commands@) == seq![self.execute_line()],
    {
        let command = Command::new("/usr/sbin/diskutil").arg("unmount").arg("force").arg(self.name.as_str());
        assert(command@.args =~= self.execute_line().args);
        single(command)
    }

    /// The command that undoes the action: the volume is unmounted once more.
    pub open spec fn revert_line(self) -> CommandLine {
        command_line("/usr/sbin/diskutil"@, seq!["unmount"@, "force"@, self.name@])
    }

    /// The command that undoes the action: the volume is unmounted once more.
    pub fn revert_commands(&self) -> (commands: Vec<Command>)
        ensures
            command_lines(commands@) == seq![self.revert_line()],
    {
        let command = Command::new("/usr/sbin/diskutil").arg("unmount").arg("force").arg(self.name.as_str());
        assert(command@.args =~= self.revert_line().args);
        single(command)
    }
}

} // verus!
