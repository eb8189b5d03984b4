//! Creating an APFS volume.
use vstd::prelude::*;
use crate::action::run::leaf;
use crate::action::{Action, StatefulAction};
use crate::command::{command_line, command_lines, single, Command, CommandLine};
use crate::error::PlanningError;
use crate::state::ActionState;

verus! {

/// Create an APFS volume on the given disk.
#[derive(Debug, PartialEq, Eq)]
pub struct CreateApfsVolume {
    pub disk: String,
    pub name: String,
    pub case_sensitive: bool,
}

impl CreateApfsVolume {
    /// Plans to add the volume `name` to `disk`.
    pub fn plan(disk: String, name: String, case_sensitive: bool) -> (plan: Result<StatefulAction, PlanningError>)
        ensures
            plan matches Ok(node) && node@ == leaf(
                Action::CreateApfsVolume(CreateApfsVolume { disk, name, case_sensitive }),
                ActionState::Uncompleted,
            ),
    {
        Ok(StatefulAction::uncompleted(Action::CreateApfsVolume(CreateApfsVolume { disk, name, case_sensitive })))
    }

    /// The command that adds the volume, without mounting it.
    pub open spec fn execute_line(self) -> CommandLine {
        command_line("/usr/sbin/diskutil"@, seq!["apfs"@, "addVolume"@, self.disk@, (if self.case_sensitive { "Case-sensitive APFS"@ } else { "APFS"@ }), self.name@, "-nomount"@])
    }

    /// The command that adds the volume, without mounting it.
    pub fn execute_commands(&self) -> (commands: Vec<Command>)
        ensures
            command_lines(commands@) == seq![self.execute_line()],
    {
        let command = Command::new("/usr/sbin/diskutil").arg("apfs").arg("addVolume").arg(self.disk.as_str()).arg(if self.case_sensitive { "Case-sensitive APFS" } else { "APFS" }).arg(self.name.as_str()).arg("-nomount");
        assert(command@.args =~= self.execute_line().args);
        single(command)
    }

    /// The command that deletes the volume.
    pub open spec fn revert_line(self) -> CommandLine {
        command_line("/usr/sbin/diskutil"@, seq!["apfs"@, "deleteVolume"@, self.name@])
    }

    /// The command that deletes the volume.
    pub fn revert_commands(&self) -> (commands: Vec<Command>)
        ensures
            command_lines(commands@) == seq![self.revert_line()],
    {
        let command = Command::new("/usr/sbin/diskutil").arg("apfs").arg("deleteVolume").arg(self.name.as_str());
        assert(command@.args =~= self.revert_line().args);
        single(command)
    }
}

} // verus!
