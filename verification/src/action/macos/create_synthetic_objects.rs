//! Creating the objects named in `/etc/synthetic.conf`.
use vstd::prelude::*;
use crate::action::run::leaf;
use crate::action::{Action, StatefulAction};
use crate::command::{command_line, command_lines, single, Command, CommandLine};
use crate::error::PlanningError;
use crate::state::ActionState;

verus! {

/// Create the synthetic objects defined in `/etc/synthetic.conf`.
#[derive(Debug, PartialEq, Eq)]
pub struct CreateSyntheticObjects {
}

impl CreateSyntheticObjects {
    /// Plans to have the synthetic objects created.
    pub fn plan() -> (plan: Result<StatefulAction, PlanningError>)
        ensures
            plan matches Ok(node) && node@ == leaf(
                Action::CreateSyntheticObjects(CreateSyntheticObjects {  }),
                ActionState::Uncompleted,
            ),
    {
        Ok(StatefulAction::uncompleted(Action::CreateSyntheticObjects(CreateSyntheticObjects {  })))
    }

    /// The command that has the synthetic objects created.
    pub open spec fn execute_line(self) -> CommandLine {
        command_line("/System/Library/Filesystems/apfs.fs/Contents/Resources/apfs.util"@, seq!["-t"@])
    }

    /// The command that has the synthetic objects created.
    pub fn execute_commands(&self) -> (commands: Vec<Command>)
        ensures
            command_lines(commands@) == seq![self.execute_line()],
    {
        let command = Command::new("/System/Library/Filesystems/apfs.fs/Contents/Resources/apfs.util").arg("-t");
        assert(command@.args =~= self.execute_line().args);
        single(command)
    }

    /// The command that undoes the action: the objects are brought in line with the file once more.
    pub open spec fn revert_line(self) -> CommandLine {
        command_line("/System/Library/Filesystems/apfs.fs/Contents/Resources/apfs.util"@, seq!["-t"@])
    }

    /// The command that undoes the action: the objects are brought in line with the file once more.
    pub fn revert_commands(&self) -> (commands: Vec<Command>)
        ensures
            command_lines(commands@) == seq![self.revert_line()],
    {
        let command = Command::new("/System/Library/Filesystems/apfs.fs/Contents/Resources/apfs.util").arg("-t");
        assert(command@.args =~= self.revert_line().args);
        single(command)
    }
}

} // verus!
