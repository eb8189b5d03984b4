//! Kickstarting a launchd service.
use vstd::prelude::*;
use crate::action::run::leaf;
use crate::action::{Action, StatefulAction};
use crate::command::{command_line, command_lines, single, Command, CommandLine};
use crate::error::PlanningError;
use crate::state::ActionState;

verus! {

/// Kickstart a `launchctl` service.
#[derive(Debug, PartialEq, Eq)]
pub struct KickstartLaunchctlService {
    pub unit: String,
}

impl KickstartLaunchctlService {
    /// Plans to kickstart `unit`.
    pub fn plan(unit: String) -> (plan: Result<StatefulAction, PlanningError>)
        ensures
            plan matches Ok(node) && node@ == leaf(
                Action::KickstartLaunchctlService(KickstartLaunchctlService { unit }),
                ActionState::Uncompleted,
            ),
    {
        Ok(StatefulAction::uncompleted(Action::KickstartLaunchctlService(KickstartLaunchctlService { unit })))
    }

    /// The command that starts the service, anew where it runs already.
    pub open spec fn execute_line(self) -> CommandLine {
        command_line("/bin/launchctl"@, seq!["kickstart"@, "-k"@, self.unit@])
    }

    /// The command that starts the service, anew where it runs already.
    pub fn execute_commands(&self) -> (commands: Vec<Command>)
        ensures
            command_lines(commands@) == seq![self.execute_line()],
    {
        let command = Command::new("/bin/launchctl").arg("kickstart").arg("-k").arg(self.unit.as_str());
        assert(command@.args =~= self.execute_line().args);
        single(command)
    }

    /// The commands that undo the action: none.
    pub fn revert_commands(&self) -> (commands: Vec<Command>)
        ensures
            command_lines(commands@) == Seq::<CommandLine>::empty(),
    {
        crate::command::none()
    }
}

} // verus!
