//! Bootstrapping a launchd service.
use vstd::prelude::*;
use crate::action::run::leaf;
use crate::action::{Action, StatefulAction};
use crate::command::{command_line, command_lines, single, Command, CommandLine};
use crate::error::PlanningError;
use crate::state::ActionState;

verus! {

/// Bootstrap a `launchctl` service.
#[derive(Debug, PartialEq, Eq)]
pub struct BootstrapLaunchctlService {
    pub domain: String,
    pub service: String,
    pub path: String,
}

impl BootstrapLaunchctlService {
    /// Plans to bootstrap the service described at `path` into `domain`.
    pub fn plan(domain: String, service: String, path: String) -> (plan: Result<StatefulAction, PlanningError>)
        ensures
            plan matches Ok(node) && node@ == leaf(
                Action::BootstrapLaunchctlService(BootstrapLaunchctlService { domain, service, path }),
                ActionState::Uncompleted,
            ),
    {
        Ok(StatefulAction::uncompleted(Action::BootstrapLaunchctlService(BootstrapLaunchctlService { domain, service, path })))
    }

    /// The command that bootstraps the service.
    pub open spec fn execute_line(self) -> CommandLine {
        command_line("/bin/launchctl"@, seq!["bootstrap"@, self.domain@, self.path@])
    }

    /// The command that bootstraps the service.
    pub fn execute_commands(&self) -> (commands: Vec<Command>)
        ensures
            command_lines(commands@) == seq![self.execute_line()],
    {
        let command = Command::new("/bin/launchctl").arg("bootstrap").arg(self.domain.as_str()).arg(self.path.as_str());
        assert(command@.args =~= self.execute_line().args);
        single(command)
    }

    /// The command that removes the service again.
    pub open spec fn revert_line(self) -> CommandLine {
        command_line("/bin/launchctl"@, seq!["bootout"@, self.domain@, self.path@])
    }

    /// The command that removes the service again.
    pub fn revert_commands(&self) -> (commands: Vec<Command>)
        ensures
            command_lines(commands@) == seq![self.revert_line()],
    {
        let command = Command::new("/bin/launchctl").arg("bootout").arg(self.domain.as_str()).arg(self.path.as_str());
        assert(command@.args =~= self.revert_line().args);
        single(command)
    }
}

} // verus!
