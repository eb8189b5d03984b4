//! Creating the group that the build users share.
use vstd::prelude::*;
use crate::action::run::leaf;
use crate::action::{Action, StatefulAction};
use crate::command::{command_line, command_lines, Command, CommandLine};
use crate::error::PlanningError;
use crate::host::OperatingSystem;
use crate::state::ActionState;
use crate::text::decimal;

verus! {

/// Create an operating system level group.
#[derive(Debug, PartialEq, Eq)]
pub struct CreateGroup {
    pub name: String,
    pub gid: u32,
}

impl CreateGroup {
    /// Plans the group. `existing` is the id of the group of that name on
    /// the host, if there is one: with the planned id the work is done
    /// already, with another id the group cannot be planned.
    pub fn plan(name: String, gid: u32, existing: Option<u32>) -> (plan: Result<
        StatefulAction,
        PlanningError,
    >)
        ensures
            match existing {
                None => plan matches Ok(node) && node@ == leaf(
                    Action::CreateGroup(CreateGroup { name, gid }),
                    ActionState::Uncompleted,
                ),
                Some(found) => if found == gid {
                    plan matches Ok(node) && node@ == leaf(
                        Action::CreateGroup(CreateGroup { name, gid }),
                        ActionState::Completed,
                    )
                } else {
                    plan == Err::<StatefulAction, PlanningError>(
                        PlanningError::GroupGidMismatch { name, found, planned: gid },
                    )
                },
            },
    {
        match existing {
            None => Ok(StatefulAction::uncompleted(Action::CreateGroup(CreateGroup { name, gid }))),
            Some(found) => {
                if found == gid {
                    Ok(StatefulAction::completed(Action::CreateGroup(CreateGroup { name, gid })))
                } else {
                    Err(PlanningError::GroupGidMismatch { name, found, planned: gid })
                }
            },
        }
    }

    /// The command that asks macOS whether the group exists.
    pub open spec fn probe_line(self) -> CommandLine {
        command_line("/usr/bin/dscl"@, seq!["."@, "-read"@, "/Groups/"@ + self.name@])
    }

    /// The command that creates the group.
    pub open spec fn creation_line(self, host: OperatingSystem) -> CommandLine {
        if host == OperatingSystem::Darwin {
            command_line(
                "/usr/sbin/dseditgroup"@,
                seq![
                    "-o"@,
                    "create"@,
                    "-r"@,
                    "Nix build group"@,
                    "-i"@,
                    decimal(self.gid as nat),
                    self.name@,
                ],
            )
        } else {
            command_line("groupadd"@, seq!["-g"@, decimal(self.gid as nat), "--system"@, self.name@])
        }
    }

    /// The command that deletes the group.
    pub open spec fn removal_line(self) -> CommandLine {
        command_line("groupdel"@, seq![self.name@])
    }

    /// The command whose success tells that the group exists already. Only
    /// macOS is asked.
    pub fn existence_probe(&self, host: OperatingSystem) -> (probe: Option<Command>)
        ensures
            match probe {
                Some(command) => host == OperatingSystem::Darwin && command@ == self.probe_line(),
                None => host != OperatingSystem::Darwin,
            },
    {
        if host == OperatingSystem::Darwin {
            let record = String::from_str("/Groups/").concat(self.name.as_str());
            let command = Command::new("/usr/bin/dscl").arg(".").arg("-read").arg(record.as_str());
            assert(command@.args =~= self.probe_line().args);
            Some(command)
        } else {
            None
        }
    }

    /// The commands that create the group. On macOS nothing is run for a
    /// group that `exists` already; elsewhere `exists` does not count.
    pub fn execute_commands(&self, host: OperatingSystem, exists: bool) -> (commands: Vec<Command>)
        ensures
            command_lines(commands@) == (if host == OperatingSystem::Darwin && exists {
                Seq::empty()
            } else {
                seq![self.creation_line(host)]
            }),
    {
        let mut commands: Vec<Command> = Vec::new();
        if host == OperatingSystem::Darwin {
            if !exists {
                let command = Command::new("/usr/sbin/dseditgroup").arg("-o").arg("create").arg("-r").arg(
                    "Nix build group",
                ).arg("-i").number(self.gid as u64).arg(self.name.as_str());
                assert(command@.args =~= self.creation_line(host).args);
                commands.push(command);
            }
        } else {
            let command = Command::new("groupadd").arg("-g").number(self.gid as u64).arg("--system").arg(
                self.name.as_str(),
            );
            assert(command@.args =~= self.creation_line(host).args);
            commands.push(command);
        }
        assert(command_lines(commands@) =~= if host == OperatingSystem::Darwin && exists {
            Seq::<CommandLine>::empty()
        } else {
            seq![self.creation_line(host)]
        });
        commands
    }

    /// The commands that delete the group. On macOS the group is left in
    /// place, and nothing is run.
    pub fn revert_commands(&self, host: OperatingSystem) -> (commands: Vec<Command>)
        ensures
            command_lines(commands@) == (if host == OperatingSystem::Darwin {
                Seq::empty()
            } else {
                seq![self.removal_line()]
            }),
    {
        let mut commands: Vec<Command> = Vec::new();
        if host != OperatingSystem::Darwin {
            let command = Command::new("groupdel").arg(self.name.as_str());
            assert(command@.args =~= self.removal_line().args);
            commands.push(command);
        }
        assert(command_lines(commands@) =~= if host == OperatingSystem::Darwin {
            Seq::<CommandLine>::empty()
        } else {
            seq![self.removal_line()]
        });
        commands
    }
}

} // verus!
