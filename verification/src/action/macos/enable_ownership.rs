//! Enabling ownership on a volume.
use vstd::prelude::*;
use crate::action::run::leaf;
use crate::action::{Action, StatefulAction};
use crate::command::{command_line, command_lines, none, single, Command, CommandLine};
use crate::error::{ActionError, PlanningError};
use crate::property_list::{plist_entry, read_entry, Entry, EntryView};
use crate::state::ActionState;

verus! {

/// Enable ownership on a volume.
#[derive(Debug, PartialEq, Eq)]
pub struct EnableOwnership {
    pub path: String,
}

impl EnableOwnership {
    /// Plans to enable ownership on the volume at `path`.
    pub fn plan(path: String) -> (plan: Result<StatefulAction, PlanningError>)
        ensures
            plan matches Ok(node) && node@ == leaf(
                Action::EnableOwnership(EnableOwnership { path }),
                ActionState::Uncompleted,
            ),
    {
        Ok(StatefulAction::uncompleted(Action::EnableOwnership(EnableOwnership { path })))
    }

    /// The command that writes what is known of the volume as a property
    /// list.
    pub open spec fn info_line(self) -> CommandLine {
        command_line("/usr/sbin/diskutil"@, seq!["info"@, "-plist"@, self.path@])
    }

    /// The command that enables ownership.
    pub open spec fn execute_line(self) -> CommandLine {
        command_line("/usr/sbin/diskutil"@, seq!["enableOwnership"@, self.path@])
    }

    /// The command that writes what is known of the volume as a property
    /// list.
    pub fn info_command(&self) -> (command: Command)
        ensures
            command@ == self.info_line(),
    {
        let command = Command::new("/usr/sbin/diskutil").arg("info").arg("-plist").arg(
            self.path.as_str(),
        );
        assert(command@.args =~= self.info_line().args);
        command
    }

    /// The commands to run once it is known whether ownership is enabled:
    /// it is enabled only where the volume reports that it is not; where the
    /// volume reports nothing, the action fails.
    pub fn commands_for(&self, enabled: Option<bool>) -> (commands: Result<Vec<Command>, ActionError>)
        ensures
            match enabled {
                Some(true) => commands matches Ok(all) && command_lines(all@) == Seq::<
                    CommandLine,
                >::empty(),
                Some(false) => commands matches Ok(all) && command_lines(all@) == seq![
                    self.execute_line(),
                ],
                None => commands matches Err(error) && error is Custom,
            },
    {
        match enabled {
            Some(true) => Ok(none()),
            Some(false) => {
                let command = Command::new("/usr/sbin/diskutil").arg("enableOwnership").arg(
                    self.path.as_str(),
                );
                assert(command@.args =~= self.execute_line().args);
                Ok(single(command))
            },
            None => Err(
                ActionError::Custom(
                    String::from_str("the volume did not report whether ownership is enabled"),
                ),
            ),
        }
    }

    /// Whether ownership is enabled, as what was read under
    /// `GlobalPermissionsEnabled` tells: nothing where no boolean was read.
    pub open spec fn enabled(entry: Option<EntryView>) -> Option<bool> {
        match entry {
            Some(EntryView::Boolean(on)) => Some(on),
            _ => None,
        }
    }

    /// The commands to run, given what `info_command` wrote: ownership is
    /// enabled only where the property list holds `false` under
    /// `GlobalPermissionsEnabled`.
    pub fn execute_commands(&self, info: &Vec<u8>) -> (commands: Result<Vec<Command>, ActionError>)
        ensures
            match Self::enabled(plist_entry(info@, "GlobalPermissionsEnabled"@)) {
                Some(true) => commands matches Ok(all) && command_lines(all@) == Seq::<
                    CommandLine,
                >::empty(),
                Some(false) => commands matches Ok(all) && command_lines(all@) == seq![
                    self.execute_line(),
                ],
                None => commands matches Err(error) && error is Custom,
            },
    {
        let enabled = match read_entry(info, "GlobalPermissionsEnabled") {
            Some(Entry::Boolean(on)) => Some(on),
            _ => None,
        };
        self.commands_for(enabled)
    }

    /// The commands that undo the action: none.
    pub fn revert_commands(&self) -> (commands: Vec<Command>)
        ensures
            command_lines(commands@) == Seq::<CommandLine>::empty(),
    {
        none()
    }
}

} // verus!
