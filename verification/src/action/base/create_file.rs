//! Creating a file with given contents.
use vstd::prelude::*;
use crate::action::run::leaf;
use crate::action::{Action, StatefulAction};
use crate::command::{temporary_beside, temporary_sibling, Operation};
use crate::error::PlanningError;
use crate::state::ActionState;

verus! {

/// Create a file at the given location with the provided contents,
/// optionally with an owning user and group.
#[derive(Debug, PartialEq, Eq)]
pub struct CreateFile {
    pub path: String,
    pub user: Option<String>,
    pub group: Option<String>,
    pub mode: Option<u32>,
    pub buf: String,
    pub force: bool,
}

impl CreateFile {
    /// Plans the file. Something that `exists` at the path is overwritten
    /// only with `force`; without it the file cannot be planned.
    pub fn plan(
        path: String,
        user: Option<String>,
        group: Option<String>,
        mode: Option<u32>,
        buf: String,
        force: bool,
        exists: bool,
    ) -> (plan: Result<StatefulAction, PlanningError>)
        ensures
            if exists && !force {
                plan == Err::<StatefulAction, PlanningError>(PlanningError::PathExists(path))
            } else {
                plan matches Ok(node) && node@ == leaf(
                    Action::CreateFile(CreateFile { path, user, group, mode, buf, force }),
                    ActionState::Uncompleted,
                )
            },
    {
        if exists && !force {
            Err(PlanningError::PathExists(path))
        } else {
            Ok(
                StatefulAction::uncompleted(
                    Action::CreateFile(CreateFile { path, user, group, mode, buf, force }),
                ),
            )
        }
    }

    /// Whether `operations` write the file in one step, by way of the
    /// temporary file with the number `number`.
    pub open spec fn writes(self, operations: Seq<Operation>, number: nat) -> bool {
        &&& operations.len() == 1
        &&& operations[0] matches Operation::WriteFile { path, temporary, contents, mode, user, group }
        &&& path@ == self.path@
        &&& temporary@ == temporary_beside(self.path@, number)
        &&& contents@ == self.buf@
        &&& mode == self.mode
        &&& user == self.user
        &&& group == self.group
    }

    /// What is to be done to carry the action out: the contents are written
    /// to the temporary file with the number `number` and renamed into place.
    pub fn execute_operations(&self, number: u32) -> (operations: Vec<Operation>)
        ensures
            self.writes(operations@, number as nat),
    {
        let mut operations: Vec<Operation> = Vec::new();
        operations.push(
            Operation::WriteFile {
                path: self.path.clone(),
                temporary: temporary_sibling(self.path.as_str(), number),
                contents: self.buf.clone(),
                mode: self.mode,
                user: self.user.clone(),
                group: self.group.clone(),
            },
        );
        operations
    }

    /// What is to be done to undo the action: the file is deleted, if it is
    /// still there.
    pub fn revert_operations(&self) -> (operations: Vec<Operation>)
        ensures
            operations@.len() == 1,
            operations@[0] matches Operation::RemoveFile { path } && path@ == self.path@,
    {
        let mut operations: Vec<Operation> = Vec::new();
        operations.push(Operation::RemoveFile { path: self.path.clone() });
        operations
    }
}

} // verus!
