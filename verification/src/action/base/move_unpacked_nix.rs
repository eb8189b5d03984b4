//! Moving the unpacked Nix store into place.
use vstd::prelude::*;
use crate::action::run::leaf;
use crate::action::{Action, StatefulAction};
use crate::command::Operation;
use crate::error::{ActionError, PlanningError};
use crate::state::ActionState;

verus! {

/// Where the Nix store goes.
pub const DEST: &'static str = "/nix/store";

/// Move an unpacked Nix at `src` to `/nix`.
#[derive(Debug, PartialEq, Eq)]
pub struct MoveUnpackedNix {
    pub src: String,
}

impl MoveUnpackedNix {
    /// Plans the move. Nothing is looked at: what is to be moved is only
    /// there once the archive has been unpacked.
    pub fn plan(src: String) -> (plan: Result<StatefulAction, PlanningError>)
        ensures
            plan matches Ok(node) && node@ == leaf(
                Action::MoveUnpackedNix(MoveUnpackedNix { src }),
                ActionState::Uncompleted,
            ),
    {
        Ok(StatefulAction::uncompleted(Action::MoveUnpackedNix(MoveUnpackedNix { src })))
    }

    /// The pattern of the directories that an unpacked archive holds.
    pub fn pattern(&self) -> (pattern: String)
        ensures
            pattern@ == self.src@ + "/nix-*"@,
    {
        self.src.clone().concat("/nix-*")
    }

    /// What is to be done to carry the action out, given the directories
    /// `found` under the pattern: where there is exactly one, its `store` is
    /// renamed to `/nix/store`, and `src` is removed with what is left in
    /// it. Any other number of directories is a failure.
    pub fn execute_operations(&self, found: &Vec<String>) -> (operations: Result<
        Vec<Operation>,
        ActionError,
    >)
        ensures
            match operations {
                Ok(all) => {
                    &&& found@.len() == 1
                    &&& all@.len() == 2
                    &&& all@[0] matches Operation::Rename { from, to }
                    &&& from@ == found@[0]@ + "/store"@
                    &&& to@ == DEST@
                    &&& all@[1] matches Operation::RemoveDirectory { path, recursive }
                    &&& path@ == self.src@
                    &&& recursive
                },
                Err(error) => found@.len() != 1 && error is Mismatch,
            },
    {
        if found.len() != 1 {
            return Err(
                ActionError::Mismatch(
                    String::from_str("Did not expect to find multiple nix paths, please report this"),
                ),
            );
        }
        let mut operations: Vec<Operation> = Vec::new();
        operations.push(
            Operation::Rename {
                from: found[0].clone().concat("/store"),
                to: String::from_str(DEST),
            },
        );
        operations.push(Operation::RemoveDirectory { path: self.src.clone(), recursive: true });
        Ok(operations)
    }

    /// What is to be done to undo the action: nothing.
    pub fn revert_operations(&self) -> (operations: Vec<Operation>)
        ensures
            operations@.len() == 0,
    {
        Vec::new()
    }
}

} // verus!
