//! Fetching the Nix archive and unpacking it.
use vstd::prelude::*;
use crate::action::run::leaf;
use crate::action::{Action, StatefulAction};
use crate::command::Operation;
use crate::error::PlanningError;
use crate::state::ActionState;
use crate::text::{occurs_at, starts_with};

verus! {

/// Fetch a URL to the given path.
#[derive(Debug, PartialEq, Eq)]
pub struct FetchAndUnpackNix {
    pub url: String,
    pub dest: String,
}

/// Whether the address begins with a scheme that can be fetched: `https`,
/// `http` or `file`.
pub open spec fn known_scheme(url: Seq<char>) -> bool {
    occurs_at(url, "https://"@, 0) || occurs_at(url, "http://"@, 0) || occurs_at(url, "file://"@, 0)
}

impl FetchAndUnpackNix {
    /// Plans to fetch the archive at `url` and unpack it into `dest`. An
    /// address with another scheme than `https`, `http` or `file` cannot be
    /// planned.
    pub fn plan(url: String, dest: String) -> (plan: Result<StatefulAction, PlanningError>)
        ensures
            if known_scheme(url@) {
                plan matches Ok(node) && node@ == leaf(
                    Action::FetchAndUnpackNix(FetchAndUnpackNix { url, dest }),
                    ActionState::Uncompleted,
                )
            } else {
                plan == Err::<StatefulAction, PlanningError>(PlanningError::UnknownUrlScheme(url))
            },
    {
        let known = starts_with(url.as_str(), "https://") || starts_with(url.as_str(), "http://")
            || starts_with(url.as_str(), "file://");
        if known {
            Ok(
                StatefulAction::uncompleted(
                    Action::FetchAndUnpackNix(FetchAndUnpackNix { url, dest }),
                ),
            )
        } else {
            Err(PlanningError::UnknownUrlScheme(url))
        }
    }

    /// What is to be done to carry the action out.
    pub fn execute_operations(&self) -> (operations: Vec<Operation>)
        ensures
            operations@.len() == 1,
            operations@[0] matches Operation::FetchAndUnpack { url, dest } && url@ == self.url@
                && dest@ == self.dest@,
    {
        let mut operations: Vec<Operation> = Vec::new();
        operations.push(
            Operation::FetchAndUnpack { url: self.url.clone(), dest: self.dest.clone() },
        );
        operations
    }

    /// What is to be done to undo the action: what was unpacked is removed.
    pub fn revert_operations(&self) -> (operations: Vec<Operation>)
        ensures
            operations@.len() == 1,
            operations@[0] matches Operation::RemoveDirectory { path, recursive } && path@
                == self.dest@ && recursive,
    {
        let mut operations: Vec<Operation> = Vec::new();
        operations.push(Operation::RemoveDirectory { path: self.dest.clone(), recursive: true });
        operations
    }
}

} // verus!
