//! Creating a directory.
use vstd::prelude::*;
use crate::action::run::Node;
use crate::action::{Action, StatefulAction};
use crate::command::Operation;
use crate::error::PlanningError;
use crate::facts::{PathFact, PathKind};
use crate::state::ActionState;

verus! {

/// Create a directory at the given location, optionally with an owning
/// user, group and mode. `created` records that the directory was absent
/// when the action was planned, so that it is the action's own to remove.
#[derive(Debug, PartialEq, Eq)]
pub struct CreateDirectory {
    pub path: String,
    pub user: Option<String>,
    pub group: Option<String>,
    pub mode: u32,
    pub force: bool,
    pub created: bool,
}

/// The text of a name that may be absent.
pub open spec fn text_of(name: Option<String>) -> Option<Seq<char>> {
    match name {
        Some(text) => Some(text@),
        None => None,
    }
}

/// Whether the name found fits the name wanted, where one is wanted.
pub open spec fn name_fits(wanted: Option<Seq<char>>, found: Seq<char>) -> bool {
    match wanted {
        Some(name) => name == found,
        None => true,
    }
}

fn fits(wanted: &Option<String>, found: &String) -> (same: bool)
    ensures
        same == name_fits(text_of(*wanted), found@),
{
    match wanted {
        Some(name) => *name == *found,
        None => true,
    }
}

impl CreateDirectory {
    /// Whether what exists at the path is the directory that is wanted.
    pub open spec fn satisfied_by(
        user: Option<Seq<char>>,
        group: Option<Seq<char>>,
        mode: u32,
        found: PathFact,
    ) -> bool {
        &&& found.kind == PathKind::Directory
        &&& found.mode & 0o777 == mode
        &&& name_fits(user, found.user@)
        &&& name_fits(group, found.group@)
    }

    /// Whether the directory cannot be planned: something else than the
    /// wanted directory exists, and `force` does not say to go on.
    pub open spec fn fails(
        user: Option<Seq<char>>,
        group: Option<Seq<char>>,
        mode: u32,
        force: bool,
        existing: Option<PathFact>,
    ) -> bool {
        existing matches Some(found) && !Self::satisfied_by(user, group, mode, found) && !force
    }

    /// Whether `node` is the planned directory: to be created, and the
    /// action's own, where nothing exists; done already where the wanted
    /// directory exists; and to be carried out over what exists otherwise.
    pub open spec fn shaped(
        node: Node,
        path: Seq<char>,
        user: Option<Seq<char>>,
        group: Option<Seq<char>>,
        mode: u32,
        force: bool,
        existing: Option<PathFact>,
    ) -> bool {
        &&& node.action matches Action::CreateDirectory(action)
        &&& action.path@ == path
        &&& text_of(action.user) == user
        &&& text_of(action.group) == group
        &&& action.mode == mode
        &&& action.force == force
        &&& action.created == (existing is None)
        &&& node.state == (if existing matches Some(found) && Self::satisfied_by(
            user,
            group,
            mode,
            found,
        ) {
            ActionState::Completed
        } else {
            ActionState::Uncompleted
        })
        &&& node.children.len() == 0
        &&& node.failure is None
    }

    /// Whether `error` is why the directory cannot be planned: what exists
    /// is no directory, or has other permission bits, or another owner, or
    /// another group, whichever comes first.
    pub open spec fn is_error(
        error: PlanningError,
        path: Seq<char>,
        user: Option<Seq<char>>,
        group: Option<Seq<char>>,
        mode: u32,
        found: PathFact,
    ) -> bool {
        if found.kind != PathKind::Directory {
            error matches PlanningError::PathWasNotDirectory(at) && at@ == path
        } else if found.mode & 0o777 != mode {
            error matches PlanningError::PathModeMismatch { path: at, found: has, planned } && at@
                == path && has == found.mode & 0o777 && planned == mode
        } else if !name_fits(user, found.user@) {
            error matches PlanningError::PathUserMismatch { path: at, found: has, planned } && at@
                == path && has@ == found.user@ && Some(planned@) == user
        } else {
            error matches PlanningError::PathGroupMismatch { path: at, found: has, planned } && at@
                == path && has@ == found.group@ && Some(planned@) == group
        }
    }

    /// Whether `plan` is the plan for the directory, given what exists at
    /// the path.
    pub open spec fn planned(
        plan: Result<StatefulAction, PlanningError>,
        path: Seq<char>,
        user: Option<Seq<char>>,
        group: Option<Seq<char>>,
        mode: u32,
        force: bool,
        existing: Option<PathFact>,
    ) -> bool {
        match plan {
            Ok(tree) => !Self::fails(user, group, mode, force, existing) && Self::shaped(
                tree@,
                path,
                user,
                group,
                mode,
                force,
                existing,
            ),
            Err(error) => Self::fails(user, group, mode, force, existing) && Self::is_error(
                error,
                path,
                user,
                group,
                mode,
                existing->0,
            ),
        }
    }

    /// Plans the directory, given what exists at the path.
    ///
    /// Where nothing exists the directory is to be created, and the action
    /// records that it is its own. A directory with the wanted permission
    /// bits and owners is done already. Anything else cannot be planned,
    /// unless `force` says to go on regardless.
    pub fn plan(
        path: String,
        user: Option<String>,
        group: Option<String>,
        mode: u32,
        force: bool,
        existing: Option<&PathFact>,
    ) -> (plan: Result<StatefulAction, PlanningError>)
        ensures
            Self::planned(
                plan,
                path@,
                text_of(user),
                text_of(group),
                mode,
                force,
                match existing {
                    Some(found) => Some(*found),
                    None => None,
                },
            ),
    {
        match existing {
            None => Ok(
                StatefulAction::uncompleted(
                    Action::CreateDirectory(
                        CreateDirectory { path, user, group, mode, force, created: true },
                    ),
                ),
            ),
            Some(found) => {
                let is_directory = found.kind == PathKind::Directory;
                let bits = found.mode & 0o777;
                let user_fits = fits(&user, &found.user);
                let group_fits = fits(&group, &found.group);
                if is_directory && bits == mode && user_fits && group_fits {
                    Ok(
                        StatefulAction::completed(
                            Action::CreateDirectory(
                                CreateDirectory { path, user, group, mode, force, created: false },
                            ),
                        ),
                    )
                } else if force {
                    Ok(
                        StatefulAction::uncompleted(
                            Action::CreateDirectory(
                                CreateDirectory { path, user, group, mode, force, created: false },
                            ),
                        ),
                    )
                } else if !is_directory {
                    Err(PlanningError::PathWasNotDirectory(path))
                } else if bits != mode {
                    Err(PlanningError::PathModeMismatch { path, found: bits, planned: mode })
                } else if !user_fits {
                    match user {
                        Some(planned) => Err(
                            PlanningError::PathUserMismatch { path, found: found.user.clone(), planned },
                        ),
                        None => Err(PlanningError::PathWasNotDirectory(path)),
                    }
                } else {
                    match group {
                        Some(planned) => Err(
                            PlanningError::PathGroupMismatch {
                                path,
                                found: found.group.clone(),
                                planned,
                            },
                        ),
                        None => Err(PlanningError::PathWasNotDirectory(path)),
                    }
                }
            },
        }
    }

    /// What is to be done to carry the action out: the directory is made,
    /// given its permission bits, and handed to its owners.
    pub fn execute_operations(&self) -> (operations: Vec<Operation>)
        ensures
            operations@.len() == 1,
            operations@[0] matches Operation::CreateDirectory { path, user, group, mode } && path@
                == self.path@ && user == self.user && group == self.group && mode == self.mode,
    {
        let mut operations: Vec<Operation> = Vec::new();
        operations.push(
            Operation::CreateDirectory {
                path: self.path.clone(),
                user: self.user.clone(),
                group: self.group.clone(),
                mode: self.mode,
            },
        );
        operations
    }

    /// What is to be done to undo the action: the directory is removed if
    /// it is empty, and with all that it holds only where the action
    /// recorded that it created the directory.
    pub fn revert_operations(&self) -> (operations: Vec<Operation>)
        ensures
            operations@.len() == 1,
            operations@[0] matches Operation::RemoveDirectory { path, recursive } && path@
                == self.path@ && recursive == self.created,
    {
        let mut operations: Vec<Operation> = Vec::new();
        operations.push(
            Operation::RemoveDirectory { path: self.path.clone(), recursive: self.created },
        );
        operations
    }
}

} // verus!
