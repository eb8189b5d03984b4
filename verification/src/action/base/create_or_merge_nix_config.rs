//! Creating `nix.conf`, or merging wanted settings into the one that exists.
use vstd::prelude::*;
use crate::action::run::Node;
use crate::action::{Action, StatefulAction};
use crate::command::{random_number, temporary_beside, temporary_sibling, Operation};
use crate::error::{CreateOrMergeNixConfigError, PlanningError};
use crate::facts::{PathFact, PathKind};
use crate::nix_config::{
    conflicts, copy_pairs, merge, merged, names_other_files, parse_error_text, parse_settings,
    parsed_settings, plain, render, rendered, text_names_other_files, NixSettings, Settings,
};
use crate::state::ActionState;
use crate::text::views;

verus! {

/// The permission bits of `nix.conf`.
pub const NIX_CONF_MODE: u32 = 0o644;

/// Create or merge an existing `nix.conf` at the specified path.
///
/// `existing` holds the settings found when the action was planned, and
/// `merged` the settings that have to be written.
#[derive(Debug, PartialEq, Eq)]
pub struct CreateOrMergeNixConfig {
    pub path: String,
    pub existing: Option<NixSettings>,
    pub merged: NixSettings,
}

/// The settings of a configuration that may be absent.
pub open spec fn settings_of(config: Option<NixSettings>) -> Option<Settings> {
    match config {
        Some(found) => Some(found@),
        None => None,
    }
}

/// Whether `node` is the action that brings the settings `pending` into the
/// file at `path`, which holds `existing` or does not exist.
///
/// Without a file, everything wanted is to be written. With a file, the
/// settings to write are the merged ones, and with nothing to write the
/// work is done already.
pub open spec fn merge_shaped(
    node: Node,
    path: Seq<char>,
    pending: Settings,
    existing: Option<Settings>,
) -> bool {
    &&& node.children.len() == 0
    &&& node.failure is None
    &&& node.action matches Action::CreateOrMergeNixConfig(action)
    &&& action.path@ == path
    &&& settings_of(action.existing) == existing
    &&& match existing {
        None => node.state == ActionState::Uncompleted && action.merged@ == pending,
        Some(found) => {
            &&& action.merged@ == merged(found, pending)
            &&& node.state == (if merged(found, pending).len() > 0 {
                ActionState::Uncompleted
            } else {
                ActionState::Completed
            })
        },
    }
}

/// Whether the settings `pending` cannot be merged into `existing`.
pub open spec fn merge_fails(pending: Settings, existing: Option<Settings>) -> bool {
    existing matches Some(found) && conflicts(found, pending).len() > 0
}

/// Whether `plan` is the plan to bring the settings `pending` into the file
/// at `path`, which holds `existing` or does not exist: the action that
/// `merge_shaped` describes, or, where wanted settings cannot be merged, the
/// failure that names them in the order of `pending`.
pub open spec fn merge_planned(
    plan: Result<StatefulAction, PlanningError>,
    path: Seq<char>,
    pending: Settings,
    existing: Option<Settings>,
) -> bool {
    match plan {
        Ok(tree) => !merge_fails(pending, existing) && merge_shaped(tree@, path, pending, existing),
        Err(error) => {
            &&& merge_fails(pending, existing)
            &&& error matches PlanningError::NixConfig(
                CreateOrMergeNixConfigError::UnmergeableConfig(names, at),
            )
            &&& views(names@) == conflicts(existing->0, pending)
            &&& at@ == path
        },
    }
}

/// Why what stands at the path of the configuration file cannot be merged.
pub enum FileFault {
    /// It is no regular file.
    NotFile,
    /// It has these permission bits, not `0o644`.
    Mode(u32),
    /// It names other files, and what they hold is not known.
    Includes,
    /// Its text is not known, or the parser rejects it.
    Unreadable,
}

/// The settings that the file holds, where there is a file, or why the file
/// cannot be merged. Of a file that names no other file they are what the
/// parser reads from its text; of one that names other files, what was read
/// from it and from them together.
pub open spec fn existing_settings(file: Option<PathFact>) -> Result<Option<Settings>, FileFault> {
    match file {
        None => Ok(None),
        Some(found) => if found.kind != PathKind::File {
            Err(FileFault::NotFile)
        } else if found.mode & 0o777 != NIX_CONF_MODE {
            Err(FileFault::Mode(found.mode & 0o777))
        } else {
            match found.contents {
                None => Err(FileFault::Unreadable),
                Some(text) => if names_other_files(text@) {
                    match found.settings {
                        None => Err(FileFault::Includes),
                        Some(pairs) => Ok(Some(NixSettings::of_pairs(plain(pairs@)))),
                    }
                } else {
                    match parsed_settings(text@) {
                        None => Err(FileFault::Unreadable),
                        Some(settings) => Ok(Some(NixSettings::of_pairs(settings))),
                    }
                },
            }
        },
    }
}

/// Whether `error` tells of the fault `fault` of the file at `path`.
pub open spec fn is_file_error(error: PlanningError, path: Seq<char>, fault: FileFault) -> bool {
    match fault {
        FileFault::NotFile => error matches PlanningError::PathWasNotFile(at) && at@ == path,
        FileFault::Mode(bits) => error matches PlanningError::PathModeMismatch {
            path: at,
            found,
            planned,
        } && at@ == path && found == bits && planned == NIX_CONF_MODE,
        FileFault::Includes => error matches PlanningError::NixConfig(
            CreateOrMergeNixConfigError::ParseNixConfig(_),
        ),
        FileFault::Unreadable => error matches PlanningError::NixConfig(
            CreateOrMergeNixConfigError::ParseNixConfig(_),
        ),
    }
}

/// Whether `plan` is the plan to bring the settings `pending` into the file
/// at `path`, given what stands there: the failure that tells of the file's
/// fault, or else the plan to merge into what the file holds.
pub open spec fn planned(
    plan: Result<StatefulAction, PlanningError>,
    path: Seq<char>,
    pending: Settings,
    file: Option<PathFact>,
) -> bool {
    match existing_settings(file) {
        Err(fault) => plan matches Err(error) && is_file_error(error, path, fault),
        Ok(existing) => merge_planned(plan, path, pending, existing),
    }
}

impl CreateOrMergeNixConfig {
    /// Plans to bring the settings `pending` into the file at `path`, whose
    /// settings are `existing` where the file exists.
    pub fn plan_merge(path: String, pending: NixSettings, existing: Option<NixSettings>) -> (plan: Result<
        StatefulAction,
        PlanningError,
    >)
        ensures
            merge_planned(plan, path@, pending@, settings_of(existing)),
    {
        match existing {
            None => {
                let action = CreateOrMergeNixConfig { path, existing: None, merged: pending };
                Ok(StatefulAction::uncompleted(Action::CreateOrMergeNixConfig(action)))
            },
            Some(found) => {
                let (to_write, unmergeable) = merge(&found, &pending);
                if unmergeable.len() > 0 {
                    Err(
                        PlanningError::NixConfig(
                            CreateOrMergeNixConfigError::UnmergeableConfig(unmergeable, path),
                        ),
                    )
                } else if to_write.len() > 0 {
                    let action = CreateOrMergeNixConfig {
                        path,
                        existing: Some(found),
                        merged: to_write,
                    };
                    Ok(StatefulAction::uncompleted(Action::CreateOrMergeNixConfig(action)))
                } else {
                    let action = CreateOrMergeNixConfig {
                        path,
                        existing: Some(found),
                        merged: to_write,
                    };
                    Ok(StatefulAction::completed(Action::CreateOrMergeNixConfig(action)))
                }
            },
        }
    }

    /// Plans to bring the settings `pending` into the file at `path`, given
    /// what stands there.
    ///
    /// What stands there must be a regular file with the permission bits
    /// `0o644`, and a Nix configuration; the settings that it holds are then
    /// merged as `plan_merge` says.
    pub fn plan(path: String, pending: NixSettings, file: Option<&PathFact>) -> (plan: Result<
        StatefulAction,
        PlanningError,
    >)
        ensures
            planned(
                plan,
                path@,
                pending@,
                match file {
                    Some(found) => Some(*found),
                    None => None,
                },
            ),
    {
        match file {
            None => Self::plan_merge(path, pending, None),
            Some(found) => {
                if found.kind != PathKind::File {
                    return Err(PlanningError::PathWasNotFile(path));
                }
                let bits = found.mode & 0o777;
                if bits != NIX_CONF_MODE {
                    return Err(
                        PlanningError::PathModeMismatch { path, found: bits, planned: NIX_CONF_MODE },
                    );
                }
                let text = match &found.contents {
                    Some(text) => text,
                    None => {
                        return Err(
                            PlanningError::NixConfig(
                                CreateOrMergeNixConfigError::ParseNixConfig(
                                    String::from_str("the text of the file is not known"),
                                ),
                            ),
                        );
                    },
                };
                if text_names_other_files(text.as_str()) {
                    return match &found.settings {
                        None => Err(
                            PlanningError::NixConfig(
                                CreateOrMergeNixConfigError::ParseNixConfig(
                                    String::from_str("the files that the file names were not read"),
                                ),
                            ),
                        ),
                        Some(pairs) => {
                            let existing = NixSettings::from_pairs(copy_pairs(pairs));
                            Self::plan_merge(path, pending, Some(existing))
                        },
                    };
                }
                match parse_settings(text.as_str()) {
                    Err(error) => Err(
                        PlanningError::NixConfig(
                            CreateOrMergeNixConfigError::ParseNixConfig(parse_error_text(&error)),
                        ),
                    ),
                    Ok(pairs) => {
                        let existing = NixSettings::from_pairs(pairs);
                        Self::plan_merge(path, pending, Some(existing))
                    },
                }
            },
        }
    }

    /// Whether `operations` write the configuration file in one step, by way
    /// of the temporary file with the number `number`.
    pub open spec fn writes(self, operations: Seq<Operation>, version: Seq<char>, number: nat) -> bool {
        &&& operations.len() == 1
        &&& operations[0] matches Operation::WriteFile { path, temporary, contents, mode, user, group }
        &&& path@ == self.path@
        &&& temporary@ == temporary_beside(self.path@, number)
        &&& contents@ == rendered(settings_of(self.existing), self.merged@, version)
        &&& mode == Some(NIX_CONF_MODE)
        &&& user is None
        &&& group is None
    }

    /// What is to be done to carry the action out: the whole file is
    /// written anew, by way of the temporary file with the number `number`.
    /// `version` is the installer's version, for the comment line.
    pub fn execute_operations(&self, version: &str, number: u32) -> (operations: Vec<Operation>)
        ensures
            self.writes(operations@, version@, number as nat),
    {
        let mut operations: Vec<Operation> = Vec::new();
        operations.push(
            Operation::WriteFile {
                path: self.path.clone(),
                temporary: temporary_sibling(self.path.as_str(), number),
                contents: render(&self.existing, &self.merged, version),
                mode: Some(NIX_CONF_MODE),
                user: None,
                group: None,
            },
        );
        operations
    }

    /// What is to be done to carry the action out, by way of a temporary
    /// file with a number drawn at random.
    pub fn execute_plan(&self, version: &str) -> (operations: Vec<Operation>)
        ensures
            exists|number: nat| self.writes(operations@, version@, number),
    {
        let number = random_number();
        let operations = self.execute_operations(version, number);
        assert(self.writes(operations@, version@, number as nat));
        operations
    }

    /// What is to be done to undo the action: the file is deleted.
    pub fn revert_operations(&self) -> (operations: Vec<Operation>)
        ensures
            operations@.len() == 1,
            operations@[0] matches Operation::RemoveFile { path } && path@ == self.path@,
    {
        let mut operations: Vec<Operation> = Vec::new();
        operations.push(Operation::RemoveFile { path: self.path.clone() });
        operations
    }
}

} // verus!
