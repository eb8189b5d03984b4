//! Placing `/etc/nix/nix.conf`.
use vstd::prelude::*;
use crate::action::base::create_directory::CreateDirectory;
use crate::action::base::create_or_merge_nix_config::{
    existing_settings, is_file_error, merge_fails, merge_shaped, CreateOrMergeNixConfig,
};
use crate::action::run::Node;
use crate::action::{Action, StatefulAction};
use crate::error::{CreateOrMergeNixConfigError, PlanningError};
use crate::facts::{HostFacts, PathFact};
use crate::nix_config::{
    conflicts, copy_pairs, names_other_files, parse_error_text, parse_settings, parsed_settings,
    plain, text_names_other_files, with_setting, NixSettings, Settings,
};
use crate::state::ActionState;
use crate::text::{join, join_with, views};

verus! {

/// The directory of the Nix configuration.
pub const NIX_CONF_FOLDER: &'static str = "/etc/nix";

/// The Nix configuration file.
pub const NIX_CONF: &'static str = "/etc/nix/nix.conf";

/// Place the `/etc/nix/nix.conf` file.
///
/// The first child makes the directory, the second writes the file.
#[derive(Debug, PartialEq, Eq)]
pub struct PlaceNixConfiguration {
}

/// What is known to exist at `path`.
pub open spec fn fact_at(facts: HostFacts, path: Seq<char>) -> Option<PathFact> {
    match facts.place_of(path) {
        Some(i) => Some(facts.paths@[i]),
        None => None,
    }
}

/// The settings that the extra lines hold, where they are a Nix
/// configuration. Of lines that name no other file they are what the parser
/// reads from the lines; of lines that name other files, what was read from
/// them and from those files together.
pub open spec fn extra_settings(extra_conf: Seq<Seq<char>>, facts: HostFacts) -> Option<Settings> {
    let text = join(extra_conf, "\n"@);
    if names_other_files(text) {
        match facts.extra_settings {
            Some(pairs) => Some(NixSettings::of_pairs(plain(pairs@))),
            None => None,
        }
    } else {
        match parsed_settings(text) {
            Some(settings) => Some(NixSettings::of_pairs(settings)),
            None => None,
        }
    }
}

/// The settings that the installer wants in `nix.conf`: the extra ones, and
/// over them the group of the build users, flakes and the `nix` command, a
/// store that is optimised as it grows, and a prompt that shows the shell.
pub open spec fn wanted_settings(group: Seq<char>, extra: Settings) -> Settings {
    with_setting(
        with_setting(
            with_setting(
                with_setting(extra, "build-users-group"@, group),
                "experimental-features"@,
                "nix-command flakes"@,
            ),
            "auto-optimise-store"@,
            "true"@,
        ),
        "bash-prompt-prefix"@,
        "(nix:$name)\\040"@,
    )
}

impl PlaceNixConfiguration {
    /// Whether the directory cannot be planned.
    pub open spec fn folder_fails(force: bool, facts: HostFacts) -> bool {
        CreateDirectory::fails(None, None, 0o755, force, fact_at(facts, NIX_CONF_FOLDER@))
    }

    /// Whether the configuration cannot be planned: the extra lines are no
    /// configuration, the directory or the file that exists is in the way,
    /// or wanted settings cannot be merged into the file.
    pub open spec fn fails(group: Seq<char>, extra_conf: Seq<Seq<char>>, force: bool, facts: HostFacts) -> bool {
        match extra_settings(extra_conf, facts) {
            None => true,
            Some(extra) => Self::folder_fails(force, facts) || match existing_settings(
                fact_at(facts, NIX_CONF@),
            ) {
                Err(_) => true,
                Ok(existing) => merge_fails(wanted_settings(group, extra), existing),
            },
        }
    }

    /// Whether `node` holds the directory and then the configuration file
    /// with the wanted settings merged in.
    pub open spec fn shaped(
        node: Node,
        group: Seq<char>,
        extra_conf: Seq<Seq<char>>,
        force: bool,
        facts: HostFacts,
    ) -> bool {
        &&& node.action is PlaceNixConfiguration
        &&& node.state == ActionState::Uncompleted
        &&& node.failure is None
        &&& node.children.len() == 2
        &&& CreateDirectory::shaped(
            node.children[0],
            NIX_CONF_FOLDER@,
            None,
            None,
            0o755,
            force,
            fact_at(facts, NIX_CONF_FOLDER@),
        )
        &&& extra_settings(extra_conf, facts) matches Some(extra)
        &&& existing_settings(fact_at(facts, NIX_CONF@)) matches Ok(existing)
        &&& merge_shaped(node.children[1], NIX_CONF@, wanted_settings(group, extra), existing)
    }

    /// Whether `error` is why the configuration cannot be planned: the
    /// failure of the first step that fails.
    pub open spec fn is_error(
        error: PlanningError,
        group: Seq<char>,
        extra_conf: Seq<Seq<char>>,
        force: bool,
        facts: HostFacts,
    ) -> bool {
        match extra_settings(extra_conf, facts) {
            None => error is InvalidSettings,
            Some(extra) => if Self::folder_fails(force, facts) {
                CreateDirectory::is_error(
                    error,
                    NIX_CONF_FOLDER@,
                    None,
                    None,
                    0o755,
                    fact_at(facts, NIX_CONF_FOLDER@)->0,
                )
            } else {
                match existing_settings(fact_at(facts, NIX_CONF@)) {
                    Err(fault) => is_file_error(error, NIX_CONF@, fault),
                    Ok(existing) => {
                        &&& error matches PlanningError::NixConfig(
                            CreateOrMergeNixConfigError::UnmergeableConfig(names, at),
                        )
                        &&& views(names@) == conflicts(existing->0, wanted_settings(group, extra))
                        &&& at@ == NIX_CONF@
                    },
                }
            },
        }
    }

    /// Plans to place the configuration: the group of the build users and
    /// the installer's own settings, over the extra lines.
    pub fn plan(
        nix_build_group_name: String,
        extra_conf: &Vec<String>,
        force: bool,
        facts: &HostFacts,
    ) -> (plan: Result<StatefulAction, PlanningError>)
        ensures
            match plan {
                Ok(tree) => !Self::fails(nix_build_group_name@, views(extra_conf@), force, *facts)
                    && Self::shaped(tree@, nix_build_group_name@, views(extra_conf@), force, *facts),
                Err(error) => Self::fails(nix_build_group_name@, views(extra_conf@), force, *facts)
                    && Self::is_error(error, nix_build_group_name@, views(extra_conf@), force, *facts),
            },
    {
        let text = join_with(extra_conf, "\n");
        let mut pending = if text_names_other_files(text.as_str()) {
            match &facts.extra_settings {
                Some(pairs) => NixSettings::from_pairs(copy_pairs(pairs)),
                None => {
                    return Err(
                        PlanningError::InvalidSettings(
                            String::from_str("the files that the extra configuration names were not read"),
                        ),
                    );
                },
            }
        } else {
            match parse_settings(text.as_str()) {
                Ok(pairs) => NixSettings::from_pairs(pairs),
                Err(error) => {
                    return Err(PlanningError::InvalidSettings(parse_error_text(&error)));
                },
            }
        };
        pending.insert(String::from_str("build-users-group"), nix_build_group_name);
        pending.insert(
            String::from_str("experimental-features"),
            String::from_str("nix-command flakes"),
        );
        pending.insert(String::from_str("auto-optimise-store"), String::from_str("true"));
        pending.insert(String::from_str("bash-prompt-prefix"), String::from_str("(nix:$name)\\040"));
        let folder = String::from_str(NIX_CONF_FOLDER);
        let found_folder = facts.path(&folder);
        let directory = match CreateDirectory::plan(folder, None, None, 0o755, force, found_folder) {
            Ok(node) => node,
            Err(error) => {
                return Err(error);
            },
        };
        let file = String::from_str(NIX_CONF);
        let found_file = facts.path(&file);
        let config = match CreateOrMergeNixConfig::plan(file, pending, found_file) {
            Ok(node) => node,
            Err(error) => {
                return Err(error);
            },
        };
        let mut children: Vec<StatefulAction> = Vec::new();
        children.push(directory);
        children.push(config);
        let tree = StatefulAction::composed(
            Action::PlaceNixConfiguration(PlaceNixConfiguration {  }),
            children,
        );
        assert(tree@.children[0] == children@[0]@);
        assert(tree@.children[1] == children@[1]@);
        Ok(tree)
    }
}

} // verus!
