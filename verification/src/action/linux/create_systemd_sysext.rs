//! Creating a systemd system extension that carries `/nix`.
use vstd::prelude::*;
use crate::action::base::create_directory::CreateDirectory;
use crate::action::base::create_file::CreateFile;
use crate::action::common::place_nix_configuration::fact_at;
use crate::action::linux::start_systemd_unit::StartSystemdUnit;
use crate::action::run::{leaf, Node};
use crate::action::{Action, StatefulAction};
use crate::error::PlanningError;
use crate::facts::HostFacts;
use crate::state::ActionState;

verus! {

/// What the release file of the extension holds.
pub const EXTENSION_RELEASE: &'static str = "SYSEXT_LEVEL=1.0\nID=steamos\n";

/// The unit that merges the extensions into the system.
pub const SYSEXT_UNIT: &'static str = "systemd-sysext.service";

/// Create a systemd sysext at the given location, so that `/nix` can be
/// placed on a host whose root is read-only.
///
/// The children, in order: the directory of the release file; the release
/// file; the unit that merges the extensions.
#[derive(Debug, PartialEq, Eq)]
pub struct CreateSystemdSysext {
    pub destination: String,
}

/// The directory of the release file of the extension at `destination`.
pub open spec fn release_folder(destination: Seq<char>) -> Seq<char> {
    destination + "/usr/lib/extension-release.d"@
}

/// The release file of the extension at `destination`.
pub open spec fn release_file(destination: Seq<char>) -> Seq<char> {
    release_folder(destination) + "/extension-release.nix"@
}

impl CreateSystemdSysext {
    /// Whether the directory of the release file cannot be planned.
    pub open spec fn folder_fails(destination: Seq<char>, facts: HostFacts) -> bool {
        CreateDirectory::fails(None, None, 0o755, false, fact_at(facts, release_folder(destination)))
    }

    /// Whether the extension cannot be planned: something else than the
    /// wanted directory exists, or the release file exists already.
    pub open spec fn fails(destination: Seq<char>, facts: HostFacts) -> bool {
        Self::folder_fails(destination, facts) || facts.place_of(release_file(destination)) is Some
    }

    /// Whether `node` holds the children in their order.
    pub open spec fn shaped(node: Node, destination: Seq<char>, facts: HostFacts) -> bool {
        &&& node.action matches Action::CreateSystemdSysext(action)
        &&& action.destination@ == destination
        &&& node.state == ActionState::Uncompleted
        &&& node.failure is None
        &&& node.children.len() == 3
        &&& CreateDirectory::shaped(
            node.children[0],
            release_folder(destination),
            None,
            None,
            0o755,
            false,
            fact_at(facts, release_folder(destination)),
        )
        &&& node.children[1].action matches Action::CreateFile(file)
        &&& file.path@ == release_file(destination)
        &&& file.user is None
        &&& file.group is None
        &&& file.mode == Some(0o644u32)
        &&& file.buf@ == EXTENSION_RELEASE@
        &&& !file.force
        &&& node.children[1] == leaf(node.children[1].action, ActionState::Uncompleted)
        &&& node.children[2].action matches Action::StartSystemdUnit(unit)
        &&& unit.unit@ == SYSEXT_UNIT@
        &&& node.children[2] == leaf(
            node.children[2].action,
            if facts.enabled(SYSEXT_UNIT@) {
                ActionState::Completed
            } else {
                ActionState::Uncompleted
            },
        )
    }

    /// Whether `error` is why the extension cannot be planned.
    pub open spec fn is_error(error: PlanningError, destination: Seq<char>, facts: HostFacts) -> bool {
        if Self::folder_fails(destination, facts) {
            CreateDirectory::is_error(
                error,
                release_folder(destination),
                None,
                None,
                0o755,
                fact_at(facts, release_folder(destination))->0,
            )
        } else {
            error matches PlanningError::PathExists(path) && path@ == release_file(destination)
        }
    }

    /// Plans the extension at `destination`.
    pub fn plan(destination: String, facts: &HostFacts) -> (plan: Result<StatefulAction, PlanningError>)
        ensures
            match plan {
                Ok(tree) => !Self::fails(destination@, *facts) && Self::shaped(
                    tree@,
                    destination@,
                    *facts,
                ),
                Err(error) => Self::fails(destination@, *facts) && Self::is_error(
                    error,
                    destination@,
                    *facts,
                ),
            },
    {
        let folder = destination.clone().concat("/usr/lib/extension-release.d");
        let file = folder.clone().concat("/extension-release.nix");
        let found = facts.path(&folder);
        let directory = match CreateDirectory::plan(folder, None, None, 0o755, false, found) {
            Ok(node) => node,
            Err(error) => {
                return Err(error);
            },
        };
        let exists = facts.path(&file).is_some();
        let release = match CreateFile::plan(
            file,
            None,
            None,
            Some(0o644),
            String::from_str(EXTENSION_RELEASE),
            false,
            exists,
        ) {
            Ok(node) => node,
            Err(error) => {
                return Err(error);
            },
        };
        let name = String::from_str(SYSEXT_UNIT);
        let enabled = facts.unit_enabled(&name);
        let unit = match StartSystemdUnit::plan(name, enabled) {
            Ok(node) => node,
            Err(error) => {
                return Err(error);
            },
        };
        let mut children: Vec<StatefulAction> = Vec::new();
        children.push(directory);
        children.push(release);
        children.push(unit);
        let tree = StatefulAction::composed(
            Action::CreateSystemdSysext(CreateSystemdSysext { destination }),
            children,
        );
        assert(tree@.children[0] == children@[0]@);
        assert(tree@.children[1] == children@[1]@);
        assert(tree@.children[2] == children@[2]@);
        Ok(tree)
    }
}

} // verus!
