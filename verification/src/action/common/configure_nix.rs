//! Configuring Nix and its daemon.
use vstd::prelude::*;
use crate::action::common::configure_nix_daemon_service::ConfigureNixDaemonService;
use crate::action::common::configure_shell_profile::ConfigureShellProfile;
use crate::action::common::place_nix_configuration::PlaceNixConfiguration;
use crate::action::run::{leaf, Node};
use crate::action::{Action, StatefulAction};
use crate::error::PlanningError;
use crate::facts::HostFacts;
use crate::settings::CommonSettings;
use crate::state::ActionState;
use crate::text::views;

verus! {

/// Configure Nix and start it.
///
/// The children, in order: the Nix configuration; the shell profiles, where
/// they are to be changed; the registration of the daemon.
#[derive(Debug, PartialEq, Eq)]
pub struct ConfigureNix {
}

impl ConfigureNix {
    /// Whether Nix cannot be configured: its configuration cannot be
    /// planned.
    pub open spec fn fails(settings: CommonSettings, facts: HostFacts) -> bool {
        PlaceNixConfiguration::fails(
            settings.nix_build_group_name@,
            views(settings.extra_conf@),
            settings.force,
            facts,
        )
    }

    /// Whether `node` holds the children in their order.
    pub open spec fn shaped(node: Node, settings: CommonSettings, facts: HostFacts) -> bool {
        let last = if settings.modify_profile {
            2int
        } else {
            1int
        };
        &&& node.action is ConfigureNix
        &&& node.state == ActionState::Uncompleted
        &&& node.failure is None
        &&& node.children.len() == last + 1
        &&& PlaceNixConfiguration::shaped(
            node.children[0],
            settings.nix_build_group_name@,
            views(settings.extra_conf@),
            settings.force,
            facts,
        )
        &&& settings.modify_profile ==> ConfigureShellProfile::shaped(node.children[1], facts)
        &&& node.children[last] == leaf(
            Action::ConfigureNixDaemonService(ConfigureNixDaemonService {  }),
            ActionState::Uncompleted,
        )
    }

    /// Plans to configure Nix.
    pub fn plan(settings: &CommonSettings, facts: &HostFacts) -> (plan: Result<
        StatefulAction,
        PlanningError,
    >)
        ensures
            match plan {
                Ok(tree) => !Self::fails(*settings, *facts) && Self::shaped(tree@, *settings, *facts),
                Err(error) => Self::fails(*settings, *facts) && PlaceNixConfiguration::is_error(
                    error,
                    settings.nix_build_group_name@,
                    views(settings.extra_conf@),
                    settings.force,
                    *facts,
                ),
            },
    {
        let mut children: Vec<StatefulAction> = Vec::new();
        match PlaceNixConfiguration::plan(
            settings.nix_build_group_name.clone(),
            &settings.extra_conf,
            settings.force,
            facts,
        ) {
            Ok(node) => {
                children.push(node);
            },
            Err(error) => {
                return Err(error);
            },
        }
        if settings.modify_profile {
            match ConfigureShellProfile::plan(facts) {
                Ok(node) => {
                    children.push(node);
                },
                Err(error) => {
                    return Err(error);
                },
            }
        }
        match ConfigureNixDaemonService::plan() {
            Ok(node) => {
                children.push(node);
            },
            Err(error) => {
                return Err(error);
            },
        }
        let tree = StatefulAction::composed(Action::ConfigureNix(ConfigureNix {  }), children);
        assert(tree@.children[0] == children@[0]@);
        assert(tree@.children[1] == children@[1]@);
        if settings.modify_profile {
            assert(tree@.children[2] == children@[2]@);
        }
        Ok(tree)
    }
}

} // verus!
