//! Bringing Nix itself onto the host.
use vstd::prelude::*;
use crate::action::base::fetch_and_unpack_nix::{known_scheme, FetchAndUnpackNix};
use crate::action::base::move_unpacked_nix::MoveUnpackedNix;
use crate::action::base::setup_default_profile::SetupDefaultProfile;
use crate::action::common::create_users_and_groups::CreateUsersAndGroups;
use crate::action::common::place_channel_configuration::{
    channel_names, channel_views, copy_channels, PlaceChannelConfiguration,
};
use crate::action::run::{leaf, Node};
use crate::action::{Action, StatefulAction};
use crate::error::PlanningError;
use crate::facts::HostFacts;
use crate::settings::CommonSettings;
use crate::state::ActionState;
use crate::text::views;

verus! {

/// Where the Nix archive is unpacked before the store is moved into place.
pub const SCRATCH: &'static str = "/nix/temp-install-dir";

/// Place Nix and its requirements onto the target.
///
/// The children, in order: the build users and their group; fetching and
/// unpacking the archive; moving the store into place; the default profile;
/// the channel configuration.
#[derive(Debug, PartialEq, Eq)]
pub struct ProvisionNix {
}

impl ProvisionNix {
    /// Whether Nix cannot be provisioned: one of the children cannot be
    /// planned.
    pub open spec fn fails(settings: CommonSettings, facts: HostFacts) -> bool {
        ||| CreateUsersAndGroups::fails(settings, facts)
        ||| !known_scheme(settings.nix_package_url@)
        ||| PlaceChannelConfiguration::fails(settings.force, facts)
    }

    /// Whether `node` holds the five children in their order.
    pub open spec fn shaped(node: Node, settings: CommonSettings, facts: HostFacts) -> bool {
        &&& node.action is ProvisionNix
        &&& node.state == ActionState::Uncompleted
        &&& node.failure is None
        &&& node.children.len() == 5
        &&& CreateUsersAndGroups::shaped(node.children[0], settings, facts)
        &&& node.children[1].action matches Action::FetchAndUnpackNix(fetch)
        &&& fetch.url@ == settings.nix_package_url@
        &&& fetch.dest@ == SCRATCH@
        &&& node.children[1] == leaf(node.children[1].action, ActionState::Uncompleted)
        &&& node.children[2].action matches Action::MoveUnpackedNix(moving)
        &&& moving.src@ == SCRATCH@
        &&& node.children[2] == leaf(node.children[2].action, ActionState::Uncompleted)
        &&& node.children[3].action matches Action::SetupDefaultProfile(profile)
        &&& views(profile.channels@) == channel_views(settings.channels@).map_values(
            |c: (Seq<char>, Seq<char>)| c.0,
        )
        &&& node.children[3] == leaf(node.children[3].action, ActionState::Uncompleted)
        &&& PlaceChannelConfiguration::shaped(
            node.children[4],
            channel_views(settings.channels@),
            settings.force,
            facts,
        )
    }

    /// Whether `error` is why Nix cannot be provisioned: the failure of the
    /// first child that cannot be planned.
    pub open spec fn is_error(error: PlanningError, settings: CommonSettings, facts: HostFacts) -> bool {
        if CreateUsersAndGroups::fails(settings, facts) {
            CreateUsersAndGroups::is_error(error, settings, facts)
        } else if !known_scheme(settings.nix_package_url@) {
            error matches PlanningError::UnknownUrlScheme(url) && url@ == settings.nix_package_url@
        } else {
            PlaceChannelConfiguration::is_error(error, facts)
        }
    }

    /// Plans to provision Nix.
    pub fn plan(settings: &CommonSettings, facts: &HostFacts) -> (plan: Result<
        StatefulAction,
        PlanningError,
    >)
        ensures
            match plan {
                Ok(tree) => !Self::fails(*settings, *facts) && Self::shaped(tree@, *settings, *facts),
                Err(error) => Self::fails(*settings, *facts) && Self::is_error(
                    error,
                    *settings,
                    *facts,
                ),
            },
    {
        let users = match CreateUsersAndGroups::plan(settings, facts) {
            Ok(node) => node,
            Err(error) => {
                return Err(error);
            },
        };
        let fetch = match FetchAndUnpackNix::plan(
            settings.nix_package_url.clone(),
            String::from_str(SCRATCH),
        ) {
            Ok(node) => node,
            Err(error) => {
                return Err(error);
            },
        };
        let moving = match MoveUnpackedNix::plan(String::from_str(SCRATCH)) {
            Ok(node) => node,
            Err(error) => {
                return Err(error);
            },
        };
        let profile = match SetupDefaultProfile::plan(channel_names(&settings.channels)) {
            Ok(node) => node,
            Err(error) => {
                return Err(error);
            },
        };
        let channels = match PlaceChannelConfiguration::plan(
            copy_channels(&settings.channels),
            settings.force,
            facts,
        ) {
            Ok(node) => node,
            Err(error) => {
                return Err(error);
            },
        };
        let mut children: Vec<StatefulAction> = Vec::new();
        children.push(users);
        children.push(fetch);
        children.push(moving);
        children.push(profile);
        children.push(channels);
        let tree = StatefulAction::composed(Action::ProvisionNix(ProvisionNix {  }), children);
        assert(tree@.children[0] == children@[0]@);
        assert(tree@.children[1] == children@[1]@);
        assert(tree@.children[2] == children@[2]@);
        assert(tree@.children[3] == children@[3]@);
        assert(tree@.children[4] == children@[4]@);
        Ok(tree)
    }
}

} // verus!
