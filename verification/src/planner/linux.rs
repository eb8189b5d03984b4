//! The planner for Linux.
use vstd::prelude::*;
use crate::action::base::create_directory::CreateDirectory;
use crate::action::common::configure_nix::ConfigureNix;
use crate::action::common::place_nix_configuration::{fact_at, PlaceNixConfiguration};
use crate::action::common::provision_nix::ProvisionNix;
use crate::action::linux::start_systemd_unit::StartSystemdUnit;
use crate::action::run::{leaf, nodes};
use crate::action::{Action, StatefulAction};
use crate::error::PlanningError;
use crate::facts::HostFacts;
use crate::host::{host_architecture, host_words, Architecture, OperatingSystem};
use crate::nix_config::plain;
use crate::plan::{InstallPlan, VERSION};
use crate::planner::BuiltinPlanner;
use crate::settings::{package_url, CommonSettings};
use crate::state::ActionState;
use crate::text::views;

verus! {

/// The socket of the Nix daemon.
pub const NIX_DAEMON_SOCKET: &'static str = "nix-daemon.socket";

/// A standard Linux multi-user install.
#[derive(Debug, PartialEq, Eq)]
pub struct LinuxMulti {
    pub settings: CommonSettings,
}

impl LinuxMulti {
    /// Whether `planner` is the planner that a host with the given
    /// architecture gets where it is not told otherwise: the one with the
    /// settings that such a host has by default; nothing but the failure
    /// that names the host where the architecture is not supported.
    pub open spec fn defaulted(
        planner: Result<LinuxMulti, PlanningError>,
        architecture: Architecture,
    ) -> bool {
        match package_url(architecture, OperatingSystem::Linux) {
            None => planner matches Err(PlanningError::UnsupportedArchitecture(name)) && name@
                == host_words(architecture, OperatingSystem::Linux),
            Some(url) => {
                &&& planner matches Ok(found)
                &&& found.settings.is_default(OperatingSystem::Linux, url)
            },
        }
    }

    /// The planner with the settings that a host with the given
    /// architecture has where it is not told otherwise.
    pub fn default_for(architecture: Architecture) -> (planner: Result<LinuxMulti, PlanningError>)
        ensures
            Self::defaulted(planner, architecture),
    {
        match CommonSettings::default_for(architecture, OperatingSystem::Linux) {
            Ok(settings) => Ok(LinuxMulti { settings }),
            Err(error) => Err(error),
        }
    }

    /// The planner for the host that the program was built for, with the
    /// settings that it has where it is not told otherwise: what
    /// `default_for` makes for the architecture that the host turns out to
    /// have.
    pub fn default() -> (planner: Result<LinuxMulti, PlanningError>)
        ensures
            exists|architecture: Architecture| #[trigger]
                Self::defaulted(planner, architecture),
    {
        let architecture = host_architecture();
        let planner = Self::default_for(architecture);
        assert(Self::defaulted(planner, architecture));
        planner
    }

    /// The settings as names with their values in words.
    pub open spec fn described(self) -> Seq<(Seq<char>, Seq<char>)> {
        self.settings.described()
    }

    /// The settings as names with their values in words.
    pub fn settings(&self) -> (pairs: Vec<(String, String)>)
        ensures
            plain(pairs@) == self.described(),
    {
        self.settings.describe()
    }

    /// Whether nothing can be planned: the host is NixOS, or one of the
    /// actions cannot be planned.
    pub open spec fn fails(self, facts: HostFacts) -> bool {
        ||| facts.nixos
        ||| ProvisionNix::fails(self.settings, facts)
        ||| ConfigureNix::fails(self.settings, facts)
    }

    /// Whether `error` is why nothing can be planned: that the host is
    /// NixOS, or else the failure of the first action that cannot be
    /// planned.
    pub open spec fn is_error(self, error: PlanningError, facts: HostFacts) -> bool {
        if facts.nixos {
            error == PlanningError::NixOs
        } else if ProvisionNix::fails(self.settings, facts) {
            ProvisionNix::is_error(error, self.settings, facts)
        } else {
            PlaceNixConfiguration::is_error(
                error,
                self.settings.nix_build_group_name@,
                views(self.settings.extra_conf@),
                self.settings.force,
                facts,
            )
        }
    }

    /// Whether `plan` holds the four actions of a Linux installation in
    /// their order: the directory `/nix`, owned by `root`; Nix itself; its configuration; the
    /// socket of the daemon, which is done already where it is enabled.
    pub open spec fn shaped(self, plan: InstallPlan, facts: HostFacts) -> bool {
        let actions = nodes(plan.actions@);
        &&& plan.version@ == VERSION@
        &&& plan.planner == BuiltinPlanner::LinuxMulti(self)
        &&& actions.len() == 4
        &&& CreateDirectory::shaped(actions[0], "/nix"@,
            Some("root"@),
            Some("root"@),
            0o755,
            true,
            fact_at(facts, "/nix"@),
        )
        &&& ProvisionNix::shaped(actions[1], self.settings, facts)
        &&& ConfigureNix::shaped(actions[2], self.settings, facts)
        &&& actions[3].action matches Action::StartSystemdUnit(unit)
        &&& unit.unit@ == NIX_DAEMON_SOCKET@
        &&& actions[3] == leaf(
            actions[3].action,
            if facts.enabled(NIX_DAEMON_SOCKET@) {
                ActionState::Completed
            } else {
                ActionState::Uncompleted
            },
        )
    }

    /// Plans the installation on a host of which `facts` are known.
    pub fn plan(self, facts: &HostFacts) -> (plan: Result<InstallPlan, PlanningError>)
        ensures
            match plan {
                Ok(found) => !self.fails(*facts) && self.shaped(found, *facts),
                Err(error) => self.fails(*facts) && self.is_error(error, *facts),
            },
    {
        if facts.nixos {
            return Err(PlanningError::NixOs);
        }
        let mut actions: Vec<StatefulAction> = Vec::new();
        let root = String::from_str("/nix");
        let found = facts.path(&root);
        match CreateDirectory::plan(
            root,
            Some(String::from_str("root")),
            Some(String::from_str("root")),
            0o755,
            true,
            found,
        ) {
            Ok(node) => actions.push(node),
            Err(error) => {
                return Err(error);
            },
        }
        match ProvisionNix::plan(&self.settings, facts) {
            Ok(node) => actions.push(node),
            Err(error) => {
                return Err(error);
            },
        }
        match ConfigureNix::plan(&self.settings, facts) {
            Ok(node) => actions.push(node),
            Err(error) => {
                return Err(error);
            },
        }
        let socket = String::from_str(NIX_DAEMON_SOCKET);
        let enabled = facts.unit_enabled(&socket);
        match StartSystemdUnit::plan(socket, enabled) {
            Ok(node) => actions.push(node),
            Err(error) => {
                return Err(error);
            },
        }
        let plan = InstallPlan {
            version: String::from_str(VERSION),
            planner: BuiltinPlanner::LinuxMulti(self),
            actions,
        };
        Ok(plan)
    }
}

} // verus!
