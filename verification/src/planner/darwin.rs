//! The planner for macOS.
use vstd::prelude::*;
use crate::action::common::configure_nix::ConfigureNix;
use crate::action::common::place_nix_configuration::PlaceNixConfiguration;
use crate::action::common::provision_nix::ProvisionNix;
use crate::action::macos::create_nix_volume::CreateNixVolume;
use crate::action::macos::kickstart_launchctl_service::KickstartLaunchctlService;
use crate::action::run::{leaf, nodes};
use crate::action::{Action, StatefulAction};
use crate::error::PlanningError;
use crate::facts::HostFacts;
use crate::host::{host_architecture, host_words, Architecture, OperatingSystem};
use crate::plan::{InstallPlan, VERSION};
use crate::planner::BuiltinPlanner;
use crate::state::ActionState;
use crate::text::views;
use crate::nix_config::plain;
use crate::property_list::{plist_entry, read_entry, Entry, EntryView};
use crate::settings::{optional_word, package_url, switch_word, CommonSettings};

verus! {

/// The launchd name of the Nix daemon.
pub const NIX_DAEMON_SERVICE: &'static str = "system/org.nixos.nix-daemon";

/// A standard macOS multi-user install, on an APFS volume of its own.
#[derive(Debug, PartialEq, Eq)]
pub struct DarwinMulti {
    pub settings: CommonSettings,
    /// Whether the volume is encrypted.
    pub volume_encrypt: bool,
    /// The label of the volume.
    pub volume_label: String,
    /// The disk that takes the volume.
    pub root_disk: Option<String>,
}

impl DarwinMulti {
    /// Whether `planner` is the planner that a host with the given
    /// architecture gets where it is not told otherwise: the one with the
    /// settings that such a host has by default, for a volume labelled `Nix Store`, not encrypted, on `root_disk`; nothing but the failure
    /// that names the host where the architecture is not supported.
    pub open spec fn defaulted(
        planner: Result<DarwinMulti, PlanningError>,
        architecture: Architecture, root_disk: Option<String>,
    ) -> bool {
        match package_url(architecture, OperatingSystem::Darwin) {
            None => planner matches Err(PlanningError::UnsupportedArchitecture(name)) && name@
                == host_words(architecture, OperatingSystem::Darwin),
            Some(url) => {
                &&& planner matches Ok(found)
                &&& found.settings.is_default(OperatingSystem::Darwin, url)
                &&& !found.volume_encrypt
                &&& found.volume_label@ == "Nix Store"@
                &&& found.root_disk == root_disk
            },
        }
    }

    /// The planner with the settings that a host with the given
    /// architecture has where it is not told otherwise.
    pub fn default_for(architecture: Architecture, root_disk: Option<String>) -> (planner: Result<DarwinMulti, PlanningError>)
        ensures
            Self::defaulted(planner, architecture, root_disk),
    {
        match CommonSettings::default_for(architecture, OperatingSystem::Darwin) {
            Ok(settings) => Ok(DarwinMulti { settings, volume_encrypt: false, volume_label: String::from_str("Nix Store"), root_disk }),
            Err(error) => Err(error),
        }
    }

    /// The planner for the host that the program was built for, with the
    /// settings that it has where it is not told otherwise: what
    /// `default_for` makes for the architecture that the host turns out to
    /// have.
    pub fn default(root_disk: Option<String>) -> (planner: Result<DarwinMulti, PlanningError>)
        ensures
            exists|architecture: Architecture| #[trigger]
                Self::defaulted(planner, architecture, root_disk),
    {
        let architecture = host_architecture();
        let planner = Self::default_for(architecture, root_disk);
        assert(Self::defaulted(planner, architecture, root_disk));
        planner
    }

    /// The disk that was read under `ParentWholeDisk`: nothing where no
    /// string was read.
    pub open spec fn parent_disk(entry: Option<EntryView>) -> Option<Seq<char>> {
        match entry {
            Some(EntryView::Text(name)) => Some(name),
            _ => None,
        }
    }

    /// The whole disk that holds the root volume, as `diskutil info -plist /`
    /// names it under `ParentWholeDisk`.
    pub fn root_disk_of(info: &Vec<u8>) -> (disk: Option<String>)
        ensures
            match disk {
                Some(name) => Self::parent_disk(plist_entry(info@, "ParentWholeDisk"@)) == Some(name@),
                None => Self::parent_disk(plist_entry(info@, "ParentWholeDisk"@)) is None,
            },
    {
        match read_entry(info, "ParentWholeDisk") {
            Some(Entry::Text(name)) => Some(name),
            _ => None,
        }
    }

    /// The settings as names with their values in words.
    pub open spec fn described(self) -> Seq<(Seq<char>, Seq<char>)> {
        self.settings.described() + seq![
            ("volume_encrypt"@, switch_word(self.volume_encrypt)),
            ("volume_label"@, self.volume_label@),
            ("root_disk"@, optional_word(self.root_disk)),
        ]
    }

    /// The settings as names with their values in words.
    pub fn settings(&self) -> (pairs: Vec<(String, String)>)
        ensures
            plain(pairs@) == self.described(),
    {
        let mut pairs = self.settings.describe();
        let ghost common = plain(pairs@);
        let encrypt = if self.volume_encrypt {
            String::from_str("true")
        } else {
            String::from_str("false")
        };
        pairs.push((String::from_str("volume_encrypt"), encrypt));
        pairs.push((String::from_str("volume_label"), self.volume_label.clone()));
        let disk = match &self.root_disk {
            Some(found) => found.clone(),
            None => String::new(),
        };
        pairs.push((String::from_str("root_disk"), disk));
        assert(plain(pairs@) =~= self.described());
        pairs
    }

    /// The disk that takes the volume: the one that the planner was told,
    /// or else the one that holds the root volume.
    pub open spec fn disk(self, facts: HostFacts) -> Option<String> {
        match self.root_disk {
            Some(disk) => Some(disk),
            None => facts.root_disk,
        }
    }

    /// Whether nothing can be planned: no disk is known, or one of the
    /// actions cannot be planned.
    pub open spec fn fails(self, facts: HostFacts) -> bool {
        ||| self.disk(facts) is None
        ||| CreateNixVolume::fails(facts)
        ||| ProvisionNix::fails(self.settings, facts)
        ||| ConfigureNix::fails(self.settings, facts)
    }

    /// Whether `error` is why nothing can be planned: that no disk is
    /// known, or else the failure of the first action that cannot be
    /// planned.
    pub open spec fn is_error(self, error: PlanningError, facts: HostFacts) -> bool {
        if self.disk(facts) is None {
            error is InvalidSettings
        } else if CreateNixVolume::fails(facts) {
            CreateNixVolume::is_error(error)
        } else if ProvisionNix::fails(self.settings, facts) {
            ProvisionNix::is_error(error, self.settings, facts)
        } else {
            PlaceNixConfiguration::is_error(
                error,
                self.settings.nix_build_group_name@,
                views(self.settings.extra_conf@),
                self.settings.force,
                facts,
            )
        }
    }

    /// Whether `plan` holds the four actions of a macOS installation in
    /// their order: the volume, which ignores case; Nix itself; its
    /// configuration; the kickstart of the daemon.
    pub open spec fn shaped(self, plan: InstallPlan, facts: HostFacts) -> bool {
        let actions = nodes(plan.actions@);
        &&& plan.version@ == VERSION@
        &&& plan.planner == BuiltinPlanner::DarwinMulti(self)
        &&& actions.len() == 4
        &&& self.disk(facts) matches Some(disk)
        &&& CreateNixVolume::shaped(actions[0], disk@, self.volume_label@, false, self.volume_encrypt)
        &&& ProvisionNix::shaped(actions[1], self.settings, facts)
        &&& ConfigureNix::shaped(actions[2], self.settings, facts)
        &&& actions[3].action matches Action::KickstartLaunchctlService(kickstart)
        &&& kickstart.unit@ == NIX_DAEMON_SERVICE@
        &&& actions[3] == leaf(actions[3].action, ActionState::Uncompleted)
    }

    /// Plans the installation on a host of which `facts` are known.
    pub fn plan(self, facts: &HostFacts) -> (plan: Result<InstallPlan, PlanningError>)
        ensures
            match plan {
                Ok(found) => !self.fails(*facts) && self.shaped(found, *facts),
                Err(error) => self.fails(*facts) && self.is_error(error, *facts),
            },
    {
        let disk = match &self.root_disk {
            Some(disk) => disk.clone(),
            None => match &facts.root_disk {
                Some(disk) => disk.clone(),
                None => {
                    return Err(
                        PlanningError::InvalidSettings(
                            String::from_str("no disk is known to take the Nix volume"),
                        ),
                    );
                },
            },
        };
        let mut actions: Vec<StatefulAction> = Vec::new();
        match CreateNixVolume::plan(disk, self.volume_label.clone(), false, self.volume_encrypt, facts) {
            Ok(node) => actions.push(node),
            Err(error) => {
                return Err(error);
            },
        }
        match ProvisionNix::plan(&self.settings, facts) {
            Ok(node) => actions.push(node),
            Err(error) => {
                return Err(error);
            },
        }
        match ConfigureNix::plan(&self.settings, facts) {
            Ok(node) => actions.push(node),
            Err(error) => {
                return Err(error);
            },
        }
        match KickstartLaunchctlService::plan(String::from_str(NIX_DAEMON_SERVICE)) {
            Ok(node) => actions.push(node),
            Err(error) => {
                return Err(error);
            },
        }
        Ok(
            InstallPlan {
                version: String::from_str(VERSION),
                planner: BuiltinPlanner::DarwinMulti(self),
                actions,
            },
        )
    }
}

} // verus!
