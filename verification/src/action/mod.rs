//! Actions: reversible units of work, alone or composed into trees.
pub mod base;
pub mod common;
pub mod describe;
pub mod linux;
pub mod macos;
pub mod run;

use vstd::prelude::*;
use crate::error::ActionError;
use crate::host::OperatingSystem;
use crate::state::{ActionState, Direction};
use crate::text::text_is;
pub use base::create_directory::CreateDirectory;
pub use base::create_file::CreateFile;
pub use base::create_group::CreateGroup;
pub use base::create_or_insert_into_file::CreateOrInsertIntoFile;
pub use base::create_or_merge_nix_config::CreateOrMergeNixConfig;
pub use base::create_user::CreateUser;
pub use base::fetch_and_unpack_nix::FetchAndUnpackNix;
pub use base::move_unpacked_nix::MoveUnpackedNix;
pub use base::setup_default_profile::SetupDefaultProfile;
pub use common::configure_nix::ConfigureNix;
pub use common::configure_nix_daemon_service::ConfigureNixDaemonService;
pub use common::configure_shell_profile::ConfigureShellProfile;
pub use common::create_users_and_groups::CreateUsersAndGroups;
pub use common::place_channel_configuration::PlaceChannelConfiguration;
pub use common::place_nix_configuration::PlaceNixConfiguration;
pub use common::provision_nix::ProvisionNix;
pub use linux::create_systemd_sysext::CreateSystemdSysext;
pub use linux::start_systemd_unit::StartSystemdUnit;
pub use macos::bootstrap_launchctl_service::BootstrapLaunchctlService;
pub use macos::create_apfs_volume::CreateApfsVolume;
pub use macos::create_fstab_entry::CreateFstabEntry;
pub use macos::create_nix_volume::CreateNixVolume;
pub use macos::create_synthetic_objects::CreateSyntheticObjects;
pub use macos::enable_ownership::EnableOwnership;
pub use macos::encrypt_apfs_volume::EncryptApfsVolume;
pub use macos::kickstart_launchctl_service::KickstartLaunchctlService;
pub use macos::unmount_apfs_volume::UnmountApfsVolume;
pub use macos::wait_for_volume::WaitForVolume;

verus! {

/// What an action does, with the settings that it was planned with.
#[derive(Debug, PartialEq, Eq)]
pub enum Action {
    CreateDirectory(CreateDirectory),
    CreateFile(CreateFile),
    CreateGroup(CreateGroup),
    CreateOrInsertIntoFile(CreateOrInsertIntoFile),
    CreateOrMergeNixConfig(CreateOrMergeNixConfig),
    CreateUser(CreateUser),
    FetchAndUnpackNix(FetchAndUnpackNix),
    MoveUnpackedNix(MoveUnpackedNix),
    SetupDefaultProfile(SetupDefaultProfile),
    ConfigureNix(ConfigureNix),
    ConfigureNixDaemonService(ConfigureNixDaemonService),
    ConfigureShellProfile(ConfigureShellProfile),
    CreateUsersAndGroups(CreateUsersAndGroups),
    PlaceChannelConfiguration(PlaceChannelConfiguration),
    PlaceNixConfiguration(PlaceNixConfiguration),
    ProvisionNix(ProvisionNix),
    CreateSystemdSysext(CreateSystemdSysext),
    StartSystemdUnit(StartSystemdUnit),
    BootstrapLaunchctlService(BootstrapLaunchctlService),
    CreateApfsVolume(CreateApfsVolume),
    CreateFstabEntry(CreateFstabEntry),
    CreateNixVolume(CreateNixVolume),
    CreateSyntheticObjects(CreateSyntheticObjects),
    EnableOwnership(EnableOwnership),
    EncryptApfsVolume(EncryptApfsVolume),
    KickstartLaunchctlService(KickstartLaunchctlService),
    UnmountApfsVolume(UnmountApfsVolume),
    WaitForVolume(WaitForVolume),
}

/// The kinds of action. Each kind has a name under which its actions are
/// written to a receipt; the names never change.
#[derive(Clone, Copy, PartialEq, Eq, Structural, Debug)]
pub enum ActionTag {
    CreateDirectory,
    CreateFile,
    CreateGroup,
    CreateOrInsertIntoFile,
    CreateOrMergeNixConfig,
    CreateUser,
    FetchAndUnpackNix,
    MoveUnpackedNix,
    SetupDefaultProfile,
    ConfigureNix,
    ConfigureNixDaemonService,
    ConfigureShellProfile,
    CreateUsersAndGroups,
    PlaceChannelConfiguration,
    PlaceNixConfiguration,
    ProvisionNix,
    CreateSystemdSysext,
    StartSystemdUnit,
    BootstrapLaunchctlService,
    CreateApfsVolume,
    CreateFstabEntry,
    CreateNixVolume,
    CreateSyntheticObjects,
    EnableOwnership,
    EncryptApfsVolume,
    KickstartLaunchctlService,
    UnmountApfsVolume,
    WaitForVolume,
}

/// How a composite treats the failure of one of its children.
#[derive(Clone, Copy, PartialEq, Eq, Structural, Debug)]
pub enum ChildMode {
    /// The failure ends the composite at once.
    Strict,
    /// The failure is passed over.
    Tolerant,
    /// The failure is kept while the neighbours that run in parallel with
    /// the child are still tried, and reported with theirs.
    Gather,
}

impl ActionTag {
    /// The name of the kind in a receipt.
    pub open spec fn word(self) -> Seq<char> {
        match self {
            ActionTag::CreateDirectory => "create_directory"@,
            ActionTag::CreateFile => "create_file"@,
            ActionTag::CreateGroup => "create_group"@,
            ActionTag::CreateOrInsertIntoFile => "create_or_insert_into_file"@,
            ActionTag::CreateOrMergeNixConfig => "create_or_merge_nix_config"@,
            ActionTag::CreateUser => "create_user"@,
            ActionTag::FetchAndUnpackNix => "fetch_and_unpack_nix"@,
            ActionTag::MoveUnpackedNix => "mount_unpacked_nix"@,
            ActionTag::SetupDefaultProfile => "setup_default_profile"@,
            ActionTag::ConfigureNix => "configure_nix"@,
            ActionTag::ConfigureNixDaemonService => "configure_nix_daemon"@,
            ActionTag::ConfigureShellProfile => "configure_shell_profile"@,
            ActionTag::CreateUsersAndGroups => "create_users_and_group"@,
            ActionTag::PlaceChannelConfiguration => "place_channel_configuration"@,
            ActionTag::PlaceNixConfiguration => "place_nix_configuration"@,
            ActionTag::ProvisionNix => "provision_nix"@,
            ActionTag::CreateSystemdSysext => "create_systemd_sysext"@,
            ActionTag::StartSystemdUnit => "start_systemd_unit"@,
            ActionTag::BootstrapLaunchctlService => "bootstrap_launchctl_service"@,
            ActionTag::CreateApfsVolume => "create_volume"@,
            ActionTag::CreateFstabEntry => "create_fstab_entry"@,
            ActionTag::CreateNixVolume => "create_apfs_volume"@,
            ActionTag::CreateSyntheticObjects => "create_synthetic_objects"@,
            ActionTag::EnableOwnership => "enable_ownership"@,
            ActionTag::EncryptApfsVolume => "encrypt_volume"@,
            ActionTag::KickstartLaunchctlService => "kickstart_launchctl_service"@,
            ActionTag::UnmountApfsVolume => "unmount_volume"@,
            ActionTag::WaitForVolume => "wait_for_volume"@,
        }
    }

    /// The kind that a receipt name stands for.
    pub open spec fn of_word(word: Seq<char>) -> Option<ActionTag> {
        if word == "create_directory"@ {
            Some(ActionTag::CreateDirectory)
        } else if word == "create_file"@ {
            Some(ActionTag::CreateFile)
        } else if word == "create_group"@ {
            Some(ActionTag::CreateGroup)
        } else if word == "create_or_insert_into_file"@ {
            Some(ActionTag::CreateOrInsertIntoFile)
        } else if word == "create_or_merge_nix_config"@ {
            Some(ActionTag::CreateOrMergeNixConfig)
        } else if word == "create_user"@ {
            Some(ActionTag::CreateUser)
        } else if word == "fetch_and_unpack_nix"@ {
            Some(ActionTag::FetchAndUnpackNix)
        } else if word == "mount_unpacked_nix"@ {
            Some(ActionTag::MoveUnpackedNix)
        } else if word == "setup_default_profile"@ {
            Some(ActionTag::SetupDefaultProfile)
        } else if word == "configure_nix"@ {
            Some(ActionTag::ConfigureNix)
        } else if word == "configure_nix_daemon"@ {
            Some(ActionTag::ConfigureNixDaemonService)
        } else if word == "configure_shell_profile"@ {
            Some(ActionTag::ConfigureShellProfile)
        } else if word == "create_users_and_group"@ {
            Some(ActionTag::CreateUsersAndGroups)
        } else if word == "place_channel_configuration"@ {
            Some(ActionTag::PlaceChannelConfiguration)
        } else if word == "place_nix_configuration"@ {
            Some(ActionTag::PlaceNixConfiguration)
        } else if word == "provision_nix"@ {
            Some(ActionTag::ProvisionNix)
        } else if word == "create_systemd_sysext"@ {
            Some(ActionTag::CreateSystemdSysext)
        } else if word == "start_systemd_unit"@ {
            Some(ActionTag::StartSystemdUnit)
        } else if word == "bootstrap_launchctl_service"@ {
            Some(ActionTag::BootstrapLaunchctlService)
        } else if word == "create_volume"@ {
            Some(ActionTag::CreateApfsVolume)
        } else if word == "create_fstab_entry"@ {
            Some(ActionTag::CreateFstabEntry)
        } else if word == "create_apfs_volume"@ {
            Some(ActionTag::CreateNixVolume)
        } else if word == "create_synthetic_objects"@ {
            Some(ActionTag::CreateSyntheticObjects)
        } else if word == "enable_ownership"@ {
            Some(ActionTag::EnableOwnership)
        } else if word == "encrypt_volume"@ {
            Some(ActionTag::EncryptApfsVolume)
        } else if word == "kickstart_launchctl_service"@ {
            Some(ActionTag::KickstartLaunchctlService)
        } else if word == "unmount_volume"@ {
            Some(ActionTag::UnmountApfsVolume)
        } else if word == "wait_for_volume"@ {
            Some(ActionTag::WaitForVolume)
        } else {
            None
        }
    }

    /// Whether actions of this kind own children.
    pub open spec fn composite(self) -> bool {
        match self {
            ActionTag::ConfigureNix | ActionTag::ConfigureShellProfile | ActionTag::CreateUsersAndGroups | ActionTag::PlaceChannelConfiguration | ActionTag::PlaceNixConfiguration | ActionTag::ProvisionNix | ActionTag::CreateSystemdSysext | ActionTag::CreateNixVolume => true,
            _ => false,
        }
    }

    /// The name of the kind in a receipt.
    pub fn name(&self) -> (word: &'static str)
        ensures
            word@ == self.word(),
    {
        match self {
            ActionTag::CreateDirectory => "create_directory",
            ActionTag::CreateFile => "create_file",
            ActionTag::CreateGroup => "create_group",
            ActionTag::CreateOrInsertIntoFile => "create_or_insert_into_file",
            ActionTag::CreateOrMergeNixConfig => "create_or_merge_nix_config",
            ActionTag::CreateUser => "create_user",
            ActionTag::FetchAndUnpackNix => "fetch_and_unpack_nix",
            ActionTag::MoveUnpackedNix => "mount_unpacked_nix",
            ActionTag::SetupDefaultProfile => "setup_default_profile",
            ActionTag::ConfigureNix => "configure_nix",
            ActionTag::ConfigureNixDaemonService => "configure_nix_daemon",
            ActionTag::ConfigureShellProfile => "configure_shell_profile",
            ActionTag::CreateUsersAndGroups => "create_users_and_group",
            ActionTag::PlaceChannelConfiguration => "place_channel_configuration",
            ActionTag::PlaceNixConfiguration => "place_nix_configuration",
            ActionTag::ProvisionNix => "provision_nix",
            ActionTag::CreateSystemdSysext => "create_systemd_sysext",
            ActionTag::StartSystemdUnit => "start_systemd_unit",
            ActionTag::BootstrapLaunchctlService => "bootstrap_launchctl_service",
            ActionTag::CreateApfsVolume => "create_volume",
            ActionTag::CreateFstabEntry => "create_fstab_entry",
            ActionTag::CreateNixVolume => "create_apfs_volume",
            ActionTag::CreateSyntheticObjects => "create_synthetic_objects",
            ActionTag::EnableOwnership => "enable_ownership",
            ActionTag::EncryptApfsVolume => "encrypt_volume",
            ActionTag::KickstartLaunchctlService => "kickstart_launchctl_service",
            ActionTag::UnmountApfsVolume => "unmount_volume",
            ActionTag::WaitForVolume => "wait_for_volume",
        }
    }

    /// The kind that a receipt name stands for, if it names one.
    pub fn from_name(word: &String) -> (tag: Option<ActionTag>)
        ensures
            tag == Self::of_word(word@),
    {
        if text_is(word, "create_directory") {
            Some(ActionTag::CreateDirectory)
        } else if text_is(word, "create_file") {
            Some(ActionTag::CreateFile)
        } else if text_is(word, "create_group") {
            Some(ActionTag::CreateGroup)
        } else if text_is(word, "create_or_insert_into_file") {
            Some(ActionTag::CreateOrInsertIntoFile)
        } else if text_is(word, "create_or_merge_nix_config") {
            Some(ActionTag::CreateOrMergeNixConfig)
        } else if text_is(word, "create_user") {
            Some(ActionTag::CreateUser)
        } else if text_is(word, "fetch_and_unpack_nix") {
            Some(ActionTag::FetchAndUnpackNix)
        } else if text_is(word, "mount_unpacked_nix") {
            Some(ActionTag::MoveUnpackedNix)
        } else if text_is(word, "setup_default_profile") {
            Some(ActionTag::SetupDefaultProfile)
        } else if text_is(word, "configure_nix") {
            Some(ActionTag::ConfigureNix)
        } else if text_is(word, "configure_nix_daemon") {
            Some(ActionTag::ConfigureNixDaemonService)
        } else if text_is(word, "configure_shell_profile") {
            Some(ActionTag::ConfigureShellProfile)
        } else if text_is(word, "create_users_and_group") {
            Some(ActionTag::CreateUsersAndGroups)
        } else if text_is(word, "place_channel_configuration") {
            Some(ActionTag::PlaceChannelConfiguration)
        } else if text_is(word, "place_nix_configuration") {
            Some(ActionTag::PlaceNixConfiguration)
        } else if text_is(word, "provision_nix") {
            Some(ActionTag::ProvisionNix)
        } else if text_is(word, "create_systemd_sysext") {
            Some(ActionTag::CreateSystemdSysext)
        } else if text_is(word, "start_systemd_unit") {
            Some(ActionTag::StartSystemdUnit)
        } else if text_is(word, "bootstrap_launchctl_service") {
            Some(ActionTag::BootstrapLaunchctlService)
        } else if text_is(word, "create_volume") {
            Some(ActionTag::CreateApfsVolume)
        } else if text_is(word, "create_fstab_entry") {
            Some(ActionTag::CreateFstabEntry)
        } else if text_is(word, "create_apfs_volume") {
            Some(ActionTag::CreateNixVolume)
        } else if text_is(word, "create_synthetic_objects") {
            Some(ActionTag::CreateSyntheticObjects)
        } else if text_is(word, "enable_ownership") {
            Some(ActionTag::EnableOwnership)
        } else if text_is(word, "encrypt_volume") {
            Some(ActionTag::EncryptApfsVolume)
        } else if text_is(word, "kickstart_launchctl_service") {
            Some(ActionTag::KickstartLaunchctlService)
        } else if text_is(word, "unmount_volume") {
            Some(ActionTag::UnmountApfsVolume)
        } else if text_is(word, "wait_for_volume") {
            Some(ActionTag::WaitForVolume)
        } else {
            None
        }
    }
}

impl Action {
    /// The kind of the action.
    pub open spec fn tag(self) -> ActionTag {
        match self {
            Action::CreateDirectory(_) => ActionTag::CreateDirectory,
            Action::CreateFile(_) => ActionTag::CreateFile,
            Action::CreateGroup(_) => ActionTag::CreateGroup,
            Action::CreateOrInsertIntoFile(_) => ActionTag::CreateOrInsertIntoFile,
            Action::CreateOrMergeNixConfig(_) => ActionTag::CreateOrMergeNixConfig,
            Action::CreateUser(_) => ActionTag::CreateUser,
            Action::FetchAndUnpackNix(_) => ActionTag::FetchAndUnpackNix,
            Action::MoveUnpackedNix(_) => ActionTag::MoveUnpackedNix,
            Action::SetupDefaultProfile(_) => ActionTag::SetupDefaultProfile,
            Action::ConfigureNix(_) => ActionTag::ConfigureNix,
            Action::ConfigureNixDaemonService(_) => ActionTag::ConfigureNixDaemonService,
            Action::ConfigureShellProfile(_) => ActionTag::ConfigureShellProfile,
            Action::CreateUsersAndGroups(_) => ActionTag::CreateUsersAndGroups,
            Action::PlaceChannelConfiguration(_) => ActionTag::PlaceChannelConfiguration,
            Action::PlaceNixConfiguration(_) => ActionTag::PlaceNixConfiguration,
            Action::ProvisionNix(_) => ActionTag::ProvisionNix,
            Action::CreateSystemdSysext(_) => ActionTag::CreateSystemdSysext,
            Action::StartSystemdUnit(_) => ActionTag::StartSystemdUnit,
            Action::BootstrapLaunchctlService(_) => ActionTag::BootstrapLaunchctlService,
            Action::CreateApfsVolume(_) => ActionTag::CreateApfsVolume,
            Action::CreateFstabEntry(_) => ActionTag::CreateFstabEntry,
            Action::CreateNixVolume(_) => ActionTag::CreateNixVolume,
            Action::CreateSyntheticObjects(_) => ActionTag::CreateSyntheticObjects,
            Action::EnableOwnership(_) => ActionTag::EnableOwnership,
            Action::EncryptApfsVolume(_) => ActionTag::EncryptApfsVolume,
            Action::KickstartLaunchctlService(_) => ActionTag::KickstartLaunchctlService,
            Action::UnmountApfsVolume(_) => ActionTag::UnmountApfsVolume,
            Action::WaitForVolume(_) => ActionTag::WaitForVolume,
        }
    }

    /// The kind of the action.
    pub fn kind(&self) -> (tag: ActionTag)
        ensures
            tag == self.tag(),
    {
        match self {
            Action::CreateDirectory(_) => ActionTag::CreateDirectory,
            Action::CreateFile(_) => ActionTag::CreateFile,
            Action::CreateGroup(_) => ActionTag::CreateGroup,
            Action::CreateOrInsertIntoFile(_) => ActionTag::CreateOrInsertIntoFile,
            Action::CreateOrMergeNixConfig(_) => ActionTag::CreateOrMergeNixConfig,
            Action::CreateUser(_) => ActionTag::CreateUser,
            Action::FetchAndUnpackNix(_) => ActionTag::FetchAndUnpackNix,
            Action::MoveUnpackedNix(_) => ActionTag::MoveUnpackedNix,
            Action::SetupDefaultProfile(_) => ActionTag::SetupDefaultProfile,
            Action::ConfigureNix(_) => ActionTag::ConfigureNix,
            Action::ConfigureNixDaemonService(_) => ActionTag::ConfigureNixDaemonService,
            Action::ConfigureShellProfile(_) => ActionTag::ConfigureShellProfile,
            Action::CreateUsersAndGroups(_) => ActionTag::CreateUsersAndGroups,
            Action::PlaceChannelConfiguration(_) => ActionTag::PlaceChannelConfiguration,
            Action::PlaceNixConfiguration(_) => ActionTag::PlaceNixConfiguration,
            Action::ProvisionNix(_) => ActionTag::ProvisionNix,
            Action::CreateSystemdSysext(_) => ActionTag::CreateSystemdSysext,
            Action::StartSystemdUnit(_) => ActionTag::StartSystemdUnit,
            Action::BootstrapLaunchctlService(_) => ActionTag::BootstrapLaunchctlService,
            Action::CreateApfsVolume(_) => ActionTag::CreateApfsVolume,
            Action::CreateFstabEntry(_) => ActionTag::CreateFstabEntry,
            Action::CreateNixVolume(_) => ActionTag::CreateNixVolume,
            Action::CreateSyntheticObjects(_) => ActionTag::CreateSyntheticObjects,
            Action::EnableOwnership(_) => ActionTag::EnableOwnership,
            Action::EncryptApfsVolume(_) => ActionTag::EncryptApfsVolume,
            Action::KickstartLaunchctlService(_) => ActionTag::KickstartLaunchctlService,
            Action::UnmountApfsVolume(_) => ActionTag::UnmountApfsVolume,
            Action::WaitForVolume(_) => ActionTag::WaitForVolume,
        }
    }

    /// Whether the action owns children.
    pub open spec fn composite(self) -> bool {
        self.tag().composite()
    }

    /// Whether the action owns children.
    pub fn is_composite(&self) -> (composite: bool)
        ensures
            composite == self.composite(),
    {
        match self.kind() {
            ActionTag::ConfigureNix | ActionTag::ConfigureShellProfile | ActionTag::CreateUsersAndGroups | ActionTag::PlaceChannelConfiguration | ActionTag::PlaceNixConfiguration | ActionTag::ProvisionNix | ActionTag::CreateSystemdSysext | ActionTag::CreateNixVolume => true,
            _ => false,
        }
    }

    /// How the action treats the failure of its child `child`.
    ///
    /// The children of `ConfigureShellProfile` run in parallel. So do the
    /// users of `CreateUsersAndGroups`, which follow the group at index 0,
    /// except when they are created on macOS: there they are created one
    /// after another. `CreateNixVolume` passes over a failure to unmount,
    /// its child at index 2, when it is carried out. Everything else ends
    /// at the first failure.
    pub open spec fn mode_of(self, host: OperatingSystem, direction: Direction, child: int) -> ChildMode {
        match self.tag() {
            ActionTag::ConfigureShellProfile => ChildMode::Gather,
            ActionTag::CreateUsersAndGroups => {
                if child >= 1 && (direction == Direction::Reverse || host != OperatingSystem::Darwin) {
                    ChildMode::Gather
                } else {
                    ChildMode::Strict
                }
            },
            ActionTag::CreateNixVolume => {
                if direction == Direction::Forward && child == 2 {
                    ChildMode::Tolerant
                } else {
                    ChildMode::Strict
                }
            },
            _ => ChildMode::Strict,
        }
    }

    /// How the action treats the failure of its child `child`.
    pub fn child_mode(&self, host: OperatingSystem, direction: Direction, child: usize) -> (mode:
        ChildMode)
        ensures
            mode == self.mode_of(host, direction, child as int),
    {
        match self.kind() {
            ActionTag::ConfigureShellProfile => ChildMode::Gather,
            ActionTag::CreateUsersAndGroups => {
                if child >= 1 && (direction == Direction::Reverse || host != OperatingSystem::Darwin) {
                    ChildMode::Gather
                } else {
                    ChildMode::Strict
                }
            },
            ActionTag::CreateNixVolume => {
                if direction == Direction::Forward && child == 2 {
                    ChildMode::Tolerant
                } else {
                    ChildMode::Strict
                }
            },
            _ => ChildMode::Strict,
        }
    }
}

/// An action with its state and, for a composite, the children it owns.
///
/// `failure` marks an action whose own work failed, with the direction in
/// which it was driven; it is no part of a receipt.
#[derive(Debug, PartialEq, Eq)]
pub struct StatefulAction {
    pub action: Action,
    pub state: ActionState,
    pub children: Vec<StatefulAction>,
    pub failure: Option<(Direction, ActionError)>,
}

impl StatefulAction {
    /// An action without children that is still to be carried out.
    pub fn uncompleted(action: Action) -> (node: StatefulAction)
        ensures
            node@ == run::leaf(action, ActionState::Uncompleted),
    {
        let node = StatefulAction {
            action,
            state: ActionState::Uncompleted,
            children: Vec::new(),
            failure: None,
        };
        assert(node@.children =~= Seq::empty());
        node
    }

    /// An action without children whose work was found done on the host.
    pub fn completed(action: Action) -> (node: StatefulAction)
        ensures
            node@ == run::leaf(action, ActionState::Completed),
    {
        let node = StatefulAction {
            action,
            state: ActionState::Completed,
            children: Vec::new(),
            failure: None,
        };
        assert(node@.children =~= Seq::empty());
        node
    }

    /// An action with the children that it owns, still to be carried out.
    pub fn composed(action: Action, children: Vec<StatefulAction>) -> (node: StatefulAction)
        ensures
            node@ == run::composite(action, run::nodes(children@)),
    {
        let node = StatefulAction { action, state: ActionState::Uncompleted, children, failure: None };
        assert(node@.children =~= run::nodes(children@));
        node
    }
}

impl ActionTag {
    /// A name stands for the kind that is written as that name.
    pub proof fn lemma_word_unique(word: Seq<char>, tag: ActionTag)
        requires
            Self::of_word(word) == Some(tag),
        ensures
            tag.word() == word,
    {
    }
}

/// Writing the kind of an action as its receipt name and reading the name
/// back gives the kind: no two kinds share a name.
pub proof fn lemma_tag_round_trip(tag: ActionTag)
    ensures
        ActionTag::of_word(tag.word()) == Some(tag),
{
    reveal_strlit("create_directory");
    reveal_strlit("create_file");
    reveal_strlit("create_group");
    reveal_strlit("create_or_insert_into_file");
    reveal_strlit("create_or_merge_nix_config");
    reveal_strlit("create_user");
    reveal_strlit("fetch_and_unpack_nix");
    reveal_strlit("mount_unpacked_nix");
    reveal_strlit("setup_default_profile");
    reveal_strlit("configure_nix");
    reveal_strlit("configure_nix_daemon");
    reveal_strlit("configure_shell_profile");
    reveal_strlit("create_users_and_group");
    reveal_strlit("place_channel_configuration");
    reveal_strlit("place_nix_configuration");
    reveal_strlit("provision_nix");
    reveal_strlit("create_systemd_sysext");
    reveal_strlit("start_systemd_unit");
    reveal_strlit("bootstrap_launchctl_service");
    reveal_strlit("create_volume");
    reveal_strlit("create_fstab_entry");
    reveal_strlit("create_apfs_volume");
    reveal_strlit("create_synthetic_objects");
    reveal_strlit("enable_ownership");
    reveal_strlit("encrypt_volume");
    reveal_strlit("kickstart_launchctl_service");
    reveal_strlit("unmount_volume");
    reveal_strlit("wait_for_volume");
    assert("create_directory"@.len() == 16);
    assert("create_directory"@[0] == 'c');
    assert("create_directory"@[10] == 'e');
    assert("create_file"@.len() == 11);
    assert("create_file"@[0] == 'c');
    assert("create_file"@[10] == 'e');
    assert("create_group"@.len() == 12);
    assert("create_group"@[0] == 'c');
    assert("create_group"@[10] == 'u');
    assert("create_or_insert_into_file"@.len() == 26);
    assert("create_or_insert_into_file"@[0] == 'c');
    assert("create_or_insert_into_file"@[10] == 'i');
    assert("create_or_merge_nix_config"@.len() == 26);
    assert("create_or_merge_nix_config"@[0] == 'c');
    assert("create_or_merge_nix_config"@[10] == 'm');
    assert("create_user"@.len() == 11);
    assert("create_user"@[0] == 'c');
    assert("create_user"@[10] == 'r');
    assert("fetch_and_unpack_nix"@.len() == 20);
    assert("fetch_and_unpack_nix"@[0] == 'f');
    assert("fetch_and_unpack_nix"@[10] == 'u');
    assert("mount_unpacked_nix"@.len() == 18);
    assert("mount_unpacked_nix"@[0] == 'm');
    assert("mount_unpacked_nix"@[10] == 'c');
    assert("setup_default_profile"@.len() == 21);
    assert("setup_default_profile"@[0] == 's');
    assert("setup_default_profile"@[10] == 'u');
    assert("configure_nix"@.len() == 13);
    assert("configure_nix"@[0] == 'c');
    assert("configure_nix"@[10] == 'n');
    assert("configure_nix_daemon"@.len() == 20);
    assert("configure_nix_daemon"@[0] == 'c');
    assert("configure_nix_daemon"@[10] == 'n');
    assert("configure_shell_profile"@.len() == 23);
    assert("configure_shell_profile"@[0] == 'c');
    assert("configure_shell_profile"@[10] == 's');
    assert("create_users_and_group"@.len() == 22);
    assert("create_users_and_group"@[0] == 'c');
    assert("create_users_and_group"@[10] == 'r');
    assert("place_channel_configuration"@.len() == 27);
    assert("place_channel_configuration"@[0] == 'p');
    assert("place_channel_configuration"@[10] == 'n');
    assert("place_nix_configuration"@.len() == 23);
    assert("place_nix_configuration"@[0] == 'p');
    assert("place_nix_configuration"@[10] == 'c');
    assert("provision_nix"@.len() == 13);
    assert("provision_nix"@[0] == 'p');
    assert("provision_nix"@[10] == 'n');
    assert("create_systemd_sysext"@.len() == 21);
    assert("create_systemd_sysext"@[0] == 'c');
    assert("create_systemd_sysext"@[10] == 't');
    assert("start_systemd_unit"@.len() == 18);
    assert("start_systemd_unit"@[0] == 's');
    assert("start_systemd_unit"@[10] == 'e');
    assert("bootstrap_launchctl_service"@.len() == 27);
    assert("bootstrap_launchctl_service"@[0] == 'b');
    assert("bootstrap_launchctl_service"@[10] == 'l');
    assert("create_volume"@.len() == 13);
    assert("create_volume"@[0] == 'c');
    assert("create_volume"@[10] == 'u');
    assert("create_fstab_entry"@.len() == 18);
    assert("create_fstab_entry"@[0] == 'c');
    assert("create_fstab_entry"@[10] == 'a');
    assert("create_apfs_volume"@.len() == 18);
    assert("create_apfs_volume"@[0] == 'c');
    assert("create_apfs_volume"@[10] == 's');
    assert("create_synthetic_objects"@.len() == 24);
    assert("create_synthetic_objects"@[0] == 'c');
    assert("create_synthetic_objects"@[10] == 't');
    assert("enable_ownership"@.len() == 16);
    assert("enable_ownership"@[0] == 'e');
    assert("enable_ownership"@[10] == 'e');
    assert("encrypt_volume"@.len() == 14);
    assert("encrypt_volume"@[0] == 'e');
    assert("encrypt_volume"@[10] == 'l');
    assert("kickstart_launchctl_service"@.len() == 27);
    assert("kickstart_launchctl_service"@[0] == 'k');
    assert("kickstart_launchctl_service"@[10] == 'l');
    assert("unmount_volume"@.len() == 14);
    assert("unmount_volume"@[0] == 'u');
    assert("unmount_volume"@[10] == 'l');
    assert("wait_for_volume"@.len() == 15);
    assert("wait_for_volume"@[0] == 'w');
    assert("wait_for_volume"@[10] == 'o');
}

} // verus!
