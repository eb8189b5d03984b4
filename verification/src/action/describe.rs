//! What an action says of itself: a line that names what it does, and
//! lines that explain it.
use vstd::prelude::*;
use crate::action::run::Node;
use crate::action::{Action, StatefulAction};
use crate::state::{ActionState, Direction};
use crate::text::{decimal, push_decimal, views};

verus! {

/// What an action says of itself: a line that names what it does, and
/// lines that explain it.
#[derive(Debug, PartialEq, Eq)]
pub struct ActionDescription {
    pub description: String,
    pub explanation: Vec<String>,
}

/// A description as a plain value.
pub struct Described {
    pub description: Seq<char>,
    pub explanation: Seq<Seq<char>>,
}

impl ActionDescription {
    /// The description as a plain value.
    pub open spec fn view(&self) -> Described {
        Described { description: self.description@, explanation: views(self.explanation@) }
    }

    /// A description made of its line and its explanation.
    pub fn new(description: String, explanation: Vec<String>) -> (made: ActionDescription)
        ensures
            made@ == (Described { description: description@, explanation: views(explanation@) }),
    {
        ActionDescription { description, explanation }
    }
}

fn numeral(n: u32) -> (word: String)
    ensures
        word@ == decimal(n as nat),
{
    let mut word = String::new();
    push_decimal(&mut word, n as u64);
    assert(word@ =~= decimal(n as nat));
    word
}

impl Action {
    /// The line that names what the action does when it is driven in
    /// `direction`; nothing where undoing the action does nothing.
    pub open spec fn synopsis(self, direction: Direction) -> Option<Seq<char>> {
        match self {
            Action::CreateDirectory(action) => match direction {
                Direction::Forward => Some("Create directory `"@ + action.path@ + "`"@),
                Direction::Reverse => Some("Remove the directory `"@ + action.path@ + "`"@),
            },
            Action::CreateFile(action) => match direction {
                Direction::Forward => Some("Create or overwrite file `"@ + action.path@ + "`"@),
                Direction::Reverse => Some("Delete file `"@ + action.path@ + "`"@),
            },
            Action::CreateGroup(action) => match direction {
                Direction::Forward => Some("Create group "@ + action.name@ + " with GID "@ + decimal(action.gid as nat)),
                Direction::Reverse => Some("Delete group "@ + action.name@),
            },
            Action::CreateOrInsertIntoFile(action) => match direction {
                Direction::Forward => Some("Create or insert file `"@ + action.path@ + "`"@),
                Direction::Reverse => Some("Remove the inserted text from `"@ + action.path@ + "`"@),
            },
            Action::CreateOrMergeNixConfig(action) => match direction {
                Direction::Forward => Some("Create or merge nix.conf file `"@ + action.path@ + "`"@),
                Direction::Reverse => Some("Delete file `"@ + action.path@ + "`"@),
            },
            Action::CreateUser(action) => match direction {
                Direction::Forward => Some("Create user `"@ + action.name@ + "` (UID "@ + decimal(action.uid as nat) + ") in group `"@ + action.groupname@ + "` (GID "@ + decimal(action.gid as nat) + ")"@),
                Direction::Reverse => Some("Delete user `"@ + action.name@ + "` (UID "@ + decimal(action.uid as nat) + ") in group "@ + action.groupname@ + " (GID "@ + decimal(action.gid as nat) + ")"@),
            },
            Action::FetchAndUnpackNix(action) => match direction {
                Direction::Forward => Some("Fetch `"@ + action.url@ + "` to `"@ + action.dest@ + "`"@),
                Direction::Reverse => Some("Remove `"@ + action.dest@ + "`"@),
            },
            Action::MoveUnpackedNix(_) => match direction {
                Direction::Forward => Some("Move the downloaded Nix into `/nix`"@),
                Direction::Reverse => None,
            },
            Action::SetupDefaultProfile(_) => match direction {
                Direction::Forward => Some("Setup the default Nix profile"@),
                Direction::Reverse => None,
            },
            Action::ConfigureNix(_) => match direction {
                Direction::Forward => Some("Configure Nix"@),
                Direction::Reverse => Some("Unconfigure Nix"@),
            },
            Action::ConfigureNixDaemonService(_) => match direction {
                Direction::Forward => Some("Configure the Nix daemon service"@),
                Direction::Reverse => Some("Unconfigure the Nix daemon service"@),
            },
            Action::ConfigureShellProfile(_) => match direction {
                Direction::Forward => Some("Configure the shell profiles"@),
                Direction::Reverse => Some("Unconfigure the shell profiles"@),
            },
            Action::CreateUsersAndGroups(action) => match direction {
                Direction::Forward => Some("Create "@ + decimal(action.nix_build_user_count as nat) + " build users (UID "@ + decimal(action.nix_build_user_id_base as nat) + " and up) and group (GID "@ + decimal(action.nix_build_group_id as nat) + ")"@),
                Direction::Reverse => Some("Remove Nix users and group"@),
            },
            Action::PlaceChannelConfiguration(_) => match direction {
                Direction::Forward => Some("Place the channel configuration of the root user"@),
                Direction::Reverse => Some("Remove the channel configuration of the root user"@),
            },
            Action::PlaceNixConfiguration(_) => match direction {
                Direction::Forward => Some("Place the Nix configuration in `/etc/nix/nix.conf`"@),
                Direction::Reverse => Some("Remove the Nix configuration in `/etc/nix/nix.conf`"@),
            },
            Action::ProvisionNix(_) => match direction {
                Direction::Forward => Some("Provision Nix"@),
                Direction::Reverse => Some("Unprovision Nix"@),
            },
            Action::CreateSystemdSysext(action) => match direction {
                Direction::Forward => Some("Create a systemd sysext at `"@ + action.destination@ + "`"@),
                Direction::Reverse => Some("Remove the sysext located at `"@ + action.destination@ + "`"@),
            },
            Action::StartSystemdUnit(action) => match direction {
                Direction::Forward => Some("Enable (and start) the systemd unit "@ + action.unit@),
                Direction::Reverse => Some("Disable (and stop) the systemd unit "@ + action.unit@),
            },
            Action::BootstrapLaunchctlService(action) => match direction {
                Direction::Forward => Some("Bootstrap the `"@ + action.service@ + "` service via `launchctl bootstrap "@ + action.domain@ + " "@ + action.path@ + "`"@),
                Direction::Reverse => Some("Run `launchctl bootout "@ + action.domain@ + " "@ + action.path@ + "`"@),
            },
            Action::CreateApfsVolume(action) => match direction {
                Direction::Forward => Some("Create an APFS volume on `"@ + action.disk@ + "` named `"@ + action.name@ + "`"@),
                Direction::Reverse => Some("Remove the volume on `"@ + action.disk@ + "` named `"@ + action.name@ + "`"@),
            },
            Action::CreateFstabEntry(action) => match direction {
                Direction::Forward => Some("Add a `/etc/fstab` entry for the volume `"@ + action.apfs_volume_label@ + "`"@),
                Direction::Reverse => Some("Remove the `/etc/fstab` entry for the volume `"@ + action.apfs_volume_label@ + "`"@),
            },
            Action::CreateNixVolume(action) => match direction {
                Direction::Forward => Some("Create an APFS volume `"@ + action.name@ + "` for Nix on `"@ + action.disk@ + "` and add it to `/etc/fstab` mounting on `/nix`"@),
                Direction::Reverse => Some("Remove the APFS volume `"@ + action.name@ + "` on `"@ + action.disk@ + "`"@),
            },
            Action::CreateSyntheticObjects(_) => match direction {
                Direction::Forward => Some("Create objects defined in `/etc/synthetic.conf`"@),
                Direction::Reverse => Some("Refresh the objects defined in `/etc/synthetic.conf`"@),
            },
            Action::EnableOwnership(action) => match direction {
                Direction::Forward => Some("Enable ownership on "@ + action.path@),
                Direction::Reverse => None,
            },
            Action::EncryptApfsVolume(action) => match direction {
                Direction::Forward => Some("Encrypt volume `"@ + action.name@ + "` on disk `"@ + action.disk@ + "`"@),
                Direction::Reverse => Some("Remove encryption keys for volume `"@ + action.name@ + "`"@),
            },
            Action::KickstartLaunchctlService(action) => match direction {
                Direction::Forward => Some("Run `launchctl kickstart -k "@ + action.unit@ + "`"@),
                Direction::Reverse => None,
            },
            Action::UnmountApfsVolume(action) => match direction {
                Direction::Forward => Some("Unmount the `"@ + action.name@ + "` APFS volume"@),
                Direction::Reverse => Some("Unmount the `"@ + action.name@ + "` APFS volume"@),
            },
            Action::WaitForVolume(action) => match direction {
                Direction::Forward => Some("Wait for the volume at `"@ + action.path@ + "`"@),
                Direction::Reverse => None,
            },
        }
    }

    /// The lines that explain why the action is there.
    pub open spec fn rationale(self) -> Seq<Seq<char>> {
        match self {
            Action::CreateGroup(_) => seq!["The nix daemon requires a system user group its system users can be part of"@],
            Action::CreateOrMergeNixConfig(action) => seq!["If "@ + action.path@ + " already exists, we will attempt to merge the current settings with our settings; otherwise, it will be created with only our settings"@],
            Action::CreateUser(_) => seq!["The Nix daemon requires system users it can act as in order to build"@],
            Action::MoveUnpackedNix(action) => seq!["Nix is being downloaded to `"@ + action.src@ + "` and should be in `nix`"@],
            Action::ConfigureShellProfile(_) => seq!["Update shell profiles to import Nix"@],
            Action::CreateUsersAndGroups(_) => seq!["The Nix daemon requires system users (and a group they share) which it can act as in order to build"@],
            Action::PlaceNixConfiguration(_) => seq!["This file is read by the Nix daemon to set its configuration options at runtime."@],
            Action::CreateSystemdSysext(_) => seq!["Create a writable, persistent systemd system extension."@],
            _ => Seq::empty(),
        }
    }

    /// The line that names what the action does when it is driven in
    /// `direction`; nothing where undoing the action does nothing.
    pub fn tracing_synopsis(&self, direction: Direction) -> (line: Option<String>)
        ensures
            match line {
                Some(text) => self.synopsis(direction) == Some(text@),
                None => self.synopsis(direction) is None,
            },
    {
        match self {
            Action::CreateDirectory(action) => match direction {
                Direction::Forward => Some(String::from_str("Create directory `").concat(action.path.as_str()).concat("`")),
                Direction::Reverse => Some(String::from_str("Remove the directory `").concat(action.path.as_str()).concat("`")),
            },
            Action::CreateFile(action) => match direction {
                Direction::Forward => Some(String::from_str("Create or overwrite file `").concat(action.path.as_str()).concat("`")),
                Direction::Reverse => Some(String::from_str("Delete file `").concat(action.path.as_str()).concat("`")),
            },
            Action::CreateGroup(action) => match direction {
                Direction::Forward => Some(String::from_str("Create group ").concat(action.name.as_str()).concat(" with GID ").concat(numeral(action.gid).as_str())),
                Direction::Reverse => Some(String::from_str("Delete group ").concat(action.name.as_str())),
            },
            Action::CreateOrInsertIntoFile(action) => match direction {
                Direction::Forward => Some(String::from_str("Create or insert file `").concat(action.path.as_str()).concat("`")),
                Direction::Reverse => Some(String::from_str("Remove the inserted text from `").concat(action.path.as_str()).concat("`")),
            },
            Action::CreateOrMergeNixConfig(action) => match direction {
                Direction::Forward => Some(String::from_str("Create or merge nix.conf file `").concat(action.path.as_str()).concat("`")),
                Direction::Reverse => Some(String::from_str("Delete file `").concat(action.path.as_str()).concat("`")),
            },
            Action::CreateUser(action) => match direction {
                Direction::Forward => Some(String::from_str("Create user `").concat(action.name.as_str()).concat("` (UID ").concat(numeral(action.uid).as_str()).concat(") in group `").concat(action.groupname.as_str()).concat("` (GID ").concat(numeral(action.gid).as_str()).concat(")")),
                Direction::Reverse => Some(String::from_str("Delete user `").concat(action.name.as_str()).concat("` (UID ").concat(numeral(action.uid).as_str()).concat(") in group ").concat(action.groupname.as_str()).concat(" (GID ").concat(numeral(action.gid).as_str()).concat(")")),
            },
            Action::FetchAndUnpackNix(action) => match direction {
                Direction::Forward => Some(String::from_str("Fetch `").concat(action.url.as_str()).concat("` to `").concat(action.dest.as_str()).concat("`")),
                Direction::Reverse => Some(String::from_str("Remove `").concat(action.dest.as_str()).concat("`")),
            },
            Action::MoveUnpackedNix(_) => match direction {
                Direction::Forward => Some(String::from_str("Move the downloaded Nix into `/nix`")),
                Direction::Reverse => None,
            },
            Action::SetupDefaultProfile(_) => match direction {
                Direction::Forward => Some(String::from_str("Setup the default Nix profile")),
                Direction::Reverse => None,
            },
            Action::ConfigureNix(_) => match direction {
                Direction::Forward => Some(String::from_str("Configure Nix")),
                Direction::Reverse => Some(String::from_str("Unconfigure Nix")),
            },
            Action::ConfigureNixDaemonService(_) => match direction {
                Direction::Forward => Some(String::from_str("Configure the Nix daemon service")),
                Direction::Reverse => Some(String::from_str("Unconfigure the Nix daemon service")),
            },
            Action::ConfigureShellProfile(_) => match direction {
                Direction::Forward => Some(String::from_str("Configure the shell profiles")),
                Direction::Reverse => Some(String::from_str("Unconfigure the shell profiles")),
            },
            Action::CreateUsersAndGroups(action) => match direction {
                Direction::Forward => Some(String::from_str("Create ").concat(numeral(action.nix_build_user_count).as_str()).concat(" build users (UID ").concat(numeral(action.nix_build_user_id_base).as_str()).concat(" and up) and group (GID ").concat(numeral(action.nix_build_group_id).as_str()).concat(")")),
                Direction::Reverse => Some(String::from_str("Remove Nix users and group")),
            },
            Action::PlaceChannelConfiguration(_) => match direction {
                Direction::Forward => Some(String::from_str("Place the channel configuration of the root user")),
                Direction::Reverse => Some(String::from_str("Remove the channel configuration of the root user")),
            },
            Action::PlaceNixConfiguration(_) => match direction {
                Direction::Forward => Some(String::from_str("Place the Nix configuration in `/etc/nix/nix.conf`")),
                Direction::Reverse => Some(String::from_str("Remove the Nix configuration in `/etc/nix/nix.conf`")),
            },
            Action::ProvisionNix(_) => match direction {
                Direction::Forward => Some(String::from_str("Provision Nix")),
                Direction::Reverse => Some(String::from_str("Unprovision Nix")),
            },
            Action::CreateSystemdSysext(action) => match direction {
                Direction::Forward => Some(String::from_str("Create a systemd sysext at `").concat(action.destination.as_str()).concat("`")),
                Direction::Reverse => Some(String::from_str("Remove the sysext located at `").concat(action.destination.as_str()).concat("`")),
            },
            Action::StartSystemdUnit(action) => match direction {
                Direction::Forward => Some(String::from_str("Enable (and start) the systemd unit ").concat(action.unit.as_str())),
                Direction::Reverse => Some(String::from_str("Disable (and stop) the systemd unit ").concat(action.unit.as_str())),
            },
            Action::BootstrapLaunchctlService(action) => match direction {
                Direction::Forward => Some(String::from_str("Bootstrap the `").concat(action.service.as_str()).concat("` service via `launchctl bootstrap ").concat(action.domain.as_str()).concat(" ").concat(action.path.as_str()).concat("`")),
                Direction::Reverse => Some(String::from_str("Run `launchctl bootout ").concat(action.domain.as_str()).concat(" ").concat(action.path.as_str()).concat("`")),
            },
            Action::CreateApfsVolume(action) => match direction {
                Direction::Forward => Some(String::from_str("Create an APFS volume on `").concat(action.disk.as_str()).concat("` named `").concat(action.name.as_str()).concat("`")),
                Direction::Reverse => Some(String::from_str("Remove the volume on `").concat(action.disk.as_str()).concat("` named `").concat(action.name.as_str()).concat("`")),
            },
            Action::CreateFstabEntry(action) => match direction {
                Direction::Forward => Some(String::from_str("Add a `/etc/fstab` entry for the volume `").concat(action.apfs_volume_label.as_str()).concat("`")),
                Direction::Reverse => Some(String::from_str("Remove the `/etc/fstab` entry for the volume `").concat(action.apfs_volume_label.as_str()).concat("`")),
            },
            Action::CreateNixVolume(action) => match direction {
                Direction::Forward => Some(String::from_str("Create an APFS volume `").concat(action.name.as_str()).concat("` for Nix on `").concat(action.disk.as_str()).concat("` and add it to `/etc/fstab` mounting on `/nix`")),
                Direction::Reverse => Some(String::from_str("Remove the APFS volume `").concat(action.name.as_str()).concat("` on `").concat(action.disk.as_str()).concat("`")),
            },
            Action::CreateSyntheticObjects(_) => match direction {
                Direction::Forward => Some(String::from_str("Create objects defined in `/etc/synthetic.conf`")),
                Direction::Reverse => Some(String::from_str("Refresh the objects defined in `/etc/synthetic.conf`")),
            },
            Action::EnableOwnership(action) => match direction {
                Direction::Forward => Some(String::from_str("Enable ownership on ").concat(action.path.as_str())),
                Direction::Reverse => None,
            },
            Action::EncryptApfsVolume(action) => match direction {
                Direction::Forward => Some(String::from_str("Encrypt volume `").concat(action.name.as_str()).concat("` on disk `").concat(action.disk.as_str()).concat("`")),
                Direction::Reverse => Some(String::from_str("Remove encryption keys for volume `").concat(action.name.as_str()).concat("`")),
            },
            Action::KickstartLaunchctlService(action) => match direction {
                Direction::Forward => Some(String::from_str("Run `launchctl kickstart -k ").concat(action.unit.as_str()).concat("`")),
                Direction::Reverse => None,
            },
            Action::UnmountApfsVolume(action) => match direction {
                Direction::Forward => Some(String::from_str("Unmount the `").concat(action.name.as_str()).concat("` APFS volume")),
                Direction::Reverse => Some(String::from_str("Unmount the `").concat(action.name.as_str()).concat("` APFS volume")),
            },
            Action::WaitForVolume(action) => match direction {
                Direction::Forward => Some(String::from_str("Wait for the volume at `").concat(action.path.as_str()).concat("`")),
                Direction::Reverse => None,
            },
        }
    }

    /// The lines that explain why the action is there.
    pub fn explanation(&self) -> (lines: Vec<String>)
        ensures
            views(lines@) == self.rationale(),
    {
        let mut lines: Vec<String> = Vec::new();
        match self {
            Action::CreateGroup(_) => {
                lines.push(String::from_str("The nix daemon requires a system user group its system users can be part of"));
            },
            Action::CreateOrMergeNixConfig(action) => {
                lines.push(String::from_str("If ").concat(action.path.as_str()).concat(" already exists, we will attempt to merge the current settings with our settings; otherwise, it will be created with only our settings"));
            },
            Action::CreateUser(_) => {
                lines.push(String::from_str("The Nix daemon requires system users it can act as in order to build"));
            },
            Action::MoveUnpackedNix(action) => {
                lines.push(String::from_str("Nix is being downloaded to `").concat(action.src.as_str()).concat("` and should be in `nix`"));
            },
            Action::ConfigureShellProfile(_) => {
                lines.push(String::from_str("Update shell profiles to import Nix"));
            },
            Action::CreateUsersAndGroups(_) => {
                lines.push(String::from_str("The Nix daemon requires system users (and a group they share) which it can act as in order to build"));
            },
            Action::PlaceNixConfiguration(_) => {
                lines.push(String::from_str("This file is read by the Nix daemon to set its configuration options at runtime."));
            },
            Action::CreateSystemdSysext(_) => {
                lines.push(String::from_str("Create a writable, persistent systemd system extension."));
            },
            _ => {},
        }
        assert(views(lines@) =~= self.rationale());
        lines
    }
}

impl Node {
    /// The line by which the action describes itself when it is driven in
    /// `direction`: nothing where it is in the direction's goal state.
    pub open spec fn headline(self, direction: Direction) -> Option<Seq<char>> {
        if self.state == direction.goal() {
            None
        } else {
            self.action.synopsis(direction)
        }
    }

    /// The lines by which the actions describe themselves, in order.
    pub open spec fn headlines(nodes: Seq<Node>, direction: Direction) -> Seq<Seq<char>>
        decreases nodes.len(),
    {
        if nodes.len() == 0 {
            Seq::empty()
        } else {
            let before = Self::headlines(nodes.drop_last(), direction);
            match nodes.last().headline(direction) {
                Some(line) => before.push(line),
                None => before,
            }
        }
    }

    /// What the action says of itself when it is driven in `direction`:
    /// nothing where it is in the direction's goal state; else its line,
    /// explained by its rationale and by the lines of its children.
    pub open spec fn described(self, direction: Direction) -> Seq<Described> {
        match self.headline(direction) {
            None => Seq::empty(),
            Some(line) => seq![
                Described {
                    description: line,
                    explanation: self.action.rationale() + Self::headlines(self.children, direction),
                },
            ],
        }
    }
}

/// The descriptions of a list as plain values.
pub open spec fn descriptions(all: Seq<ActionDescription>) -> Seq<Described> {
    all.map_values(|d: ActionDescription| d@)
}

impl StatefulAction {
    fn headline(&self, direction: Direction) -> (line: Option<String>)
        ensures
            match line {
                Some(text) => self@.headline(direction) == Some(text@),
                None => self@.headline(direction) is None,
            },
    {
        if self.state == direction.goal_state() {
            None
        } else {
            self.action.tracing_synopsis(direction)
        }
    }

    /// What the action says of itself when it is driven in `direction`.
    pub fn describe(&self, direction: Direction) -> (all: Vec<ActionDescription>)
        ensures
            descriptions(all@) == self@.described(direction),
    {
        let mut all: Vec<ActionDescription> = Vec::new();
        match self.headline(direction) {
            None => {
                assert(descriptions(all@) =~= self@.described(direction));
            },
            Some(line) => {
                let mut explanation = self.action.explanation();
                let ghost rationale = views(explanation@);
                let mut i: usize = 0;
                proof {
                    Self::lemma_view_children(*self);
                    assert(self@.children.take(0) =~= Seq::<Node>::empty());
                    assert(views(explanation@) =~= rationale + Node::headlines(
                        self@.children.take(0),
                        direction,
                    ));
                }
                while i < self.children.len()
                    invariant
                        i <= self.children@.len(),
                        self@.children.len() == self.children@.len(),
                        forall|k: int|
                            0 <= k < self.children@.len() ==> self@.children[k]
                                == (#[trigger] self.children@[k])@,
                        views(explanation@) == rationale + Node::headlines(
                            self@.children.take(i as int),
                            direction,
                        ),
                    decreases self.children@.len() - i,
                {
                    let ghost before = views(explanation@);
                    let ghost upto = self@.children.take(i as int + 1);
                    assert(upto.drop_last() =~= self@.children.take(i as int));
                    assert(upto.last() == self.children@[i as int]@);
                    match self.children[i].headline(direction) {
                        Some(child) => {
                            let ghost text = child@;
                            explanation.push(child);
                            assert(views(explanation@) =~= before.push(text));
                            assert(views(explanation@) =~= rationale + Node::headlines(upto, direction));
                        },
                        None => {},
                    }
                    i = i + 1;
                }
                assert(self@.children.take(i as int) =~= self@.children);
                all.push(ActionDescription::new(line, explanation));
                assert(descriptions(all@) =~= self@.described(direction));
            },
        }
        all
    }

    /// What the action says of carrying it out: nothing where it is
    /// completed already.
    pub fn describe_execute(&self) -> (all: Vec<ActionDescription>)
        ensures
            descriptions(all@) == self@.described(Direction::Forward),
            self.state == ActionState::Completed ==> all@.len() == 0,
    {
        let all = self.describe(Direction::Forward);
        assert(descriptions(all@).len() == all@.len());
        all
    }

    /// What the action says of undoing it: nothing where it is not carried
    /// out at all.
    pub fn describe_revert(&self) -> (all: Vec<ActionDescription>)
        ensures
            descriptions(all@) == self@.described(Direction::Reverse),
            self.state == ActionState::Uncompleted ==> all@.len() == 0,
    {
        let all = self.describe(Direction::Reverse);
        assert(descriptions(all@).len() == all@.len());
        all
    }
}

} // verus!
