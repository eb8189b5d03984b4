//! Creating the APFS volume that holds `/nix`.
use vstd::prelude::*;
use crate::action::base::create_file::CreateFile;
use crate::action::base::create_or_insert_into_file::{CreateOrInsertIntoFile, Position};
use crate::action::macos::bootstrap_launchctl_service::BootstrapLaunchctlService;
use crate::action::macos::create_apfs_volume::CreateApfsVolume;
use crate::action::macos::create_fstab_entry::CreateFstabEntry;
use crate::action::macos::create_synthetic_objects::CreateSyntheticObjects;
use crate::action::macos::enable_ownership::EnableOwnership;
use crate::action::macos::encrypt_apfs_volume::EncryptApfsVolume;
use crate::action::macos::kickstart_launchctl_service::KickstartLaunchctlService;
use crate::action::macos::unmount_apfs_volume::UnmountApfsVolume;
use crate::action::macos::wait_for_volume::{WaitForVolume, ATTEMPTS, INTERVAL};
use crate::action::run::Node;
use crate::action::{Action, StatefulAction};
use crate::error::PlanningError;
use crate::facts::HostFacts;
use crate::state::ActionState;
use crate::text::{join, join_with, views};

verus! {

/// Where the description of the service that mounts the volume goes.
pub const NIX_VOLUME_MOUNTD_DEST: &'static str = "/Library/LaunchDaemons/org.nixos.darwin-store.plist";

/// How the description of the mount service begins.
pub const MOUNT_PLIST_HEAD: &'static str =
    "<?xml version=\"1.0\" encoding=\"UTF-8\"?>\n<!DOCTYPE plist PUBLIC \"-//Apple Computer//DTD PLIST 1.0//EN\" \"http://www.apple.com/DTDs/PropertyList-1.0.dtd\">\n<plist version=\"1.0\">\n<dict>\n<key>RunAtLoad</key>\n<true/>\n<key>Label</key>\n<string>org.nixos.darwin-store</string>\n<key>ProgramArguments</key>\n<array>\n";

/// How the description of the mount service ends.
pub const MOUNT_PLIST_TAIL: &'static str = "</array>\n</dict>\n</plist>\n";

/// Create an APFS volume for Nix and have it mounted at `/nix`.
///
/// The children, in order: `nix` is added to `/etc/synthetic.conf`; the
/// synthetic objects are created; a volume of the name is unmounted, which
/// may fail; the volume is created; it is added to `/etc/fstab`; it is
/// encrypted, where that is wanted; the mount service is described,
/// bootstrapped and kickstarted; the volume is waited for; ownership is
/// enabled on it.
#[derive(Debug, PartialEq, Eq)]
pub struct CreateNixVolume {
    pub disk: String,
    pub name: String,
    pub case_sensitive: bool,
    pub encrypt: bool,
}

/// The command by which the mount service mounts the volume, word by word:
/// an encrypted volume is unlocked with the password from the keychain.
pub open spec fn mount_arguments(name: Seq<char>, encrypt: bool) -> Seq<Seq<char>> {
    if encrypt {
        seq![
            "/bin/sh"@,
            "-c"@,
            "/usr/bin/security find-generic-password -s \""@ + name
                + "\" -w |  /usr/sbin/diskutil apfs unlockVolume \""@ + name
                + "\" -mountpoint /nix -stdinpassphrase"@,
        ]
    } else {
        seq!["/usr/sbin/diskutil"@, "mount"@, "-mountPoint"@, "/nix"@, name]
    }
}

/// Each word as an entry of the description.
pub open spec fn argument_entries(arguments: Seq<Seq<char>>) -> Seq<Seq<char>> {
    arguments.map_values(|word: Seq<char>| "<string>"@ + word + "</string>\n"@)
}

/// The description of the service that mounts the volume at start.
pub open spec fn mount_plist(name: Seq<char>, encrypt: bool) -> Seq<char> {
    MOUNT_PLIST_HEAD@ + join(argument_entries(mount_arguments(name, encrypt)), "\n"@)
        + MOUNT_PLIST_TAIL@
}

/// Whether `node` is an action without children that is still to be
/// carried out.
pub open spec fn pending_leaf(node: Node) -> bool {
    node.state == ActionState::Uncompleted && node.children.len() == 0 && node.failure is None
}

fn mount_description(name: &str, encrypt: bool) -> (text: String)
    ensures
        text@ == mount_plist(name@, encrypt),
{
    let mut words: Vec<String> = Vec::new();
    if encrypt {
        words.push(String::from_str("/bin/sh"));
        words.push(String::from_str("-c"));
        words.push(
            String::from_str("/usr/bin/security find-generic-password -s \"").concat(name).concat(
                "\" -w |  /usr/sbin/diskutil apfs unlockVolume \"",
            ).concat(name).concat("\" -mountpoint /nix -stdinpassphrase"),
        );
    } else {
        words.push(String::from_str("/usr/sbin/diskutil"));
        words.push(String::from_str("mount"));
        words.push(String::from_str("-mountPoint"));
        words.push(String::from_str("/nix"));
        words.push(String::from_str(name));
    }
    assert(views(words@) =~= mount_arguments(name@, encrypt));
    let ghost all = argument_entries(views(words@));
    let mut entries: Vec<String> = Vec::new();
    let mut i: usize = 0;
    assert(views(entries@) =~= all.take(0));
    while i < words.len()
        invariant
            i <= words@.len(),
            all == argument_entries(views(words@)),
            views(entries@) == all.take(i as int),
        decreases words@.len() - i,
    {
        let ghost before = views(entries@);
        let entry = String::from_str("<string>").concat(words[i].as_str()).concat("</string>\n");
        let ghost text = entry@;
        assert(text =~= "<string>"@ + words@[i as int]@ + "</string>\n"@);
        assert(all[i as int] == text);
        entries.push(entry);
        assert(views(entries@) =~= before.push(text));
        assert(views(entries@) =~= all.take(i as int + 1));
        i = i + 1;
    }
    assert(all.take(i as int) =~= all);
    let middle = join_with(&entries, "\n");
    String::from_str(MOUNT_PLIST_HEAD).concat(middle.as_str()).concat(MOUNT_PLIST_TAIL)
}

impl CreateNixVolume {
    /// Whether the volume cannot be planned: a description of the mount
    /// service exists already.
    pub open spec fn fails(facts: HostFacts) -> bool {
        facts.place_of(NIX_VOLUME_MOUNTD_DEST@) is Some
    }

    /// Whether `node` holds the children in their order.
    pub open spec fn shaped(
        node: Node,
        disk: Seq<char>,
        name: Seq<char>,
        case_sensitive: bool,
        encrypt: bool,
    ) -> bool {
        let shift = if encrypt {
            1int
        } else {
            0int
        };
        &&& node.action matches Action::CreateNixVolume(action)
        &&& action.disk@ == disk
        &&& action.name@ == name
        &&& action.case_sensitive == case_sensitive
        &&& action.encrypt == encrypt
        &&& node.state == ActionState::Uncompleted
        &&& node.failure is None
        &&& node.children.len() == 10 + shift
        &&& forall|k: int| 0 <= k < node.children.len() ==> pending_leaf(#[trigger] node.children[k])
        &&& node.children[0].action matches Action::CreateOrInsertIntoFile(synthetic)
        &&& synthetic.path@ == "/etc/synthetic.conf"@
        &&& synthetic.user is None
        &&& synthetic.group is None
        &&& synthetic.mode is None
        &&& synthetic.buf@ == "nix\n"@
        &&& synthetic.position is End
        &&& node.children[1].action is CreateSyntheticObjects
        &&& node.children[2].action matches Action::UnmountApfsVolume(unmount)
        &&& unmount.disk@ == disk
        &&& unmount.name@ == name
        &&& node.children[3].action matches Action::CreateApfsVolume(volume)
        &&& volume.disk@ == disk
        &&& volume.name@ == name
        &&& volume.case_sensitive == case_sensitive
        &&& node.children[4].action matches Action::CreateFstabEntry(entry)
        &&& entry.apfs_volume_label@ == name
        &&& encrypt ==> (node.children[5].action matches Action::EncryptApfsVolume(encryption)
            && encryption.disk@ == disk && encryption.name@ == name)
        &&& node.children[5 + shift].action matches Action::CreateFile(file)
        &&& file.path@ == NIX_VOLUME_MOUNTD_DEST@
        &&& file.user is None
        &&& file.group is None
        &&& file.mode is None
        &&& file.buf@ == mount_plist(name, encrypt)
        &&& !file.force
        &&& node.children[6 + shift].action matches Action::BootstrapLaunchctlService(bootstrap)
        &&& bootstrap.domain@ == "system"@
        &&& bootstrap.service@ == "org.nixos.darwin-store"@
        &&& bootstrap.path@ == NIX_VOLUME_MOUNTD_DEST@
        &&& node.children[7 + shift].action matches Action::KickstartLaunchctlService(kickstart)
        &&& kickstart.unit@ == "system/org.nixos.darwin-store"@
        &&& node.children[8 + shift].action matches Action::WaitForVolume(wait)
        &&& wait.path@ == "/nix"@
        &&& wait.attempts == ATTEMPTS
        &&& wait.interval == INTERVAL
        &&& node.children[9 + shift].action matches Action::EnableOwnership(ownership)
        &&& ownership.path@ == "/nix"@
    }

    /// Whether `error` is why the volume cannot be planned.
    pub open spec fn is_error(error: PlanningError) -> bool {
        error matches PlanningError::PathExists(path) && path@ == NIX_VOLUME_MOUNTD_DEST@
    }

    /// Plans the volume `name` on `disk`.
    pub fn plan(disk: String, name: String, case_sensitive: bool, encrypt: bool, facts: &HostFacts) -> (plan:
        Result<StatefulAction, PlanningError>)
        ensures
            match plan {
                Ok(tree) => !Self::fails(*facts) && Self::shaped(
                    tree@,
                    disk@,
                    name@,
                    case_sensitive,
                    encrypt,
                ),
                Err(error) => Self::fails(*facts) && Self::is_error(error),
            },
    {
        let mut children: Vec<StatefulAction> = Vec::new();
        let synthetic = CreateOrInsertIntoFile::plan(
            String::from_str("/etc/synthetic.conf"),
            None,
            None,
            None,
            String::from_str("nix\n"),
            Position::End,
        );
        match synthetic {
            Ok(node) => children.push(node),
            Err(error) => {
                return Err(error);
            },
        }
        match CreateSyntheticObjects::plan() {
            Ok(node) => children.push(node),
            Err(error) => {
                return Err(error);
            },
        }
        match UnmountApfsVolume::plan(disk.clone(), name.clone()) {
            Ok(node) => children.push(node),
            Err(error) => {
                return Err(error);
            },
        }
        match CreateApfsVolume::plan(disk.clone(), name.clone(), case_sensitive) {
            Ok(node) => children.push(node),
            Err(error) => {
                return Err(error);
            },
        }
        match CreateFstabEntry::plan(name.clone()) {
            Ok(node) => children.push(node),
            Err(error) => {
                return Err(error);
            },
        }
        if encrypt {
            match EncryptApfsVolume::plan(disk.clone(), name.clone()) {
                Ok(node) => children.push(node),
                Err(error) => {
                    return Err(error);
                },
            }
        }
        let description = String::from_str(NIX_VOLUME_MOUNTD_DEST);
        let exists = facts.path(&description).is_some();
        let text = mount_description(name.as_str(), encrypt);
        match CreateFile::plan(description, None, None, None, text, false, exists) {
            Ok(node) => children.push(node),
            Err(error) => {
                return Err(error);
            },
        }
        match BootstrapLaunchctlService::plan(
            String::from_str("system"),
            String::from_str("org.nixos.darwin-store"),
            String::from_str(NIX_VOLUME_MOUNTD_DEST),
        ) {
            Ok(node) => children.push(node),
            Err(error) => {
                return Err(error);
            },
        }
        match KickstartLaunchctlService::plan(String::from_str("system/org.nixos.darwin-store")) {
            Ok(node) => children.push(node),
            Err(error) => {
                return Err(error);
            },
        }
        match WaitForVolume::plan(String::from_str("/nix")) {
            Ok(node) => children.push(node),
            Err(error) => {
                return Err(error);
            },
        }
        match EnableOwnership::plan(String::from_str("/nix")) {
            Ok(node) => children.push(node),
            Err(error) => {
                return Err(error);
            },
        }
        let action = CreateNixVolume { disk, name, case_sensitive, encrypt };
        let tree = StatefulAction::composed(Action::CreateNixVolume(action), children);
        assert forall|k: int| 0 <= k < tree@.children.len() implies tree@.children[k]
            == (#[trigger] children@[k])@ by {}
        assert(forall|k: int| 0 <= k < tree@.children.len() ==> pending_leaf(#[trigger] tree@.children[k]))
            by {
            assert forall|k: int| 0 <= k < tree@.children.len() implies pending_leaf(
                #[trigger] tree@.children[k],
            ) by {
                assert(tree@.children[k] == children@[k]@);
            }
        }
        assert(tree@.children[0] == children@[0]@);
        assert(tree@.children[1] == children@[1]@);
        assert(tree@.children[2] == children@[2]@);
        assert(tree@.children[3] == children@[3]@);
        assert(tree@.children[4] == children@[4]@);
        assert(tree@.children[5] == children@[5]@);
        assert(tree@.children[6] == children@[6]@);
        assert(tree@.children[7] == children@[7]@);
        assert(tree@.children[8] == children@[8]@);
        assert(tree@.children[9] == children@[9]@);
        if encrypt {
            assert(tree@.children[10] == children@[10]@);
        }
        Ok(tree)
    }
}

} // verus!
