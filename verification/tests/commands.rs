use nix_installer::action::base::create_directory::CreateDirectory;
use nix_installer::action::base::create_file::CreateFile;
use nix_installer::action::base::create_group::CreateGroup;
use nix_installer::action::base::create_user::CreateUser;
use nix_installer::action::base::fetch_and_unpack_nix::FetchAndUnpackNix;
use nix_installer::action::base::move_unpacked_nix::MoveUnpackedNix;
use nix_installer::action::base::setup_default_profile::SetupDefaultProfile;
use nix_installer::action::common::configure_nix_daemon_service::ConfigureNixDaemonService;
use nix_installer::action::linux::start_systemd_unit::StartSystemdUnit;
use nix_installer::action::macos::bootstrap_launchctl_service::BootstrapLaunchctlService;
use nix_installer::action::macos::create_apfs_volume::CreateApfsVolume;
use nix_installer::action::macos::create_fstab_entry::CreateFstabEntry;
use nix_installer::action::macos::enable_ownership::EnableOwnership;
use nix_installer::action::macos::encrypt_apfs_volume::EncryptApfsVolume;
use nix_installer::action::macos::kickstart_launchctl_service::KickstartLaunchctlService;
use nix_installer::action::macos::unmount_apfs_volume::UnmountApfsVolume;
use nix_installer::action::macos::wait_for_volume::{Wait, WaitForVolume};
use nix_installer::action::{Action, StatefulAction};
use nix_installer::command::{Command, Operation};
use nix_installer::error::{ActionError, PlanningError};
use nix_installer::facts::{PathFact, PathKind};
use nix_installer::host::OperatingSystem;
use nix_installer::planner::DarwinMulti;
use nix_installer::state::ActionState;

fn line(command: &Command) -> String {
    let mut words = vec![command.program.clone()];
    words.extend(command.args.iter().cloned());
    words.join("|")
}

fn lines(commands: &[Command]) -> Vec<String> {
    commands.iter().map(line).collect()
}

fn leaf(action: Action, state: ActionState) -> StatefulAction {
    StatefulAction { action, state, children: vec![], failure: None }
}

fn group() -> CreateGroup {
    CreateGroup { name: "nixbld".to_string(), gid: 3000 }
}

fn user() -> CreateUser {
    CreateUser { name: "nixbld1".to_string(), uid: 3001, groupname: "nixbld".to_string(), gid: 3000 }
}

#[test]
fn group_is_planned_against_the_host() {
    assert_eq!(
        CreateGroup::plan("nixbld".to_string(), 3000, None),
        Ok(leaf(Action::CreateGroup(group()), ActionState::Uncompleted))
    );
    assert_eq!(
        CreateGroup::plan("nixbld".to_string(), 3000, Some(3000)),
        Ok(leaf(Action::CreateGroup(group()), ActionState::Completed))
    );
    assert_eq!(
        CreateGroup::plan("nixbld".to_string(), 3000, Some(30)),
        Err(PlanningError::GroupGidMismatch { name: "nixbld".to_string(), found: 30, planned: 3000 })
    );
}

#[test]
fn group_commands() {
    assert_eq!(
        lines(&group().execute_commands(OperatingSystem::Linux, false)),
        vec!["groupadd|-g|3000|--system|nixbld"]
    );
    assert_eq!(
        lines(&group().execute_commands(OperatingSystem::Linux, true)),
        vec!["groupadd|-g|3000|--system|nixbld"]
    );
    assert_eq!(
        lines(&group().execute_commands(OperatingSystem::Darwin, false)),
        vec!["/usr/sbin/dseditgroup|-o|create|-r|Nix build group|-i|3000|nixbld"]
    );
    assert!(group().execute_commands(OperatingSystem::Darwin, true).is_empty());
    assert_eq!(
        group().existence_probe(OperatingSystem::Darwin).map(|c| line(&c)),
        Some("/usr/bin/dscl|.|-read|/Groups/nixbld".to_string())
    );
    assert_eq!(group().existence_probe(OperatingSystem::Linux), None);
    assert_eq!(lines(&group().revert_commands(OperatingSystem::Linux)), vec!["groupdel|nixbld"]);
    assert!(group().revert_commands(OperatingSystem::Darwin).is_empty());
}

#[test]
fn user_is_planned_against_the_host() {
    let plan = |existing| CreateUser::plan("nixbld1".to_string(), 3001, "nixbld".to_string(), 3000, existing);
    assert_eq!(plan(None), Ok(leaf(Action::CreateUser(user()), ActionState::Uncompleted)));
    assert_eq!(plan(Some((3001, 3000))), Ok(leaf(Action::CreateUser(user()), ActionState::Completed)));
    assert_eq!(
        plan(Some((7, 3000))),
        Err(PlanningError::UserUidMismatch { name: "nixbld1".to_string(), found: 7, planned: 3001 })
    );
    assert_eq!(
        plan(Some((3001, 8))),
        Err(PlanningError::UserGidMismatch { name: "nixbld1".to_string(), found: 8, planned: 3000 })
    );
    assert_eq!(
        plan(Some((7, 8))),
        Err(PlanningError::UserUidMismatch { name: "nixbld1".to_string(), found: 7, planned: 3001 })
    );
}

#[test]
fn user_commands_on_linux() {
    assert_eq!(
        lines(&user().execute_commands(OperatingSystem::Linux)),
        vec![
            "useradd|--home-dir|/var/empty|--comment|\"Nix build user\"|--gid|3000|--groups|3000|--no-user-group|--system|--shell|/sbin/nologin|--uid|3001|--password|\"!\"|nixbld1"
        ]
    );
    assert_eq!(lines(&user().revert_commands(OperatingSystem::Linux)), vec!["userdel|nixbld1"]);
}

#[test]
fn user_commands_on_macos() {
    assert_eq!(
        lines(&user().execute_commands(OperatingSystem::Darwin)),
        vec![
            "/usr/bin/dscl|.|-create|/Users/nixbld1",
            "/usr/bin/dscl|.|-create|/Users/nixbld1|UniqueID|3001",
            "/usr/bin/dscl|.|-create|/Users/nixbld1|PrimaryGroupID|3000",
            "/usr/bin/dscl|.|-create|/Users/nixbld1|NFSHomeDirectory|/var/empty",
            "/usr/bin/dscl|.|-create|/Users/nixbld1|UserShell|/sbin/nologin",
            "/usr/bin/dscl|.|-create|/Users/nixbld1|IsHidden|1",
            "/usr/bin/dscl|.|-append|/Groups/nixbld|GroupMembership|nixbld1",
            "/usr/sbin/dseditgroup|-o|edit|-a|nixbld1|-t|user|nixbld",
        ]
    );
    assert!(user().revert_commands(OperatingSystem::Darwin).is_empty());
}

#[test]
fn systemd_unit() {
    let unit = StartSystemdUnit { unit: "nix-daemon.socket".to_string() };
    assert_eq!(lines(&unit.execute_commands()), vec!["systemctl|enable|--now|nix-daemon.socket"]);
    assert_eq!(lines(&unit.revert_commands()), vec!["systemctl|disable|--now|nix-daemon.socket"]);
    assert_eq!(line(&StartSystemdUnit::probe_command("x.service")), "systemctl|is-enabled|x.service");
    assert_eq!(StartSystemdUnit::plan("u".to_string(), true).unwrap().state, ActionState::Completed);
    assert_eq!(StartSystemdUnit::plan("u".to_string(), false).unwrap().state, ActionState::Uncompleted);
}

#[test]
fn daemon_registration() {
    let action = ConfigureNixDaemonService {};
    assert_eq!(
        lines(&action.execute_commands(OperatingSystem::Linux)),
        vec![
            "systemd-tmpfiles|--create|--prefix=/nix/var/nix",
            "systemctl|link|/nix/var/nix/profiles/default/lib/systemd/system/nix-daemon.service",
            "systemctl|link|/nix/var/nix/profiles/default/lib/systemd/system/nix-daemon.socket",
            "systemctl|daemon-reload",
        ]
    );
    assert_eq!(
        lines(&action.execute_commands(OperatingSystem::Darwin)),
        vec![
            "/bin/cp|/nix/var/nix/profiles/default/Library/LaunchDaemons/org.nixos.nix-daemon.plist|/Library/LaunchDaemons/org.nixos.nix-daemon.plist",
            "/bin/launchctl|load|/Library/LaunchDaemons/org.nixos.nix-daemon.plist",
        ]
    );
    assert_eq!(action.revert_commands(OperatingSystem::Linux).len(), 4);
    assert_eq!(
        lines(&action.revert_commands(OperatingSystem::Darwin)),
        vec!["/bin/launchctl|unload|/Library/LaunchDaemons/org.nixos.nix-daemon.plist"]
    );
}

#[test]
fn volume_commands() {
    let volume = CreateApfsVolume { disk: "disk1".to_string(), name: "Nix Store".to_string(), case_sensitive: false };
    assert_eq!(
        lines(&volume.execute_commands()),
        vec!["/usr/sbin/diskutil|apfs|addVolume|disk1|APFS|Nix Store|-nomount"]
    );
    let volume = CreateApfsVolume { case_sensitive: true, ..volume };
    assert_eq!(
        lines(&volume.execute_commands()),
        vec!["/usr/sbin/diskutil|apfs|addVolume|disk1|Case-sensitive APFS|Nix Store|-nomount"]
    );
    assert_eq!(lines(&volume.revert_commands()), vec!["/usr/sbin/diskutil|apfs|deleteVolume|Nix Store"]);
    let unmount = UnmountApfsVolume { disk: "disk1".to_string(), name: "Nix Store".to_string() };
    assert_eq!(lines(&unmount.execute_commands()), vec!["/usr/sbin/diskutil|unmount|force|Nix Store"]);
    assert_eq!(lines(&unmount.revert_commands()), vec!["/usr/sbin/diskutil|unmount|force|Nix Store"]);
    let bootstrap = BootstrapLaunchctlService {
        domain: "system".to_string(),
        service: "org.nixos.darwin-store".to_string(),
        path: "/Library/LaunchDaemons/org.nixos.darwin-store.plist".to_string(),
    };
    assert_eq!(
        lines(&bootstrap.execute_commands()),
        vec!["/bin/launchctl|bootstrap|system|/Library/LaunchDaemons/org.nixos.darwin-store.plist"]
    );
    assert_eq!(
        lines(&bootstrap.revert_commands()),
        vec!["/bin/launchctl|bootout|system|/Library/LaunchDaemons/org.nixos.darwin-store.plist"]
    );
    let kickstart = KickstartLaunchctlService { unit: "system/org.nixos.nix-daemon".to_string() };
    assert_eq!(lines(&kickstart.execute_commands()), vec!["/bin/launchctl|kickstart|-k|system/org.nixos.nix-daemon"]);
    assert!(kickstart.revert_commands().is_empty());
}

#[test]
fn encryption_commands() {
    let action = EncryptApfsVolume { disk: "disk1".to_string(), name: "Nix Store".to_string() };
    let commands = action.execute_commands("secret");
    assert_eq!(commands.len(), 2);
    assert_eq!(
        line(&commands[1]),
        "/usr/sbin/diskutil|apfs|encryptVolume|Nix Store|-user|disk|-passphrase|secret"
    );
    assert!(line(&commands[0]).starts_with("/usr/bin/security|add-generic-password|-a|Nix Store|-s|Nix Store|"));
    assert!(line(&commands[0]).contains("|-w|secret|"));
    assert_eq!(EncryptApfsVolume::password_of(&vec![1, 20, 300]), "120300");
    assert_eq!(EncryptApfsVolume::password_of(&vec![]), "");
    let drawn = action.execute_plan();
    let password = drawn[1].args[6].clone();
    assert!(!password.is_empty());
    assert!(password.chars().all(|c| c.is_ascii_digit()));
    assert_eq!(drawn, action.execute_commands(&password));
    assert_eq!(
        lines(&action.revert_commands()),
        vec!["/usr/bin/security|delete-generic-password|-a|Nix Store|-s|Nix Store"]
    );
}

fn info(enabled: &str) -> Vec<u8> {
    format!(
        "<?xml version=\"1.0\" encoding=\"UTF-8\"?>\n<!DOCTYPE plist PUBLIC \"-//Apple//DTD PLIST 1.0//EN\" \"http://www.apple.com/DTDs/PropertyList-1.0.dtd\">\n<plist version=\"1.0\">\n<dict>\n<key>GlobalPermissionsEnabled</key>\n<{}/>\n<key>ParentWholeDisk</key>\n<string>disk3</string>\n</dict>\n</plist>\n",
        enabled
    )
    .into_bytes()
}

#[test]
fn ownership_is_enabled_only_where_it_is_off() {
    let action = EnableOwnership { path: "/nix".to_string() };
    assert_eq!(line(&action.info_command()), "/usr/sbin/diskutil|info|-plist|/nix");
    assert_eq!(
        action.execute_commands(&info("false")).map(|c| lines(&c)),
        Ok(vec!["/usr/sbin/diskutil|enableOwnership|/nix".to_string()])
    );
    assert_eq!(action.execute_commands(&info("true")).map(|c| lines(&c)), Ok(vec![]));
    assert!(matches!(action.execute_commands(&b"no plist".to_vec()), Err(ActionError::Custom(_))));
    assert!(matches!(action.execute_commands(&Vec::new()), Err(ActionError::Custom(_))));
    assert_eq!(action.commands_for(Some(false)).map(|c| c.len()), Ok(1));
    assert_eq!(action.commands_for(Some(true)).map(|c| c.len()), Ok(0));
    assert!(matches!(action.commands_for(None), Err(ActionError::Custom(_))));
    assert!(action.revert_commands().is_empty());
}

#[test]
fn root_disk_is_read_from_the_property_list() {
    assert_eq!(DarwinMulti::root_disk_of(&info("true")), Some("disk3".to_string()));
    assert_eq!(DarwinMulti::root_disk_of(&b"<plist><dict></dict></plist>".to_vec()), None);
    assert_eq!(DarwinMulti::root_disk_of(&b"garbage".to_vec()), None);
}

#[test]
fn the_volume_is_asked_for_at_most_fifty_times() {
    let node = WaitForVolume::plan("/nix".to_string()).unwrap();
    let wait = match &node.action {
        Action::WaitForVolume(wait) => wait,
        other => panic!("unexpected action {:?}", other),
    };
    assert_eq!(wait.attempts, 50);
    assert_eq!(wait.interval, 100);
    assert_eq!(line(&wait.probe_command()), "/usr/sbin/diskutil|info|/nix");
    assert_eq!(wait.after_probe(50, true), Wait::Ready);
    assert_eq!(wait.after_probe(1, false), Wait::Ready);
    assert_eq!(wait.after_probe(0, false), Wait::Ready);
    assert_eq!(wait.after_probe(2, false), Wait::Retry { remaining: 1, sleep: 100 });
    assert_eq!(wait.after_probe(50, false), Wait::Retry { remaining: 49, sleep: 100 });
    let mut remaining = wait.attempts;
    let mut probes = 1;
    let mut slept = 0;
    while let Wait::Retry { remaining: left, sleep } = wait.after_probe(remaining, false) {
        remaining = left;
        slept += sleep;
        probes += 1;
    }
    assert_eq!(probes, 50);
    assert_eq!(slept, 4900);
}

#[test]
fn fetching() {
    for url in ["https://releases.nixos.org/x.tar.xz", "http://example.org/x", "file:///tmp/x"] {
        let node = FetchAndUnpackNix::plan(url.to_string(), "/nix/temp-install-dir".to_string()).unwrap();
        assert_eq!(node.state, ActionState::Uncompleted);
    }
    assert_eq!(
        FetchAndUnpackNix::plan("ftp://example.org/x".to_string(), "/d".to_string()),
        Err(PlanningError::UnknownUrlScheme("ftp://example.org/x".to_string()))
    );
    let action = FetchAndUnpackNix { url: "https://e/x".to_string(), dest: "/d".to_string() };
    assert_eq!(
        action.execute_operations(),
        vec![Operation::FetchAndUnpack { url: "https://e/x".to_string(), dest: "/d".to_string() }]
    );
    assert_eq!(
        action.revert_operations(),
        vec![Operation::RemoveDirectory { path: "/d".to_string(), recursive: true }]
    );
}

#[test]
fn moving_the_store() {
    let action = MoveUnpackedNix { src: "/nix/temp-install-dir".to_string() };
    assert_eq!(action.pattern(), "/nix/temp-install-dir/nix-*");
    assert_eq!(
        action.execute_operations(&vec!["/nix/temp-install-dir/nix-2.12.0".to_string()]),
        Ok(vec![
            Operation::Rename {
                from: "/nix/temp-install-dir/nix-2.12.0/store".to_string(),
                to: "/nix/store".to_string()
            },
            Operation::RemoveDirectory { path: "/nix/temp-install-dir".to_string(), recursive: true },
        ])
    );
    assert!(matches!(action.execute_operations(&vec![]), Err(ActionError::Mismatch(_))));
    assert!(matches!(
        action.execute_operations(&vec!["a".to_string(), "b".to_string()]),
        Err(ActionError::Mismatch(_))
    ));
    assert!(action.revert_operations().is_empty());
}

#[test]
fn default_profile() {
    let action = SetupDefaultProfile { channels: vec!["nixpkgs".to_string(), "other".to_string()] };
    let commands = action.execute_commands("/nix/store/abc-nix-2.12.0", "/nix/store/def-nss-cacert");
    assert_eq!(
        lines(&commands),
        vec![
            "/nix/store/abc-nix-2.12.0/bin/nix-env|-i|/nix/store/abc-nix-2.12.0",
            "/nix/store/abc-nix-2.12.0/bin/nix-env|-i|/nix/store/def-nss-cacert",
            "/nix/store/abc-nix-2.12.0/bin/nix-channel|--update|nixpkgs|other",
        ]
    );
    assert!(commands[0].env.is_empty());
    assert_eq!(
        commands[2].env,
        vec![(
            "NIX_SSL_CERT_FILE".to_string(),
            "/nix/store/def-nss-cacert/etc/ssl/certs/ca-bundle.crt".to_string()
        )]
    );
    assert!(action.revert_commands().is_empty());
}

#[test]
fn files() {
    assert_eq!(
        CreateFile::plan("/f".to_string(), None, None, Some(0o644), "x".to_string(), false, true),
        Err(PlanningError::PathExists("/f".to_string()))
    );
    let node = CreateFile::plan("/d/f".to_string(), None, None, Some(0o644), "x".to_string(), true, true).unwrap();
    let file = match &node.action {
        Action::CreateFile(file) => file,
        other => panic!("unexpected action {:?}", other),
    };
    assert_eq!(
        file.execute_operations(3),
        vec![Operation::WriteFile {
            path: "/d/f".to_string(),
            temporary: "/d/nix-installer-tmp.3".to_string(),
            contents: "x".to_string(),
            mode: Some(0o644),
            user: None,
            group: None,
        }]
    );
    assert_eq!(file.revert_operations(), vec![Operation::RemoveFile { path: "/d/f".to_string() }]);
}

fn found(kind: PathKind, mode: u32, user: &str, group: &str) -> PathFact {
    PathFact {
        path: "/nix".to_string(),
        kind,
        mode,
        user: user.to_string(),
        group: group.to_string(),
        contents: None,
        settings: None,
    }
}

#[test]
fn directories() {
    let plan = |user: Option<&str>, force, existing: Option<&PathFact>| {
        CreateDirectory::plan("/nix".to_string(), user.map(String::from), None, 0o755, force, existing)
    };
    let fresh = plan(None, false, None).unwrap();
    assert_eq!(fresh.state, ActionState::Uncompleted);
    let good = found(PathKind::Directory, 0o40755, "root", "root");
    let done = plan(Some("root"), false, Some(&good)).unwrap();
    assert_eq!(done.state, ActionState::Completed);
    assert_eq!(
        plan(None, false, Some(&found(PathKind::File, 0o755, "root", "root"))),
        Err(PlanningError::PathWasNotDirectory("/nix".to_string()))
    );
    assert_eq!(
        plan(None, false, Some(&found(PathKind::Directory, 0o700, "root", "root"))),
        Err(PlanningError::PathModeMismatch { path: "/nix".to_string(), found: 0o700, planned: 0o755 })
    );
    assert_eq!(
        plan(Some("nix"), false, Some(&good)),
        Err(PlanningError::PathUserMismatch {
            path: "/nix".to_string(),
            found: "root".to_string(),
            planned: "nix".to_string()
        })
    );
    assert_eq!(
        CreateDirectory::plan("/nix".to_string(), None, Some("nix".to_string()), 0o755, false, Some(&good)),
        Err(PlanningError::PathGroupMismatch {
            path: "/nix".to_string(),
            found: "root".to_string(),
            planned: "nix".to_string()
        })
    );
    let forced = plan(None, true, Some(&found(PathKind::Directory, 0o700, "root", "root"))).unwrap();
    assert_eq!(forced.state, ActionState::Uncompleted);
    let own = |node: &StatefulAction| match &node.action {
        Action::CreateDirectory(directory) => (directory.created, directory.revert_operations()),
        other => panic!("unexpected action {:?}", other),
    };
    assert_eq!(
        own(&fresh),
        (true, vec![Operation::RemoveDirectory { path: "/nix".to_string(), recursive: true }])
    );
    assert_eq!(
        own(&forced),
        (false, vec![Operation::RemoveDirectory { path: "/nix".to_string(), recursive: false }])
    );
    match &fresh.action {
        Action::CreateDirectory(directory) => assert_eq!(
            directory.execute_operations(),
            vec![Operation::CreateDirectory { path: "/nix".to_string(), user: None, group: None, mode: 0o755 }]
        ),
        other => panic!("unexpected action {:?}", other),
    }
}

#[test]
fn fstab_entry() {
    let action = CreateFstabEntry { apfs_volume_label: "Nix Store".to_string() };
    let entry = "NAME=\"Nix Store\" /nix apfs rw,noauto,nobrowse,suid,owners\n";
    let contents = |operations: &[Operation]| match &operations[0] {
        Operation::WriteFile { path, contents, mode, .. } => {
            assert_eq!(path, "/etc/fstab");
            assert_eq!(*mode, None);
            contents.clone()
        },
        other => panic!("unexpected operation {:?}", other),
    };
    assert_eq!(contents(&action.execute_operations(None, 1)), entry);
    let after = contents(&action.execute_operations(Some("# table\n"), 1));
    assert_eq!(after, format!("# table\n{}", entry));
    assert_eq!(contents(&action.revert_operations(Some(&after), 2)), "# table\n");
    assert!(action.revert_operations(None, 2).is_empty());
}

#[test]
fn a_failed_command_is_told_with_its_words_and_what_it_wrote() {
    let command = Command::new("/usr/sbin/diskutil").arg("info").arg("/nix");
    assert_eq!(command.words(), "/usr/sbin/diskutil info /nix");
    assert_eq!(command.outcome(true, Some("ignored")), Ok(()));
    assert_eq!(
        command.outcome(false, Some("no such volume")),
        Err(ActionError::Command(
            "Command `/usr/sbin/diskutil info /nix` failed status, stderr:\nno such volume\n".to_string()
        ))
    );
    assert_eq!(
        command.outcome(false, None),
        Err(ActionError::Command(
            "Command `/usr/sbin/diskutil info /nix` failed status, stderr:\n<Non-UTF-8>\n".to_string()
        ))
    );
    assert_eq!(Command::new("true").words(), "true");
}
