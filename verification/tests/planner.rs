use nix_installer::action::common::create_users_and_groups::CreateUsersAndGroups;
use nix_installer::action::common::place_channel_configuration::PlaceChannelConfiguration;
use nix_installer::action::common::place_nix_configuration::PlaceNixConfiguration;
use nix_installer::action::common::provision_nix::ProvisionNix;
use nix_installer::action::{Action, ActionTag, StatefulAction};
use nix_installer::error::{CreateOrMergeNixConfigError, PlaceChannelConfigurationError, PlanningError};
use nix_installer::facts::{GroupFact, HostFacts, PathFact, PathKind, UserFact};
use nix_installer::host::{describe_host, names_steam_os, Architecture, Host, OperatingSystem};
use nix_installer::plan::InstallPlan;
use nix_installer::planner::{BuiltinPlanner, DarwinMulti, LinuxMulti, PlannerTag, SteamDeck};
use nix_installer::settings::CommonSettings;
use nix_installer::state::ActionState;

fn clean_host() -> HostFacts {
    let mut facts = HostFacts::empty();
    facts.root_home = Some("/root".to_string());
    facts
}

fn tags(actions: &[StatefulAction]) -> Vec<ActionTag> {
    actions.iter().map(|node| node.action.kind()).collect()
}

fn all_uncompleted(node: &StatefulAction) -> bool {
    node.state == ActionState::Uncompleted && node.failure.is_none() && node.children.iter().all(all_uncompleted)
}

fn linux() -> LinuxMulti {
    LinuxMulti::default_for(Architecture::X86_64).unwrap()
}

#[test]
fn default_settings() {
    let settings = CommonSettings::default_for(Architecture::Aarch64, OperatingSystem::Linux).unwrap();
    assert_eq!(settings.nix_build_user_count, 32);
    assert_eq!(settings.nix_build_group_name, "nixbld");
    assert_eq!(settings.nix_build_group_id, 3000);
    assert_eq!(settings.nix_build_user_prefix, "nixbld");
    assert_eq!(settings.nix_build_user_id_base, 3000);
    assert_eq!(
        settings.nix_package_url,
        "https://releases.nixos.org/nix/nix-2.12.0/nix-2.12.0-aarch64-linux.tar.xz"
    );
    assert_eq!(settings.user_name(0), "nixbld0");
    assert_eq!(settings.user_name(31), "nixbld31");
    let darwin = CommonSettings::default_for(Architecture::X86_64, OperatingSystem::Darwin).unwrap();
    assert_eq!(darwin.nix_build_user_prefix, "_nixbld");
    assert_eq!(
        darwin.nix_package_url,
        "https://releases.nixos.org/nix/nix-2.12.0/nix-2.12.0-x86_64-darwin.tar.xz"
    );
    assert_eq!(
        CommonSettings::default_for(Architecture::Other, OperatingSystem::Linux),
        Err(PlanningError::UnsupportedArchitecture("unknown-linux".to_string()))
    );
    assert_eq!(
        CommonSettings::default_for(Architecture::X86_64, OperatingSystem::Other),
        Err(PlanningError::UnsupportedArchitecture("x86_64-unknown".to_string()))
    );
}

#[test]
fn settings_in_words() {
    let mut settings = CommonSettings::default_for(Architecture::X86_64, OperatingSystem::Linux).unwrap();
    settings.extra_conf = vec!["a = 1".to_string(), "b = 2".to_string()];
    let pairs = settings.describe();
    let value = |name: &str| pairs.iter().find(|(n, _)| n == name).map(|(_, v)| v.clone()).unwrap();
    assert_eq!(pairs.len(), 12);
    assert_eq!(value("channels"), "nixpkgs=https://nixos.org/channels/nixpkgs-unstable");
    assert_eq!(value("modify_profile"), "true");
    assert_eq!(value("nix_build_user_count"), "32");
    assert_eq!(value("nix_build_group_id"), "3000");
    assert_eq!(value("extra_conf"), "a = 1,b = 2");
    assert_eq!(value("force"), "false");
    assert_eq!(value("proxy"), "");
}

#[test]
fn plan_only_clean_linux_host() {
    let facts = clean_host();
    let plan = linux().plan(&facts).unwrap();
    assert_eq!(
        tags(&plan.actions),
        vec![
            ActionTag::CreateDirectory,
            ActionTag::ProvisionNix,
            ActionTag::ConfigureNix,
            ActionTag::StartSystemdUnit
        ]
    );
    match &plan.actions[0].action {
        Action::CreateDirectory(directory) => {
            assert_eq!(directory.path, "/nix");
            assert_eq!(directory.user, Some("root".to_string()));
            assert_eq!(directory.group, Some("root".to_string()));
            assert_eq!(directory.mode, 0o755);
            assert!(directory.force);
        },
        other => panic!("unexpected action {:?}", other),
    }
    match &plan.actions[3].action {
        Action::StartSystemdUnit(unit) => assert_eq!(unit.unit, "nix-daemon.socket"),
        other => panic!("unexpected action {:?}", other),
    }
    assert!(plan.actions.iter().all(all_uncompleted));
    assert_eq!(plan.planner, BuiltinPlanner::LinuxMulti(linux()));
    assert_eq!(plan.version, "0.1.0");
    assert_eq!(facts, clean_host());
    assert_eq!(linux().plan(&facts).unwrap(), plan);
}

#[test]
fn provisioning_has_its_children_in_order() {
    let facts = clean_host();
    let settings = linux().settings;
    let tree = ProvisionNix::plan(&settings, &facts).unwrap();
    assert_eq!(
        tags(&tree.children),
        vec![
            ActionTag::CreateUsersAndGroups,
            ActionTag::FetchAndUnpackNix,
            ActionTag::MoveUnpackedNix,
            ActionTag::SetupDefaultProfile,
            ActionTag::PlaceChannelConfiguration
        ]
    );
    let users = &tree.children[0];
    assert_eq!(users.children.len(), 33);
    assert_eq!(users.children[0].action.kind(), ActionTag::CreateGroup);
    for (i, child) in users.children[1..].iter().enumerate() {
        match &child.action {
            Action::CreateUser(user) => {
                assert_eq!(user.name, format!("nixbld{}", i));
                assert_eq!(user.uid, 3000 + i as u32);
                assert_eq!(user.groupname, "nixbld");
                assert_eq!(user.gid, 3000);
            },
            other => panic!("unexpected action {:?}", other),
        }
    }
    match &tree.children[4].children[0].action {
        Action::CreateFile(file) => {
            assert_eq!(file.path, "/root/.nix-channels");
            assert_eq!(file.buf, "https://nixos.org/channels/nixpkgs-unstable nixpkgs");
            assert_eq!(file.mode, Some(0o644));
        },
        other => panic!("unexpected action {:?}", other),
    }
}

#[test]
fn configuration_wants_the_installer_settings() {
    let facts = clean_host();
    let mut planner = linux();
    planner.settings.extra_conf = vec!["cores = 4".to_string(), "experimental-features = x".to_string()];
    let plan = planner.plan(&facts).unwrap();
    let configure = &plan.actions[2];
    assert_eq!(
        tags(&configure.children),
        vec![
            ActionTag::PlaceNixConfiguration,
            ActionTag::ConfigureShellProfile,
            ActionTag::ConfigureNixDaemonService
        ]
    );
    let place = &configure.children[0];
    assert_eq!(tags(&place.children), vec![ActionTag::CreateDirectory, ActionTag::CreateOrMergeNixConfig]);
    match &place.children[1].action {
        Action::CreateOrMergeNixConfig(config) => {
            assert_eq!(config.path, "/etc/nix/nix.conf");
            assert_eq!(config.existing, None);
            let merged: Vec<(String, String)> = (0..config.merged.len())
                .map(|i| config.merged.get_index(i).map(|(n, v)| (n.clone(), v.clone())).unwrap())
                .collect();
            let expected: Vec<(String, String)> = [
                ("cores", "4"),
                ("experimental-features", "nix-command flakes"),
                ("build-users-group", "nixbld"),
                ("auto-optimise-store", "true"),
                ("bash-prompt-prefix", "(nix:$name)\\040"),
            ]
            .iter()
            .map(|(n, v)| (n.to_string(), v.to_string()))
            .collect();
            assert_eq!(merged, expected);
        },
        other => panic!("unexpected action {:?}", other),
    }
    let mut quiet = linux();
    quiet.settings.modify_profile = false;
    let plan = quiet.plan(&facts).unwrap();
    assert_eq!(
        tags(&plan.actions[2].children),
        vec![ActionTag::PlaceNixConfiguration, ActionTag::ConfigureNixDaemonService]
    );
}

#[test]
fn nixos_is_refused_with_an_expected_message() {
    let mut facts = clean_host();
    facts.nixos = true;
    let error = linux().plan(&facts).unwrap_err();
    assert_eq!(error, PlanningError::NixOs);
    assert_eq!(error.expected(), Some("NixOS already has Nix installed".to_string()));
    assert_eq!(PlanningError::UnsupportedArchitecture("riscv64gc-unknown-linux-gnu".to_string()).expected(), None);
}

#[test]
fn what_exists_on_the_host_is_found_done_or_in_the_way() {
    let mut facts = clean_host();
    facts.groups.push(GroupFact { name: "nixbld".to_string(), gid: 3000 });
    facts.users.push(UserFact { name: "nixbld2".to_string(), uid: 3002, gid: 3000 });
    facts.enabled_units.push("nix-daemon.socket".to_string());
    facts.paths.push(PathFact {
        path: "/nix".to_string(),
        kind: PathKind::Directory,
        mode: 0o40755,
        user: "root".to_string(),
        group: "root".to_string(),
        contents: None,
        settings: None,
    });
    let plan = linux().plan(&facts).unwrap();
    assert_eq!(plan.actions[0].state, ActionState::Completed);
    assert_eq!(plan.actions[3].state, ActionState::Completed);
    let users = &plan.actions[1].children[0];
    assert_eq!(users.state, ActionState::Uncompleted);
    assert_eq!(users.children[0].state, ActionState::Completed);
    assert_eq!(users.children[3].state, ActionState::Completed);
    assert_eq!(users.children[2].state, ActionState::Uncompleted);

    for (user, group) in [("nobody", "root"), ("root", "wheel")] {
        facts.paths[0].user = user.to_string();
        facts.paths[0].group = group.to_string();
        let plan = linux().plan(&facts).unwrap();
        assert_eq!(plan.actions[0].state, ActionState::Uncompleted);
        let deck = SteamDeck::default_for(Architecture::X86_64).unwrap().plan(&facts).unwrap();
        assert_eq!(deck.actions[1].state, ActionState::Uncompleted);
    }
    facts.paths[0].user = "root".to_string();
    facts.paths[0].group = "root".to_string();
    let deck = SteamDeck::default_for(Architecture::X86_64).unwrap().plan(&facts).unwrap();
    assert_eq!(deck.actions[1].state, ActionState::Completed);
    match &deck.actions[1].action {
        Action::CreateDirectory(directory) => {
            assert_eq!(directory.user, Some("root".to_string()));
            assert_eq!(directory.group, Some("root".to_string()));
        },
        other => panic!("unexpected action {:?}", other),
    }

    facts.users.push(UserFact { name: "nixbld5".to_string(), uid: 3005, gid: 7 });
    facts.users.push(UserFact { name: "nixbld4".to_string(), uid: 9, gid: 3000 });
    assert_eq!(
        linux().plan(&facts),
        Err(PlanningError::UserUidMismatch { name: "nixbld4".to_string(), found: 9, planned: 3004 })
    );
    facts.groups[0].gid = 1;
    assert_eq!(
        CreateUsersAndGroups::plan(&linux().settings, &facts),
        Err(PlanningError::GroupGidMismatch { name: "nixbld".to_string(), found: 1, planned: 3000 })
    );
}

#[test]
fn ids_must_fit() {
    let mut settings = linux().settings;
    settings.nix_build_user_id_base = u32::MAX - 30;
    assert!(matches!(
        CreateUsersAndGroups::plan(&settings, &clean_host()),
        Err(PlanningError::InvalidSettings(_))
    ));
    settings.nix_build_user_id_base = u32::MAX - 31;
    let tree = CreateUsersAndGroups::plan(&settings, &clean_host()).unwrap();
    match &tree.children[32].action {
        Action::CreateUser(user) => assert_eq!(user.uid, u32::MAX),
        other => panic!("unexpected action {:?}", other),
    }
}

#[test]
fn build_users_differ() {
    let tree = CreateUsersAndGroups::plan(&linux().settings, &clean_host()).unwrap();
    let mut names = std::collections::BTreeSet::new();
    let mut ids = std::collections::BTreeSet::new();
    for child in &tree.children[1..] {
        match &child.action {
            Action::CreateUser(user) => {
                assert!(names.insert(user.name.clone()));
                assert!(ids.insert(user.uid));
            },
            other => panic!("unexpected action {:?}", other),
        }
    }
    assert_eq!(names.len(), 32);
}

#[test]
fn channels_need_a_home() {
    let settings = linux().settings;
    let mut facts = HostFacts::empty();
    assert_eq!(
        PlaceChannelConfiguration::plan(vec![], false, &facts),
        Err(PlanningError::ChannelConfiguration(PlaceChannelConfigurationError::NoRootHome))
    );
    assert_eq!(
        ProvisionNix::plan(&settings, &facts),
        Err(PlanningError::ChannelConfiguration(PlaceChannelConfigurationError::NoRootHome))
    );
    facts.root_home = Some("/var/root".to_string());
    facts.paths.push(PathFact {
        path: "/var/root/.nix-channels".to_string(),
        kind: PathKind::File,
        mode: 0o644,
        user: "root".to_string(),
        group: "wheel".to_string(),
        contents: None,
        settings: None,
    });
    assert_eq!(
        PlaceChannelConfiguration::plan(vec![], false, &facts),
        Err(PlanningError::PathExists("/var/root/.nix-channels".to_string()))
    );
    assert!(PlaceChannelConfiguration::plan(vec![], true, &facts).is_ok());
}

#[test]
fn steam_deck() {
    let plan = SteamDeck::default_for(Architecture::X86_64).unwrap().plan(&clean_host()).unwrap();
    assert_eq!(
        tags(&plan.actions),
        vec![
            ActionTag::CreateSystemdSysext,
            ActionTag::CreateDirectory,
            ActionTag::ProvisionNix,
            ActionTag::StartSystemdUnit
        ]
    );
    match &plan.actions[0].action {
        Action::CreateSystemdSysext(sysext) => assert_eq!(sysext.destination, "/var/lib/extensions/nix"),
        other => panic!("unexpected action {:?}", other),
    }
    assert_eq!(
        tags(&plan.actions[0].children),
        vec![ActionTag::CreateDirectory, ActionTag::CreateFile, ActionTag::StartSystemdUnit]
    );
    assert_eq!(plan.planner.kind(), PlannerTag::SteamDeck);
}

fn darwin(root_disk: Option<&str>) -> DarwinMulti {
    DarwinMulti::default_for(Architecture::Aarch64, root_disk.map(String::from)).unwrap()
}

#[test]
fn darwin_multi() {
    let mut facts = clean_host();
    assert!(matches!(darwin(None).plan(&facts), Err(PlanningError::InvalidSettings(_))));
    facts.root_disk = Some("disk1".to_string());
    let plan: InstallPlan = darwin(None).plan(&facts).unwrap();
    assert_eq!(
        tags(&plan.actions),
        vec![
            ActionTag::CreateNixVolume,
            ActionTag::ProvisionNix,
            ActionTag::ConfigureNix,
            ActionTag::KickstartLaunchctlService
        ]
    );
    match &plan.actions[0].action {
        Action::CreateNixVolume(volume) => {
            assert_eq!(volume.disk, "disk1");
            assert_eq!(volume.name, "Nix Store");
            assert!(!volume.case_sensitive);
            assert!(!volume.encrypt);
        },
        other => panic!("unexpected action {:?}", other),
    }
    assert_eq!(
        tags(&plan.actions[0].children),
        vec![
            ActionTag::CreateOrInsertIntoFile,
            ActionTag::CreateSyntheticObjects,
            ActionTag::UnmountApfsVolume,
            ActionTag::CreateApfsVolume,
            ActionTag::CreateFstabEntry,
            ActionTag::CreateFile,
            ActionTag::BootstrapLaunchctlService,
            ActionTag::KickstartLaunchctlService,
            ActionTag::WaitForVolume,
            ActionTag::EnableOwnership
        ]
    );
    match &plan.actions[0].children[5].action {
        Action::CreateFile(file) => {
            assert_eq!(file.path, "/Library/LaunchDaemons/org.nixos.darwin-store.plist");
            assert_eq!(
                file.buf,
                "<?xml version=\"1.0\" encoding=\"UTF-8\"?>\n<!DOCTYPE plist PUBLIC \"-//Apple Computer//DTD PLIST 1.0//EN\" \"http://www.apple.com/DTDs/PropertyList-1.0.dtd\">\n<plist version=\"1.0\">\n<dict>\n<key>RunAtLoad</key>\n<true/>\n<key>Label</key>\n<string>org.nixos.darwin-store</string>\n<key>ProgramArguments</key>\n<array>\n<string>/usr/sbin/diskutil</string>\n\n<string>mount</string>\n\n<string>-mountPoint</string>\n\n<string>/nix</string>\n\n<string>Nix Store</string>\n</array>\n</dict>\n</plist>\n"
            );
        },
        other => panic!("unexpected action {:?}", other),
    }
    match &plan.actions[3].action {
        Action::KickstartLaunchctlService(kickstart) => assert_eq!(kickstart.unit, "system/org.nixos.nix-daemon"),
        other => panic!("unexpected action {:?}", other),
    }
    let mut encrypted = darwin(Some("disk9"));
    encrypted.volume_encrypt = true;
    let plan = encrypted.plan(&facts).unwrap();
    assert_eq!(plan.actions[0].children.len(), 11);
    assert_eq!(plan.actions[0].children[5].action.kind(), ActionTag::EncryptApfsVolume);
    match &plan.actions[0].children[6].action {
        Action::CreateFile(file) => assert!(file.buf.contains(
            "<string>/usr/bin/security find-generic-password -s \"Nix Store\" -w |  /usr/sbin/diskutil apfs unlockVolume \"Nix Store\" -mountpoint /nix -stdinpassphrase</string>\n"
        )),
        other => panic!("unexpected action {:?}", other),
    }
    match &plan.actions[0].action {
        Action::CreateNixVolume(volume) => assert_eq!(volume.disk, "disk9"),
        other => panic!("unexpected action {:?}", other),
    }
}

fn host_of(architecture: Architecture, os: OperatingSystem, steam_deck: bool) -> Host {
    Host { architecture, os, steam_deck, name: "the-host-triple".to_string() }
}

#[test]
fn planners_for_hosts() {
    let kind = |architecture, os, steam_deck| {
        BuiltinPlanner::for_host(&host_of(architecture, os, steam_deck), None).map(|p| p.kind())
    };
    let unsupported = || Err(PlanningError::UnsupportedArchitecture("the-host-triple".to_string()));
    assert_eq!(kind(Architecture::X86_64, OperatingSystem::Linux, false), Ok(PlannerTag::LinuxMulti));
    assert_eq!(kind(Architecture::Aarch64, OperatingSystem::Linux, false), Ok(PlannerTag::LinuxMulti));
    assert_eq!(kind(Architecture::X86_64, OperatingSystem::Linux, true), Ok(PlannerTag::SteamDeck));
    assert_eq!(kind(Architecture::Aarch64, OperatingSystem::Linux, true), Ok(PlannerTag::SteamDeck));
    assert_eq!(kind(Architecture::X86_64, OperatingSystem::Darwin, false), Ok(PlannerTag::DarwinMulti));
    assert_eq!(kind(Architecture::Aarch64, OperatingSystem::Darwin, false), Ok(PlannerTag::DarwinMulti));
    assert_eq!(kind(Architecture::Aarch64, OperatingSystem::Darwin, true), Ok(PlannerTag::DarwinMulti));
    assert_eq!(kind(Architecture::Other, OperatingSystem::Linux, false), unsupported());
    assert_eq!(kind(Architecture::Other, OperatingSystem::Linux, true), unsupported());
    assert_eq!(kind(Architecture::X86_64, OperatingSystem::Other, false), unsupported());
    let deck = BuiltinPlanner::for_host(&host_of(Architecture::X86_64, OperatingSystem::Linux, true), None);
    assert_eq!(deck, Ok(BuiltinPlanner::SteamDeck(SteamDeck::default_for(Architecture::X86_64).unwrap())));
    let mac = BuiltinPlanner::for_host(
        &host_of(Architecture::Aarch64, OperatingSystem::Darwin, false),
        Some("disk0".to_string()),
    );
    assert_eq!(
        mac,
        Ok(BuiltinPlanner::DarwinMulti(
            DarwinMulti::default_for(Architecture::Aarch64, Some("disk0".to_string())).unwrap()
        ))
    );
}

#[test]
fn a_steam_deck_is_told_by_its_release_file() {
    let steam = "NAME=\"SteamOS\"\nPRETTY_NAME=\"SteamOS\"\nVERSION_CODENAME=holo\nID=steamos\nID_LIKE=arch\n";
    let arch = "NAME=\"Arch Linux\"\nID=arch\nHOME_URL=\"https://steamos.example/ID=steamos\"\n";
    assert!(names_steam_os(steam));
    assert!(names_steam_os("ID=steamos"));
    assert!(!names_steam_os(arch));
    assert!(!names_steam_os("ID=steamos2\n"));
    assert!(!names_steam_os(""));
    assert!(Host::detect(Some(steam)).steam_deck);
    assert!(!Host::detect(Some(arch)).steam_deck);
    assert!(!Host::detect(None).steam_deck);
    let here = Host::detect(None);
    assert!(!here.name.is_empty());
    assert_eq!(describe_host(Architecture::Aarch64, OperatingSystem::Darwin), "aarch64-darwin");
    for (release, deck) in [(Some(steam), true), (Some(arch), false), (None, false)] {
        let host = Host::detect(release);
        let expected = BuiltinPlanner::for_host(&host, Some("disk0".to_string()));
        let found = BuiltinPlanner::default(release, Some("disk0".to_string()));
        assert_eq!(found, expected);
        match found {
            Ok(BuiltinPlanner::SteamDeck(_)) => assert!(deck),
            Ok(BuiltinPlanner::LinuxMulti(_)) => assert!(!deck),
            Ok(BuiltinPlanner::DarwinMulti(planner)) => assert_eq!(planner.root_disk, Some("disk0".to_string())),
            Err(error) => assert_eq!(error, PlanningError::UnsupportedArchitecture(host.name)),
        }
    }
    match (LinuxMulti::default(), SteamDeck::default(), DarwinMulti::default(None)) {
        (Ok(linux), Ok(deck), Ok(darwin)) => {
            assert_eq!(linux.settings, deck.settings);
            assert_eq!(darwin.volume_label, "Nix Store");
            assert_eq!(Ok(linux), LinuxMulti::default_for(here.architecture));
        },
        (Err(_), Err(_), Err(_)) => assert_eq!(here.architecture, Architecture::Other),
        other => panic!("the planners disagree on the host: {:?}", other),
    }
}

#[test]
fn extra_configuration_must_be_a_configuration_of_its_own() {
    let plan = |extra: &[&str], facts: &HostFacts| {
        let lines: Vec<String> = extra.iter().map(|line| line.to_string()).collect();
        PlaceNixConfiguration::plan("nixbld".to_string(), &lines, false, facts)
    };
    assert!(matches!(plan(&["include /etc/nix/extra.conf"], &clean_host()), Err(PlanningError::InvalidSettings(_))));
    assert!(matches!(plan(&["  !include /etc/nix/extra.conf"], &clean_host()), Err(PlanningError::InvalidSettings(_))));
    assert!(plan(&["cores = 4 # include /etc/nix/extra.conf"], &clean_host()).is_ok());
    assert!(plan(&["extra-substituters = include"], &clean_host()).is_ok());
    let mut resolved = clean_host();
    resolved.extra_settings = Some(vec![
        ("cores".to_string(), "4".to_string()),
        ("max-jobs".to_string(), "2".to_string()),
        ("cores".to_string(), "8".to_string()),
    ]);
    let tree = plan(&["cores = 4", "include /etc/nix/extra.conf"], &resolved).unwrap();
    match &tree.children[1].action {
        Action::CreateOrMergeNixConfig(merge) => {
            assert_eq!(merge.merged.get(&"cores".to_string()), Some(&"8".to_string()));
            assert_eq!(merge.merged.get(&"max-jobs".to_string()), Some(&"2".to_string()));
            assert_eq!(merge.merged.get(&"build-users-group".to_string()), Some(&"nixbld".to_string()));
        },
        other => panic!("unexpected action {:?}", other),
    }
    let tree = plan(&["cores = 4"], &resolved).unwrap();
    match &tree.children[1].action {
        Action::CreateOrMergeNixConfig(merge) => {
            assert_eq!(merge.merged.get(&"cores".to_string()), Some(&"4".to_string()));
            assert_eq!(merge.merged.get(&"max-jobs".to_string()), None);
        },
        other => panic!("unexpected action {:?}", other),
    }
    assert!(matches!(plan(&["cores"], &clean_host()), Err(PlanningError::InvalidSettings(_))));
    assert!(plan(&["cores = 4", "max-jobs = 2"], &clean_host()).is_ok());
    let mut facts = clean_host();
    facts.paths.push(PathFact {
        path: "/etc/nix/nix.conf".to_string(),
        kind: PathKind::File,
        mode: 0o644,
        user: "root".to_string(),
        group: "root".to_string(),
        contents: Some("build-users-group = wheel\nauto-optimise-store = false\n".to_string()),
        settings: None,
    });
    assert_eq!(
        plan(&[], &facts),
        Err(PlanningError::NixConfig(CreateOrMergeNixConfigError::UnmergeableConfig(
            vec!["build-users-group".to_string(), "auto-optimise-store".to_string()],
            "/etc/nix/nix.conf".to_string()
        )))
    );
    facts.paths[0].contents = Some("experimental-features = flakes\n".to_string());
    let tree = plan(&[], &facts).unwrap();
    assert_eq!(tree.children[1].state, ActionState::Uncompleted);
    match &tree.children[1].action {
        Action::CreateOrMergeNixConfig(config) => {
            assert_eq!(config.merged.get("experimental-features"), Some(&"nix-command flakes".to_string()));
            assert_eq!(config.merged.len(), 4);
        },
        other => panic!("unexpected action {:?}", other),
    }
}
