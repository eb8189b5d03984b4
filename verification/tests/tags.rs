use nix_installer::action::ActionTag;
use nix_installer::planner::PlannerTag;

const TAGS: [(ActionTag, &str); 28] = [
    (ActionTag::CreateDirectory, "create_directory"),
    (ActionTag::CreateFile, "create_file"),
    (ActionTag::CreateGroup, "create_group"),
    (ActionTag::CreateOrInsertIntoFile, "create_or_insert_into_file"),
    (ActionTag::CreateOrMergeNixConfig, "create_or_merge_nix_config"),
    (ActionTag::CreateUser, "create_user"),
    (ActionTag::FetchAndUnpackNix, "fetch_and_unpack_nix"),
    (ActionTag::MoveUnpackedNix, "mount_unpacked_nix"),
    (ActionTag::SetupDefaultProfile, "setup_default_profile"),
    (ActionTag::ConfigureNix, "configure_nix"),
    (ActionTag::ConfigureNixDaemonService, "configure_nix_daemon"),
    (ActionTag::ConfigureShellProfile, "configure_shell_profile"),
    (ActionTag::CreateUsersAndGroups, "create_users_and_group"),
    (ActionTag::PlaceChannelConfiguration, "place_channel_configuration"),
    (ActionTag::PlaceNixConfiguration, "place_nix_configuration"),
    (ActionTag::ProvisionNix, "provision_nix"),
    (ActionTag::CreateSystemdSysext, "create_systemd_sysext"),
    (ActionTag::StartSystemdUnit, "start_systemd_unit"),
    (ActionTag::BootstrapLaunchctlService, "bootstrap_launchctl_service"),
    (ActionTag::CreateApfsVolume, "create_volume"),
    (ActionTag::CreateFstabEntry, "create_fstab_entry"),
    (ActionTag::CreateNixVolume, "create_apfs_volume"),
    (ActionTag::CreateSyntheticObjects, "create_synthetic_objects"),
    (ActionTag::EnableOwnership, "enable_ownership"),
    (ActionTag::EncryptApfsVolume, "encrypt_volume"),
    (ActionTag::KickstartLaunchctlService, "kickstart_launchctl_service"),
    (ActionTag::UnmountApfsVolume, "unmount_volume"),
    (ActionTag::WaitForVolume, "wait_for_volume"),
];

#[test]
fn action_tags_are_stable_and_read_back() {
    for (tag, name) in TAGS {
        assert_eq!(tag.name(), name);
        assert_eq!(ActionTag::from_name(&name.to_string()), Some(tag));
    }
    assert_eq!(ActionTag::from_name(&"create_groups".to_string()), None);
    assert_eq!(ActionTag::from_name(&"".to_string()), None);
}

#[test]
fn planner_tags_are_stable_and_read_back() {
    for (tag, name) in [
        (PlannerTag::LinuxMulti, "linux-multi"),
        (PlannerTag::DarwinMulti, "darwin-multi"),
        (PlannerTag::SteamDeck, "steam-deck"),
    ] {
        assert_eq!(tag.name(), name);
        assert_eq!(PlannerTag::from_name(&name.to_string()), Some(tag));
    }
    assert_eq!(PlannerTag::from_name(&"linux".to_string()), None);
}
