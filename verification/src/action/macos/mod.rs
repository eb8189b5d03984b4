//! Actions for macOS hosts.
pub mod bootstrap_launchctl_service;
pub mod create_apfs_volume;
pub mod create_fstab_entry;
pub mod create_nix_volume;
pub mod create_synthetic_objects;
pub mod enable_ownership;
pub mod encrypt_apfs_volume;
pub mod kickstart_launchctl_service;
pub mod unmount_apfs_volume;
pub mod wait_for_volume;
