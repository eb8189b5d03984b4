//! Actions which only call other actions, and which most hosts need.
pub mod configure_nix;
pub mod configure_nix_daemon_service;
pub mod configure_shell_profile;
pub mod create_users_and_groups;
pub mod place_channel_configuration;
pub mod place_nix_configuration;
pub mod provision_nix;
