//! Actions that themselves have no other actions as dependencies.
pub mod create_directory;
pub mod create_file;
pub mod create_group;
pub mod create_or_insert_into_file;
pub mod create_or_merge_nix_config;
pub mod create_user;
pub mod fetch_and_unpack_nix;
pub mod move_unpacked_nix;
pub mod setup_default_profile;
