//! Actions for Linux hosts.
pub mod create_systemd_sysext;
pub mod start_systemd_unit;
