//! Registering the Nix daemon with the service manager of the host.
use vstd::prelude::*;
use crate::action::run::leaf;
use crate::action::{Action, StatefulAction};
use crate::command::{command_line, command_lines, Command, CommandLine};
use crate::error::PlanningError;
use crate::host::OperatingSystem;
use crate::state::ActionState;

verus! {

/// Where the Nix profile keeps the service unit of the daemon.
pub const SERVICE_SRC: &'static str =
    "/nix/var/nix/profiles/default/lib/systemd/system/nix-daemon.service";

/// Where the Nix profile keeps the socket unit of the daemon.
pub const SOCKET_SRC: &'static str =
    "/nix/var/nix/profiles/default/lib/systemd/system/nix-daemon.socket";

/// Where the Nix profile keeps the launchd description of the daemon.
pub const DARWIN_NIX_DAEMON_SOURCE: &'static str =
    "/nix/var/nix/profiles/default/Library/LaunchDaemons/org.nixos.nix-daemon.plist";

/// Where launchd looks for the description of the daemon.
pub const DARWIN_NIX_DAEMON_DEST: &'static str = "/Library/LaunchDaemons/org.nixos.nix-daemon.plist";

/// Make the Nix daemon known to systemd, or to launchd on macOS.
#[derive(Debug, PartialEq, Eq)]
pub struct ConfigureNixDaemonService {
}

impl ConfigureNixDaemonService {
    /// Plans to register the daemon.
    pub fn plan() -> (plan: Result<StatefulAction, PlanningError>)
        ensures
            plan matches Ok(node) && node@ == leaf(
                Action::ConfigureNixDaemonService(ConfigureNixDaemonService {  }),
                ActionState::Uncompleted,
            ),
    {
        Ok(
            StatefulAction::uncompleted(
                Action::ConfigureNixDaemonService(ConfigureNixDaemonService {  }),
            ),
        )
    }

    /// The commands that register the daemon, in the order in which they
    /// run: on macOS the description is copied to where launchd looks and
    /// loaded; elsewhere the state directories are made, both units are
    /// linked, and systemd reads its units anew.
    pub open spec fn execute_lines(host: OperatingSystem) -> Seq<CommandLine> {
        if host == OperatingSystem::Darwin {
            seq![
                command_line("/bin/cp"@, seq![DARWIN_NIX_DAEMON_SOURCE@, DARWIN_NIX_DAEMON_DEST@]),
                command_line("/bin/launchctl"@, seq!["load"@, DARWIN_NIX_DAEMON_DEST@]),
            ]
        } else {
            seq![
                command_line("systemd-tmpfiles"@, seq!["--create"@, "--prefix=/nix/var/nix"@]),
                command_line("systemctl"@, seq!["link"@, SERVICE_SRC@]),
                command_line("systemctl"@, seq!["link"@, SOCKET_SRC@]),
                command_line("systemctl"@, seq!["daemon-reload"@]),
            ]
        }
    }

    /// The commands that take the registration back, in the order in which
    /// they run.
    pub open spec fn revert_lines(host: OperatingSystem) -> Seq<CommandLine> {
        if host == OperatingSystem::Darwin {
            seq![command_line("/bin/launchctl"@, seq!["unload"@, DARWIN_NIX_DAEMON_DEST@])]
        } else {
            seq![
                command_line("systemctl"@, seq!["disable"@, SOCKET_SRC@]),
                command_line("systemctl"@, seq!["disable"@, SERVICE_SRC@]),
                command_line("systemd-tmpfiles"@, seq!["--remove"@, "--prefix=/nix/var/nix"@]),
                command_line("systemctl"@, seq!["daemon-reload"@]),
            ]
        }
    }

    /// The commands that register the daemon, in the order in which they run.
    pub fn execute_commands(&self, host: OperatingSystem) -> (commands: Vec<Command>)
        ensures
            command_lines(commands@) == Self::execute_lines(host),
    {
        let mut commands: Vec<Command> = Vec::new();
        if host == OperatingSystem::Darwin {
            let copy = Command::new("/bin/cp").arg(DARWIN_NIX_DAEMON_SOURCE).arg(DARWIN_NIX_DAEMON_DEST);
            assert(copy@.args =~= Self::execute_lines(host)[0].args);
            commands.push(copy);
            let load = Command::new("/bin/launchctl").arg("load").arg(DARWIN_NIX_DAEMON_DEST);
            assert(load@.args =~= Self::execute_lines(host)[1].args);
            commands.push(load);
        } else {
            let files = Command::new("systemd-tmpfiles").arg("--create").arg("--prefix=/nix/var/nix");
            assert(files@.args =~= Self::execute_lines(host)[0].args);
            commands.push(files);
            let service = Command::new("systemctl").arg("link").arg(SERVICE_SRC);
            assert(service@.args =~= Self::execute_lines(host)[1].args);
            commands.push(service);
            let socket = Command::new("systemctl").arg("link").arg(SOCKET_SRC);
            assert(socket@.args =~= Self::execute_lines(host)[2].args);
            commands.push(socket);
            let reload = Command::new("systemctl").arg("daemon-reload");
            assert(reload@.args =~= Self::execute_lines(host)[3].args);
            commands.push(reload);
        }
        assert(command_lines(commands@) =~= Self::execute_lines(host));
        commands
    }

    /// The commands that take the registration back, in the order in which
    /// they run.
    pub fn revert_commands(&self, host: OperatingSystem) -> (commands: Vec<Command>)
        ensures
            command_lines(commands@) == Self::revert_lines(host),
    {
        let mut commands: Vec<Command> = Vec::new();
        if host == OperatingSystem::Darwin {
            let unload = Command::new("/bin/launchctl").arg("unload").arg(DARWIN_NIX_DAEMON_DEST);
            assert(unload@.args =~= Self::revert_lines(host)[0].args);
            commands.push(unload);
        } else {
            let socket = Command::new("systemctl").arg("disable").arg(SOCKET_SRC);
            assert(socket@.args =~= Self::revert_lines(host)[0].args);
            commands.push(socket);
            let service = Command::new("systemctl").arg("disable").arg(SERVICE_SRC);
            assert(service@.args =~= Self::revert_lines(host)[1].args);
            commands.push(service);
            let files = Command::new("systemd-tmpfiles").arg("--remove").arg("--prefix=/nix/var/nix");
            assert(files@.args =~= Self::revert_lines(host)[2].args);
            commands.push(files);
            let reload = Command::new("systemctl").arg("daemon-reload");
            assert(reload@.args =~= Self::revert_lines(host)[3].args);
            commands.push(reload);
        }
        assert(command_lines(commands@) =~= Self::revert_lines(host));
        commands
    }
}

} // verus!
