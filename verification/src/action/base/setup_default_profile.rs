//! Setting up the default Nix profile.
use vstd::prelude::*;
use crate::action::run::leaf;
use crate::action::{Action, StatefulAction};
use crate::command::{command_lines, Command, CommandLine};
use crate::error::PlanningError;
use crate::state::ActionState;
use crate::text::views;

verus! {

/// Setup the default Nix profile with the `nss-cacert` and `nix` itself,
/// and update the channels.
#[derive(Debug, PartialEq, Eq)]
pub struct SetupDefaultProfile {
    pub channels: Vec<String>,
}

impl SetupDefaultProfile {
    /// Plans to set up the default profile and update `channels`.
    pub fn plan(channels: Vec<String>) -> (plan: Result<StatefulAction, PlanningError>)
        ensures
            plan matches Ok(node) && node@ == leaf(
                Action::SetupDefaultProfile(SetupDefaultProfile { channels }),
                ActionState::Uncompleted,
            ),
    {
        Ok(
            StatefulAction::uncompleted(
                Action::SetupDefaultProfile(SetupDefaultProfile { channels }),
            ),
        )
    }

    /// The commands that set the profile up, given the store paths of Nix
    /// and of the certificate bundle: both are installed into the profile
    /// with the `nix-env` of the unpacked Nix, then the channels are updated
    /// with its `nix-channel`, which is told where the certificates are.
    pub open spec fn setup_lines(self, nix: Seq<char>, certificates: Seq<char>) -> Seq<CommandLine> {
        seq![
            CommandLine { program: nix + "/bin/nix-env"@, args: seq!["-i"@, nix], env: Seq::empty() },
            CommandLine {
                program: nix + "/bin/nix-env"@,
                args: seq!["-i"@, certificates],
                env: Seq::empty(),
            },
            CommandLine {
                program: nix + "/bin/nix-channel"@,
                args: seq!["--update"@] + views(self.channels@),
                env: seq![
                    ("NIX_SSL_CERT_FILE"@, certificates + "/etc/ssl/certs/ca-bundle.crt"@),
                ],
            },
        ]
    }

    /// The commands that set the profile up, in the order in which they run.
    pub fn execute_commands(&self, nix: &str, certificates: &str) -> (commands: Vec<Command>)
        ensures
            command_lines(commands@) == self.setup_lines(nix@, certificates@),
    {
        let env_tool = String::from_str(nix).concat("/bin/nix-env");
        let channel_tool = String::from_str(nix).concat("/bin/nix-channel");
        let bundle = String::from_str(certificates).concat("/etc/ssl/certs/ca-bundle.crt");
        let mut commands: Vec<Command> = Vec::new();
        let first = Command::new(env_tool.as_str()).arg("-i").arg(nix);
        assert(first@.args =~= self.setup_lines(nix@, certificates@)[0].args);
        commands.push(first);
        let second = Command::new(env_tool.as_str()).arg("-i").arg(certificates);
        assert(second@.args =~= self.setup_lines(nix@, certificates@)[1].args);
        commands.push(second);
        let mut update = Command::new(channel_tool.as_str()).arg("--update");
        let mut i: usize = 0;
        assert(update@.args =~= seq!["--update"@] + views(self.channels@).take(0));
        while i < self.channels.len()
            invariant
                i <= self.channels@.len(),
                update@.program == channel_tool@,
                update@.env == Seq::<(Seq<char>, Seq<char>)>::empty(),
                update@.args == seq!["--update"@] + views(self.channels@).take(i as int),
            decreases self.channels@.len() - i,
        {
            update = update.arg(self.channels[i].as_str());
            assert(update@.args =~= seq!["--update"@] + views(self.channels@).take(i as int + 1));
            i = i + 1;
        }
        assert(views(self.channels@).take(i as int) =~= views(self.channels@));
        let update = update.env("NIX_SSL_CERT_FILE", bundle.as_str());
        assert(update@.env =~= self.setup_lines(nix@, certificates@)[2].env);
        commands.push(update);
        assert(command_lines(commands@) =~= self.setup_lines(nix@, certificates@));
        commands
    }

    /// The commands that undo the action: none.
    pub fn revert_commands(&self) -> (commands: Vec<Command>)
        ensures
            command_lines(commands@) == Seq::<CommandLine>::empty(),
    {
        crate::command::none()
    }
}

} // verus!
