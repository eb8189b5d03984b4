//! Creating one build user.
use vstd::prelude::*;
use crate::action::run::leaf;
use crate::action::{Action, StatefulAction};
use crate::command::{command_line, command_lines, Command, CommandLine};
use crate::error::PlanningError;
use crate::host::OperatingSystem;
use crate::state::ActionState;
use crate::text::decimal;

verus! {

/// Create an operating system level user in the given group.
#[derive(Debug, PartialEq, Eq)]
pub struct CreateUser {
    pub name: String,
    pub uid: u32,
    pub groupname: String,
    pub gid: u32,
}

/// The `dscl` command that sets one property of a user.
pub open spec fn dscl_create_line(name: Seq<char>, key: Seq<char>, value: Seq<char>) -> CommandLine {
    command_line("/usr/bin/dscl"@, seq!["."@, "-create"@, "/Users/"@ + name, key, value])
}

fn dscl_create(name: &str, key: &str, value: &str) -> (command: Command)
    ensures
        command@ == dscl_create_line(name@, key@, value@),
{
    let record = String::from_str("/Users/").concat(name);
    let command = Command::new("/usr/bin/dscl").arg(".").arg("-create").arg(record.as_str()).arg(key).arg(
        value,
    );
    assert(command@.args =~= dscl_create_line(name@, key@, value@).args);
    command
}

impl CreateUser {
    /// Plans the user. `existing` holds the ids of the user of that name on
    /// the host and of its group, if there is such a user: with the planned
    /// ids the work is done already, with others the user cannot be planned.
    pub fn plan(
        name: String,
        uid: u32,
        groupname: String,
        gid: u32,
        existing: Option<(u32, u32)>,
    ) -> (plan: Result<StatefulAction, PlanningError>)
        ensures
            match existing {
                None => plan matches Ok(node) && node@ == leaf(
                    Action::CreateUser(CreateUser { name, uid, groupname, gid }),
                    ActionState::Uncompleted,
                ),
                Some((found_uid, found_gid)) => if found_uid != uid {
                    plan == Err::<StatefulAction, PlanningError>(
                        PlanningError::UserUidMismatch { name, found: found_uid, planned: uid },
                    )
                } else if found_gid != gid {
                    plan == Err::<StatefulAction, PlanningError>(
                        PlanningError::UserGidMismatch { name, found: found_gid, planned: gid },
                    )
                } else {
                    plan matches Ok(node) && node@ == leaf(
                        Action::CreateUser(CreateUser { name, uid, groupname, gid }),
                        ActionState::Completed,
                    )
                },
            },
    {
        match existing {
            None => Ok(
                StatefulAction::uncompleted(Action::CreateUser(CreateUser { name, uid, groupname, gid })),
            ),
            Some((found_uid, found_gid)) => {
                if found_uid != uid {
                    Err(PlanningError::UserUidMismatch { name, found: found_uid, planned: uid })
                } else if found_gid != gid {
                    Err(PlanningError::UserGidMismatch { name, found: found_gid, planned: gid })
                } else {
                    Ok(
                        StatefulAction::completed(
                            Action::CreateUser(CreateUser { name, uid, groupname, gid }),
                        ),
                    )
                }
            },
        }
    }

    /// The commands that create the user, in the order in which they run.
    ///
    /// On macOS the user record is created and given its id, its group, an
    /// empty home, no login shell and the hidden flag; then the user is
    /// added to the group. Elsewhere one `useradd` does all of it.
    pub open spec fn creation_lines(self, host: OperatingSystem) -> Seq<CommandLine> {
        if host == OperatingSystem::Darwin {
            seq![
                command_line("/usr/bin/dscl"@, seq!["."@, "-create"@, "/Users/"@ + self.name@]),
                dscl_create_line(self.name@, "UniqueID"@, decimal(self.uid as nat)),
                dscl_create_line(self.name@, "PrimaryGroupID"@, decimal(self.gid as nat)),
                dscl_create_line(self.name@, "NFSHomeDirectory"@, "/var/empty"@),
                dscl_create_line(self.name@, "UserShell"@, "/sbin/nologin"@),
                dscl_create_line(self.name@, "IsHidden"@, "1"@),
                command_line(
                    "/usr/bin/dscl"@,
                    seq![
                        "."@,
                        "-append"@,
                        "/Groups/"@ + self.groupname@,
                        "GroupMembership"@,
                        self.name@,
                    ],
                ),
                command_line(
                    "/usr/sbin/dseditgroup"@,
                    seq!["-o"@, "edit"@, "-a"@, self.name@, "-t"@, "user"@, self.groupname@],
                ),
            ]
        } else {
            seq![
                command_line(
                    "useradd"@,
                    seq![
                        "--home-dir"@,
                        "/var/empty"@,
                        "--comment"@,
                        "\"Nix build user\""@,
                        "--gid"@,
                        decimal(self.gid as nat),
                        "--groups"@,
                        decimal(self.gid as nat),
                        "--no-user-group"@,
                        "--system"@,
                        "--shell"@,
                        "/sbin/nologin"@,
                        "--uid"@,
                        decimal(self.uid as nat),
                        "--password"@,
                        "\"!\""@,
                        self.name@,
                    ],
                ),
            ]
        }
    }

    /// The command that deletes the user.
    pub open spec fn removal_line(self) -> CommandLine {
        command_line("userdel"@, seq![self.name@])
    }

    /// The commands that create the user, in the order in which they run.
    pub fn execute_commands(&self, host: OperatingSystem) -> (commands: Vec<Command>)
        ensures
            command_lines(commands@) == self.creation_lines(host),
    {
        let mut commands: Vec<Command> = Vec::new();
        let name = self.name.as_str();
        if host == OperatingSystem::Darwin {
            let record = String::from_str("/Users/").concat(name);
            let bare = Command::new("/usr/bin/dscl").arg(".").arg("-create").arg(record.as_str());
            assert(bare@.args =~= self.creation_lines(host)[0].args);
            commands.push(bare);
            let mut uid = String::new();
            crate::text::push_decimal(&mut uid, self.uid as u64);
            assert(uid@ =~= decimal(self.uid as nat));
            commands.push(dscl_create(name, "UniqueID", uid.as_str()));
            let mut gid = String::new();
            crate::text::push_decimal(&mut gid, self.gid as u64);
            assert(gid@ =~= decimal(self.gid as nat));
            commands.push(dscl_create(name, "PrimaryGroupID", gid.as_str()));
            commands.push(dscl_create(name, "NFSHomeDirectory", "/var/empty"));
            commands.push(dscl_create(name, "UserShell", "/sbin/nologin"));
            commands.push(dscl_create(name, "IsHidden", "1"));
            let group = String::from_str("/Groups/").concat(self.groupname.as_str());
            let append = Command::new("/usr/bin/dscl").arg(".").arg("-append").arg(group.as_str()).arg(
                "GroupMembership",
            ).arg(name);
            assert(append@.args =~= self.creation_lines(host)[6].args);
            commands.push(append);
            let edit = Command::new("/usr/sbin/dseditgroup").arg("-o").arg("edit").arg("-a").arg(name).arg(
                "-t",
            ).arg("user").arg(self.groupname.as_str());
            assert(edit@.args =~= self.creation_lines(host)[7].args);
            commands.push(edit);
        } else {
            let add = Command::new("useradd").arg("--home-dir").arg("/var/empty").arg("--comment").arg(
                "\"Nix build user\"",
            ).arg("--gid").number(self.gid as u64).arg("--groups").number(self.gid as u64).arg(
                "--no-user-group",
            ).arg("--system").arg("--shell").arg("/sbin/nologin").arg("--uid").number(
                self.uid as u64,
            ).arg("--password").arg("\"!\"").arg(name);
            assert(add@.args =~= self.creation_lines(host)[0].args);
            commands.push(add);
        }
        assert(command_lines(commands@) =~= self.creation_lines(host));
        commands
    }

    /// The commands that delete the user. On macOS the user is left in
    /// place, and nothing is run.
    pub fn revert_commands(&self, host: OperatingSystem) -> (commands: Vec<Command>)
        ensures
            command_lines(commands@) == (if host == OperatingSystem::Darwin {
                Seq::empty()
            } else {
                seq![self.removal_line()]
            }),
    {
        let mut commands: Vec<Command> = Vec::new();
        if host != OperatingSystem::Darwin {
            let command = Command::new("userdel").arg(self.name.as_str());
            assert(command@.args =~= self.removal_line().args);
            commands.push(command);
        }
        assert(command_lines(commands@) =~= if host == OperatingSystem::Darwin {
            Seq::<CommandLine>::empty()
        } else {
            seq![self.removal_line()]
        });
        commands
    }
}

} // verus!
