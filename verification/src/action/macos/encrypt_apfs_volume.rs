//! Encrypting an APFS volume.
use vstd::prelude::*;
use crate::action::run::leaf;
use crate::action::{Action, StatefulAction};
use crate::command::{command_line, command_lines, random_number, single, Command, CommandLine};
use crate::error::PlanningError;
use crate::state::ActionState;
use crate::text::{decimal, push_decimal};

verus! {

/// Encrypt an APFS volume.
#[derive(Debug, PartialEq, Eq)]
pub struct EncryptApfsVolume {
    pub disk: String,
    pub name: String,
}

/// The numerals of the numbers, one after another.
pub open spec fn numerals(numbers: Seq<u32>) -> Seq<char>
    decreases numbers.len(),
{
    if numbers.len() == 0 {
        Seq::empty()
    } else {
        numerals(numbers.drop_last()) + decimal(numbers.last() as nat)
    }
}

impl EncryptApfsVolume {
    /// Plans to encrypt the volume `name` on `disk`.
    pub fn plan(disk: String, name: String) -> (plan: Result<StatefulAction, PlanningError>)
        ensures
            plan matches Ok(node) && node@ == leaf(
                Action::EncryptApfsVolume(EncryptApfsVolume { disk, name }),
                ActionState::Uncompleted,
            ),
    {
        Ok(StatefulAction::uncompleted(Action::EncryptApfsVolume(EncryptApfsVolume { disk, name })))
    }

    /// The commands that encrypt the volume with `password`: the password
    /// goes into the system keychain under the name of the volume, where
    /// the mount service finds it, and the volume is encrypted with it.
    pub open spec fn execute_lines(self, password: Seq<char>) -> Seq<CommandLine> {
        seq![
            command_line(
                "/usr/bin/security"@,
                seq![
                    "add-generic-password"@,
                    "-a"@,
                    self.name@,
                    "-s"@,
                    self.name@,
                    "-D"@,
                    "Encrypted volume password"@,
                    "-w"@,
                    password,
                    "-T"@,
                    "/System/Library/CoreServices/APFSUserAgent"@,
                    "-T"@,
                    "/System/Library/CoreServices/CSUserAgent"@,
                    "-T"@,
                    "/usr/bin/security"@,
                    "/Library/Keychains/System.keychain"@,
                ],
            ),
            command_line(
                "/usr/sbin/diskutil"@,
                seq![
                    "apfs"@,
                    "encryptVolume"@,
                    self.name@,
                    "-user"@,
                    "disk"@,
                    "-passphrase"@,
                    password,
                ],
            ),
        ]
    }

    /// The command that takes the password out of the keychain again.
    pub open spec fn revert_line(self) -> CommandLine {
        command_line(
            "/usr/bin/security"@,
            seq!["delete-generic-password"@, "-a"@, self.name@, "-s"@, self.name@],
        )
    }

    /// The commands that encrypt the volume with `password`, in the order
    /// in which they run.
    pub fn execute_commands(&self, password: &str) -> (commands: Vec<Command>)
        ensures
            command_lines(commands@) == self.execute_lines(password@),
    {
        let name = self.name.as_str();
        let mut commands: Vec<Command> = Vec::new();
        let keep = Command::new("/usr/bin/security").arg("add-generic-password").arg("-a").arg(name).arg(
            "-s",
        ).arg(name).arg("-D").arg("Encrypted volume password").arg("-w").arg(password).arg("-T").arg(
            "/System/Library/CoreServices/APFSUserAgent",
        ).arg("-T").arg("/System/Library/CoreServices/CSUserAgent").arg("-T").arg(
            "/usr/bin/security",
        ).arg("/Library/Keychains/System.keychain");
        assert(keep@.args =~= self.execute_lines(password@)[0].args);
        commands.push(keep);
        let encrypt = Command::new("/usr/sbin/diskutil").arg("apfs").arg("encryptVolume").arg(name).arg(
            "-user",
        ).arg("disk").arg("-passphrase").arg(password);
        assert(encrypt@.args =~= self.execute_lines(password@)[1].args);
        commands.push(encrypt);
        assert(command_lines(commands@) =~= self.execute_lines(password@));
        commands
    }

    /// A password made of the numerals of the numbers.
    pub fn password_of(numbers: &Vec<u32>) -> (password: String)
        ensures
            password@ == numerals(numbers@),
    {
        let mut password = String::new();
        let mut i: usize = 0;
        assert(numbers@.take(0) =~= Seq::<u32>::empty());
        assert(password@ =~= numerals(numbers@.take(0)));
        while i < numbers.len()
            invariant
                i <= numbers@.len(),
                password@ == numerals(numbers@.take(i as int)),
            decreases numbers@.len() - i,
        {
            assert(numbers@.take(i as int + 1).drop_last() =~= numbers@.take(i as int));
            assert(numbers@.take(i as int + 1).last() == numbers@[i as int]);
            push_decimal(&mut password, numbers[i] as u64);
            i = i + 1;
        }
        assert(numbers@.take(i as int) =~= numbers@);
        password
    }

    /// The commands that encrypt the volume with a password made of four
    /// numbers drawn at random.
    pub fn execute_plan(&self) -> (commands: Vec<Command>)
        ensures
            exists|numbers: Seq<u32>|
                numbers.len() == 4 && command_lines(commands@) == #[trigger] self.execute_lines(
                    numerals(numbers),
                ),
    {
        let mut numbers: Vec<u32> = Vec::new();
        numbers.push(random_number());
        numbers.push(random_number());
        numbers.push(random_number());
        numbers.push(random_number());
        let password = Self::password_of(&numbers);
        let commands = self.execute_commands(password.as_str());
        assert(numbers@.len() == 4 && command_lines(commands@) == self.execute_lines(
            numerals(numbers@),
        ));
        commands
    }

    /// The command that takes the password out of the keychain again.
    pub fn revert_commands(&self) -> (commands: Vec<Command>)
        ensures
            command_lines(commands@) == seq![self.revert_line()],
    {
        let name = self.name.as_str();
        let command = Command::new("/usr/bin/security").arg("delete-generic-password").arg("-a").arg(
            name,
        ).arg("-s").arg(name);
        assert(command@.args =~= self.revert_line().args);
        single(command)
    }
}

} // verus!
