//! What the installer asks the host to do: subprocesses to run and files to
//! write. The library only says what is to be done; doing it is left to the
//! program around it.
use vstd::prelude::*;
use rand::Rng;
use crate::nix_config::plain;
use crate::error::ActionError;
use crate::text::{chars_of, decimal, join, join_with, push_chars, push_decimal, views};

verus! {

/// A subprocess to run: the program, its arguments word by word, and the
/// variables that are set in its environment beside the inherited ones.
#[derive(Debug, PartialEq, Eq)]
pub struct Command {
    pub program: String,
    pub args: Vec<String>,
    pub env: Vec<(String, String)>,
}

/// A command as a plain value.
pub struct CommandLine {
    pub program: Seq<char>,
    pub args: Seq<Seq<char>>,
    pub env: Seq<(Seq<char>, Seq<char>)>,
}

/// The command line of `program` with `args` and nothing set in its
/// environment.
pub open spec fn command_line(program: Seq<char>, args: Seq<Seq<char>>) -> CommandLine {
    CommandLine { program, args, env: Seq::empty() }
}

impl Command {
    /// The command as a plain value.
    pub open spec fn view(&self) -> CommandLine {
        CommandLine { program: self.program@, args: views(self.args@), env: plain(self.env@) }
    }

    /// A command without arguments.
    pub fn new(program: &str) -> (command: Command)
        ensures
            command@ == command_line(program@, Seq::empty()),
    {
        let command = Command { program: String::from_str(program), args: Vec::new(), env: Vec::new() };
        assert(views(command.args@) =~= Seq::<Seq<char>>::empty());
        assert(plain(command.env@) =~= Seq::<(Seq<char>, Seq<char>)>::empty());
        command
    }

    /// The command with one more argument.
    pub fn arg(self, arg: &str) -> (command: Command)
        ensures
            command@ == (CommandLine { args: self@.args.push(arg@), ..self@ }),
    {
        let mut command = self;
        command.args.push(String::from_str(arg));
        assert(views(command.args@) =~= self@.args.push(arg@));
        command
    }

    /// The command with a number, written in decimal, as one more argument.
    pub fn number(self, n: u64) -> (command: Command)
        ensures
            command@ == (CommandLine { args: self@.args.push(decimal(n as nat)), ..self@ }),
    {
        let mut command = self;
        let mut word = String::new();
        push_decimal(&mut word, n);
        assert(word@ =~= decimal(n as nat));
        command.args.push(word);
        assert(views(command.args@) =~= self@.args.push(decimal(n as nat)));
        command
    }

    /// The command with one more variable set in its environment.
    pub fn env(self, name: &str, value: &str) -> (command: Command)
        ensures
            command@ == (CommandLine { env: self@.env.push((name@, value@)), ..self@ }),
    {
        let mut command = self;
        command.env.push((String::from_str(name), String::from_str(value)));
        assert(plain(command.env@) =~= self@.env.push((name@, value@)));
        command
    }
}

/// The command in words: the program and its arguments with a space
/// between neighbours.
pub open spec fn command_words(line: CommandLine) -> Seq<char> {
    join(seq![line.program] + line.args, " "@)
}

/// What is said of a command that did not end with success: the command in
/// words, and what it wrote to its error stream, where that is text.
pub open spec fn failure_text(line: CommandLine, stderr: Option<Seq<char>>) -> Seq<char> {
    "Command `"@ + command_words(line) + "` failed status, stderr:\n"@ + (match stderr {
        Some(text) => text,
        None => "<Non-UTF-8>"@,
    }) + "\n"@
}

impl Command {
    /// The command in words.
    pub fn words(&self) -> (text: String)
        ensures
            text@ == command_words(self@),
    {
        let mut all: Vec<String> = Vec::new();
        all.push(self.program.clone());
        let mut i: usize = 0;
        assert(views(all@) =~= seq![self.program@] + views(self.args@).take(0));
        while i < self.args.len()
            invariant
                i <= self.args@.len(),
                views(all@) == seq![self.program@] + views(self.args@).take(i as int),
            decreases self.args@.len() - i,
        {
            let ghost before = views(all@);
            all.push(self.args[i].clone());
            assert(views(all@) =~= before.push(self.args@[i as int]@));
            assert(views(self.args@).take(i as int + 1) =~= views(self.args@).take(i as int).push(
                self.args@[i as int]@,
            ));
            assert(views(all@) =~= seq![self.program@] + views(self.args@).take(i as int + 1));
            i = i + 1;
        }
        assert(views(self.args@).take(i as int) =~= views(self.args@));
        join_with(&all, " ")
    }

    /// How a run of the command went: well where it ended with `success`,
    /// and else the failure that tells of the command and of what it wrote
    /// to its error stream; `stderr` is absent where that is no text.
    pub fn outcome(&self, success: bool, stderr: Option<&str>) -> (outcome: Result<(), ActionError>)
        ensures
            match outcome {
                Ok(_) => success,
                Err(error) => {
                    &&& !success
                    &&& error matches ActionError::Command(text)
                    &&& text@ == failure_text(
                        self@,
                        match stderr {
                            Some(found) => Some(found@),
                            None => None,
                        },
                    )
                },
            },
    {
        if success {
            return Ok(());
        }
        let wrote = match stderr {
            Some(text) => text,
            None => "<Non-UTF-8>",
        };
        let text = String::from_str("Command `").concat(self.words().as_str()).concat(
            "` failed status, stderr:\n",
        ).concat(wrote).concat("\n");
        Err(ActionError::Command(text))
    }
}

/// The commands of a list as plain values.
pub open spec fn command_lines(commands: Seq<Command>) -> Seq<CommandLine> {
    commands.map_values(|c: Command| c@)
}

/// A list that holds the one command.
pub fn single(command: Command) -> (commands: Vec<Command>)
    ensures
        command_lines(commands@) == seq![command@],
{
    let mut commands: Vec<Command> = Vec::new();
    commands.push(command);
    assert(command_lines(commands@) =~= seq![command@]);
    commands
}

/// A list without commands.
pub fn none() -> (commands: Vec<Command>)
    ensures
        command_lines(commands@) == Seq::<CommandLine>::empty(),
{
    let commands: Vec<Command> = Vec::new();
    assert(command_lines(commands@) =~= Seq::<CommandLine>::empty());
    commands
}

/// One thing to be done on the host.
#[derive(Debug, PartialEq, Eq)]
pub enum Operation {
    /// Create the directory with these permission bits, and hand it to the
    /// user and group where they are named.
    CreateDirectory { path: String, user: Option<String>, group: Option<String>, mode: u32 },
    /// Remove the directory: with all that it holds where `recursive`, and
    /// only if it is empty otherwise.
    RemoveDirectory { path: String, recursive: bool },
    /// Put `contents` at `path` in one step: write them to `temporary`
    /// beside it with the bits `0o600`, flush, set the bits `mode` where
    /// they are given, rename onto `path`, and hand the file to the user and
    /// group where they are named.
    WriteFile {
        path: String,
        temporary: String,
        contents: String,
        mode: Option<u32>,
        user: Option<String>,
        group: Option<String>,
    },
    /// Delete the file, if it is still there.
    RemoveFile { path: String },
    /// Rename `from` to `to`.
    Rename { from: String, to: String },
    /// Fetch the archive at `url` and unpack it into `dest`.
    FetchAndUnpack { url: String, dest: String },
}

/// The place of the last `/` in `path`, or -1 where it has none.
pub open spec fn last_slash(path: Seq<char>) -> int
    decreases path.len(),
{
    if path.len() == 0 {
        -1
    } else if path.last() == '/' {
        path.len() - 1
    } else {
        last_slash(path.drop_last())
    }
}

/// The name of a temporary file beside `path`: in the same directory, named
/// `nix-installer-tmp.` and the number.
pub open spec fn temporary_beside(path: Seq<char>, number: nat) -> Seq<char> {
    path.take(last_slash(path) + 1) + "nix-installer-tmp."@ + decimal(number)
}

/// The name of a temporary file beside `path`, so that a rename from it onto
/// `path` stays within one directory.
pub fn temporary_sibling(path: &str, number: u32) -> (name: String)
    ensures
        name@ == temporary_beside(path@, number as nat),
{
    let chars = chars_of(path);
    let mut keep: usize = 0;
    let mut i: usize = 0;
    assert(path@.take(0) =~= Seq::<char>::empty());
    while i < chars.len()
        invariant
            i <= chars@.len(),
            chars@ == path@,
            keep <= i,
            keep == last_slash(path@.take(i as int)) + 1,
        decreases chars@.len() - i,
    {
        assert(path@.take(i as int + 1).drop_last() =~= path@.take(i as int));
        assert(path@.take(i as int + 1).last() == chars@[i as int]);
        if chars[i] == '/' {
            keep = i + 1;
        }
        i = i + 1;
    }
    assert(path@.take(i as int) =~= path@);
    let mut name = String::new();
    push_chars(&mut name, &chars, 0, keep);
    assert(name@ =~= path@.take(last_slash(path@) + 1));
    name.append("nix-installer-tmp.");
    push_decimal(&mut name, number as u64);
    name
}

/// Draws a number with `rand::Rng::gen` from `rand::thread_rng`. Nothing is
/// claimed of the number.
#[verifier::external_body]
pub(crate) fn random_number() -> (number: u32) {
    rand::thread_rng().gen::<u32>()
}

} // verus!
