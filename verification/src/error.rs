//! What can go wrong while planning, carrying out or undoing an action.
use vstd::prelude::*;

verus! {

/// A failure while an action was carried out or undone.
#[derive(Debug, PartialEq, Eq)]
pub enum ActionError {
    /// A subprocess did not end successfully; the text holds what it wrote to
    /// its error stream.
    Command(String),
    /// A file operation failed at `path`.
    Io { path: String, message: String },
    /// The host no longer matched what the action was planned against.
    Mismatch(String),
    /// Several children of one parallel composite failed.
    Children(Vec<ActionError>),
    /// Cancellation was requested.
    Cancelled,
    /// Any other failure of one action, in words.
    Custom(String),
}

/// A failure as a plain value.
pub enum Failure {
    Command(Seq<char>),
    Io { path: Seq<char>, message: Seq<char> },
    Mismatch(Seq<char>),
    Children(Seq<Failure>),
    Cancelled,
    Custom(Seq<char>),
}

/// The failures of a list as plain values.
pub open spec fn failures(errors: Seq<ActionError>) -> Seq<Failure> {
    Seq::new(errors.len(), |i: int| errors[i]@)
}

/// What a parallel composite reports for the failures of its children:
/// nothing for none, the failure itself for one, `Children` with all of them
/// in order for more.
pub open spec fn gathered(errors: Seq<Failure>) -> Option<Failure> {
    if errors.len() == 0 {
        None
    } else if errors.len() == 1 {
        Some(errors[0])
    } else {
        Some(Failure::Children(errors))
    }
}

impl ActionError {
    /// The failure as a plain value.
    pub open spec fn view(self) -> Failure
        decreases self,
    {
        match self {
            ActionError::Command(text) => Failure::Command(text@),
            ActionError::Io { path, message } => Failure::Io { path: path@, message: message@ },
            ActionError::Mismatch(text) => Failure::Mismatch(text@),
            ActionError::Children(all) => Failure::Children(
                Seq::new(
                    all@.len(),
                    |i: int|
                        if 0 <= i < all@.len() {
                            all@[i].view()
                        } else {
                            arbitrary()
                        },
                ),
            ),
            ActionError::Cancelled => Failure::Cancelled,
            ActionError::Custom(text) => Failure::Custom(text@),
        }
    }

    /// Folds the failures of a parallel composite's children into one report.
    pub fn gather(errors: Vec<ActionError>) -> (report: Option<ActionError>)
        ensures
            match report {
                Some(error) => gathered(failures(errors@)) == Some(error@),
                None => gathered(failures(errors@)) is None,
            },
    {
        let mut errors = errors;
        let ghost all = failures(errors@);
        if errors.len() == 0 {
            None
        } else if errors.len() == 1 {
            errors.pop()
        } else {
            let report = ActionError::Children(errors);
            assert(report@->Children_0 =~= all);
            Some(report)
        }
    }
}

/// A failure found while planning, before anything on the host was changed.
#[derive(Clone, Debug, PartialEq, Eq)]
pub enum PlanningError {
    /// The host is NixOS, which brings its own Nix.
    NixOs,
    /// No planner is known for the host; the text names the host.
    UnsupportedArchitecture(String),
    /// The settings cannot be planned: a build user's id would not fit.
    InvalidSettings(String),
    /// The group exists with another id than planned.
    GroupGidMismatch { name: String, found: u32, planned: u32 },
    /// The user exists with another id than planned.
    UserUidMismatch { name: String, found: u32, planned: u32 },
    /// The user exists with another primary group than planned.
    UserGidMismatch { name: String, found: u32, planned: u32 },
    /// The path exists and the action may not overwrite it.
    PathExists(String),
    /// The path exists and is no regular file.
    PathWasNotFile(String),
    /// The path exists and is no directory.
    PathWasNotDirectory(String),
    /// The path exists with other permission bits than planned.
    PathModeMismatch { path: String, found: u32, planned: u32 },
    /// The path exists and belongs to another user than planned.
    PathUserMismatch { path: String, found: String, planned: String },
    /// The path exists and belongs to another group than planned.
    PathGroupMismatch { path: String, found: String, planned: String },
    /// The address of the Nix archive uses a scheme that cannot be fetched.
    UnknownUrlScheme(String),
    /// The existing Nix configuration could not be read or merged.
    NixConfig(CreateOrMergeNixConfigError),
    /// The channel configuration has no place to go.
    ChannelConfiguration(PlaceChannelConfigurationError),
}

/// Why an existing `nix.conf` cannot be merged with the wanted settings.
#[derive(Clone, Debug, PartialEq, Eq)]
pub enum CreateOrMergeNixConfigError {
    /// The existing file is no valid Nix configuration; the text says why.
    ParseNixConfig(String),
    /// The named settings exist with other values and cannot be merged; the
    /// second field is the file's path.
    UnmergeableConfig(Vec<String>, String),
}

/// Why the channel configuration cannot be placed.
#[derive(Clone, Copy, Debug, PartialEq, Eq, Structural)]
pub enum PlaceChannelConfigurationError {
    /// The root user has no home directory.
    NoRootHome,
}

impl PlanningError {
    /// The message for a failure that a user can be expected to run into.
    pub open spec fn expected_message(self) -> Option<Seq<char>> {
        match self {
            PlanningError::NixOs => Some("NixOS already has Nix installed"@),
            _ => None,
        }
    }

    /// The message to show alone, without the chain of causes, if this is a
    /// failure that a user can be expected to run into.
    pub fn expected(&self) -> (message: Option<String>)
        ensures
            match message {
                Some(text) => self.expected_message() == Some(text@),
                None => self.expected_message() is None,
            },
    {
        match self {
            PlanningError::NixOs => Some(String::from_str("NixOS already has Nix installed")),
            _ => None,
        }
    }
}

} // verus!
