//! The kind of machine that the installer runs on.
use vstd::prelude::*;
use crate::text::{holds_text, split, split_on, views};

verus! {

/// The operating systems that the installer tells apart.
#[derive(Clone, Copy, PartialEq, Eq, Structural, Debug)]
pub enum OperatingSystem {
    Linux,
    Darwin,
    Other,
}

/// The processor architectures that the installer tells apart.
#[derive(Clone, Copy, PartialEq, Eq, Structural, Debug)]
pub enum Architecture {
    X86_64,
    Aarch64,
    Other,
}

/// Calls `target_lexicon::OperatingSystem::host`, which is fixed when the
/// program is built, and sorts its answer into the three kinds above: macOS
/// under either of its names is `Darwin`. Nothing is claimed of the answer.
#[verifier::external_body]
pub(crate) fn host_operating_system() -> (os: OperatingSystem) {
    match target_lexicon::OperatingSystem::host() {
        target_lexicon::OperatingSystem::Linux => OperatingSystem::Linux,
        target_lexicon::OperatingSystem::Darwin => OperatingSystem::Darwin,
        target_lexicon::OperatingSystem::MacOSX { .. } => OperatingSystem::Darwin,
        _ => OperatingSystem::Other,
    }
}

/// Calls `target_lexicon::Architecture::host`, which is fixed when the
/// program is built, and sorts its answer into the three kinds above.
/// Nothing is claimed of the answer.
#[verifier::external_body]
pub(crate) fn host_architecture() -> (arch: Architecture) {
    match target_lexicon::Architecture::host() {
        target_lexicon::Architecture::X86_64 => Architecture::X86_64,
        target_lexicon::Architecture::Aarch64(_) => Architecture::Aarch64,
        _ => Architecture::Other,
    }
}

/// Hands out the name of the host that the program was built for, as
/// `target_lexicon::HOST` writes it. Nothing is claimed of the name.
#[verifier::external_body]
pub(crate) fn host_name() -> (name: String) {
    target_lexicon::HOST.to_string()
}

/// The host that the installer runs on.
#[derive(Debug, PartialEq, Eq)]
pub struct Host {
    pub architecture: Architecture,
    pub os: OperatingSystem,
    /// Whether the host runs SteamOS, as a Steam Deck does.
    pub steam_deck: bool,
    /// The name of the host, for messages.
    pub name: String,
}

/// Whether the text of `/etc/os-release` tells of SteamOS: one of its lines
/// is `ID=steamos`.
pub open spec fn steam_os(os_release: Seq<char>) -> bool {
    split(os_release, '\n').contains("ID=steamos"@)
}

/// Whether the text of `/etc/os-release` tells of SteamOS.
pub fn names_steam_os(os_release: &str) -> (found: bool)
    ensures
        found == steam_os(os_release@),
{
    let lines = split_on(os_release, '\n');
    let wanted = String::from_str("ID=steamos");
    holds_text(&lines, &wanted)
}

/// The name of an architecture in words.
pub open spec fn architecture_word(architecture: Architecture) -> Seq<char> {
    match architecture {
        Architecture::X86_64 => "x86_64"@,
        Architecture::Aarch64 => "aarch64"@,
        Architecture::Other => "unknown"@,
    }
}

/// The name of an operating system in words.
pub open spec fn os_word(os: OperatingSystem) -> Seq<char> {
    match os {
        OperatingSystem::Linux => "linux"@,
        OperatingSystem::Darwin => "darwin"@,
        OperatingSystem::Other => "unknown"@,
    }
}

/// A host in words, as far as the installer tells hosts apart: its
/// architecture, `-` and its operating system.
pub open spec fn host_words(architecture: Architecture, os: OperatingSystem) -> Seq<char> {
    architecture_word(architecture) + "-"@ + os_word(os)
}

/// A host in words, as far as the installer tells hosts apart.
pub fn describe_host(architecture: Architecture, os: OperatingSystem) -> (words: String)
    ensures
        words@ == host_words(architecture, os),
{
    let first = match architecture {
        Architecture::X86_64 => "x86_64",
        Architecture::Aarch64 => "aarch64",
        Architecture::Other => "unknown",
    };
    let second = match os {
        OperatingSystem::Linux => "linux",
        OperatingSystem::Darwin => "darwin",
        OperatingSystem::Other => "unknown",
    };
    String::from_str(first).concat("-").concat(second)
}

impl Host {
    /// The host that the program was built for. Whether it is a Steam Deck
    /// is told by the text of `/etc/os-release`, where there is one; what
    /// else the host is, is not the library's to say.
    pub fn detect(os_release: Option<&str>) -> (host: Host)
        ensures
            host.steam_deck == (match os_release {
                Some(text) => steam_os(text@),
                None => false,
            }),
    {
        let steam_deck = match os_release {
            Some(text) => names_steam_os(text),
            None => false,
        };
        Host {
            architecture: host_architecture(),
            os: host_operating_system(),
            steam_deck,
            name: host_name(),
        }
    }
}

} // verus!
