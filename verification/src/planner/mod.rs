//! Planners: what is to be done on a host of a given kind.
pub mod darwin;
pub mod linux;
pub mod specific;

use vstd::prelude::*;
use crate::error::PlanningError;
use crate::facts::HostFacts;
use crate::host::{steam_os, Architecture, Host, OperatingSystem};
use crate::plan::InstallPlan;
use crate::action::base::create_directory::text_of;
use crate::settings::{package_url, same_optional, CommonSettings};
use crate::nix_config::plain;
use crate::text::text_is;
pub use darwin::DarwinMulti;
pub use linux::LinuxMulti;
pub use specific::SteamDeck;

verus! {

/// The planners that the installer brings along.
#[derive(Debug, PartialEq, Eq)]
pub enum BuiltinPlanner {
    /// A multi-user installation on Linux.
    LinuxMulti(LinuxMulti),
    /// A multi-user installation on macOS, on a volume of its own.
    DarwinMulti(DarwinMulti),
    /// An installation on the Steam Deck.
    SteamDeck(SteamDeck),
}

/// The kinds of planner. Each kind has a name under which its plans are
/// written to a receipt.
#[derive(Clone, Copy, PartialEq, Eq, Structural, Debug)]
pub enum PlannerTag {
    LinuxMulti,
    DarwinMulti,
    SteamDeck,
}

impl PlannerTag {
    /// The name of the kind in a receipt.
    pub open spec fn word(self) -> Seq<char> {
        match self {
            PlannerTag::LinuxMulti => "linux-multi"@,
            PlannerTag::DarwinMulti => "darwin-multi"@,
            PlannerTag::SteamDeck => "steam-deck"@,
        }
    }

    /// The kind that a receipt name stands for.
    pub open spec fn of_word(word: Seq<char>) -> Option<PlannerTag> {
        if word == "linux-multi"@ {
            Some(PlannerTag::LinuxMulti)
        } else if word == "darwin-multi"@ {
            Some(PlannerTag::DarwinMulti)
        } else if word == "steam-deck"@ {
            Some(PlannerTag::SteamDeck)
        } else {
            None
        }
    }

    /// The operating system that planners of this kind plan for.
    pub open spec fn os(self) -> OperatingSystem {
        match self {
            PlannerTag::LinuxMulti => OperatingSystem::Linux,
            PlannerTag::DarwinMulti => OperatingSystem::Darwin,
            PlannerTag::SteamDeck => OperatingSystem::Linux,
        }
    }

    /// The operating system that planners of this kind plan for.
    pub fn operating_system(&self) -> (os: OperatingSystem)
        ensures
            os == self.os(),
    {
        match self {
            PlannerTag::LinuxMulti => OperatingSystem::Linux,
            PlannerTag::DarwinMulti => OperatingSystem::Darwin,
            PlannerTag::SteamDeck => OperatingSystem::Linux,
        }
    }

    /// The name of the kind in a receipt.
    pub fn name(&self) -> (word: &'static str)
        ensures
            word@ == self.word(),
    {
        match self {
            PlannerTag::LinuxMulti => "linux-multi",
            PlannerTag::DarwinMulti => "darwin-multi",
            PlannerTag::SteamDeck => "steam-deck",
        }
    }

    /// The kind that a receipt name stands for, if it names one.
    pub fn from_name(word: &String) -> (tag: Option<PlannerTag>)
        ensures
            tag == Self::of_word(word@),
    {
        if text_is(word, "linux-multi") {
            Some(PlannerTag::LinuxMulti)
        } else if text_is(word, "darwin-multi") {
            Some(PlannerTag::DarwinMulti)
        } else if text_is(word, "steam-deck") {
            Some(PlannerTag::SteamDeck)
        } else {
            None
        }
    }

    /// A name stands for the kind that is written as that name.
    pub proof fn lemma_word_unique(word: Seq<char>, tag: PlannerTag)
        requires
            Self::of_word(word) == Some(tag),
        ensures
            tag.word() == word,
    {
    }

    /// Writing the kind of a planner as its receipt name and reading the
    /// name back gives the kind.
    pub proof fn lemma_word_round_trip(tag: PlannerTag)
        ensures
            Self::of_word(tag.word()) == Some(tag),
    {
        reveal_strlit("linux-multi");
        reveal_strlit("darwin-multi");
        reveal_strlit("steam-deck");
        assert("linux-multi"@.len() == 11);
        assert("darwin-multi"@.len() == 12);
        assert("steam-deck"@.len() == 10);
    }
}

/// The planner for a host, if the installer has one: on 64 bit Intel and
/// ARM processors, `SteamDeck` for Linux on a Steam Deck, `LinuxMulti` for
/// any other Linux, and `DarwinMulti` for macOS.
pub open spec fn planner_for(architecture: Architecture, os: OperatingSystem, steam_deck: bool) -> Option<
    PlannerTag,
> {
    if architecture == Architecture::Other {
        None
    } else {
        match os {
            OperatingSystem::Linux => if steam_deck {
                Some(PlannerTag::SteamDeck)
            } else {
                Some(PlannerTag::LinuxMulti)
            },
            OperatingSystem::Darwin => Some(PlannerTag::DarwinMulti),
            OperatingSystem::Other => None,
        }
    }
}

impl BuiltinPlanner {
    /// The kind of the planner.
    pub open spec fn tag(self) -> PlannerTag {
        match self {
            BuiltinPlanner::LinuxMulti(_) => PlannerTag::LinuxMulti,
            BuiltinPlanner::DarwinMulti(_) => PlannerTag::DarwinMulti,
            BuiltinPlanner::SteamDeck(_) => PlannerTag::SteamDeck,
        }
    }

    /// The kind of the planner.
    pub fn kind(&self) -> (tag: PlannerTag)
        ensures
            tag == self.tag(),
    {
        match self {
            BuiltinPlanner::LinuxMulti(_) => PlannerTag::LinuxMulti,
            BuiltinPlanner::DarwinMulti(_) => PlannerTag::DarwinMulti,
            BuiltinPlanner::SteamDeck(_) => PlannerTag::SteamDeck,
        }
    }

    /// The settings of the planner as names with their values in words.
    pub open spec fn described(self) -> Seq<(Seq<char>, Seq<char>)> {
        match self {
            BuiltinPlanner::LinuxMulti(planner) => planner.described(),
            BuiltinPlanner::DarwinMulti(planner) => planner.described(),
            BuiltinPlanner::SteamDeck(planner) => planner.described(),
        }
    }

    /// The settings of the planner as names with their values in words.
    pub fn settings(&self) -> (pairs: Vec<(String, String)>)
        ensures
            plain(pairs@) == self.described(),
    {
        match self {
            BuiltinPlanner::LinuxMulti(planner) => planner.settings(),
            BuiltinPlanner::DarwinMulti(planner) => planner.settings(),
            BuiltinPlanner::SteamDeck(planner) => planner.settings(),
        }
    }

    /// The settings that every planner takes, as this planner holds them.
    pub open spec fn common(self) -> CommonSettings {
        match self {
            BuiltinPlanner::LinuxMulti(planner) => planner.settings,
            BuiltinPlanner::DarwinMulti(planner) => planner.settings,
            BuiltinPlanner::SteamDeck(planner) => planner.settings,
        }
    }

    /// Whether the two planners are of one kind and hold the same settings.
    pub open spec fn same(self, other: BuiltinPlanner) -> bool {
        match (self, other) {
            (BuiltinPlanner::LinuxMulti(a), BuiltinPlanner::LinuxMulti(b)) => a.settings.same(
                b.settings,
            ),
            (BuiltinPlanner::SteamDeck(a), BuiltinPlanner::SteamDeck(b)) => a.settings.same(
                b.settings,
            ),
            (BuiltinPlanner::DarwinMulti(a), BuiltinPlanner::DarwinMulti(b)) => {
                &&& a.settings.same(b.settings)
                &&& a.volume_encrypt == b.volume_encrypt
                &&& a.volume_label@ == b.volume_label@
                &&& text_of(a.root_disk) == text_of(b.root_disk)
            },
            _ => false,
        }
    }

    /// Whether the two planners are of one kind and hold the same settings.
    pub fn is_same(&self, other: &BuiltinPlanner) -> (same: bool)
        ensures
            same == self.same(*other),
    {
        match (self, other) {
            (BuiltinPlanner::LinuxMulti(a), BuiltinPlanner::LinuxMulti(b)) => a.settings.is_same(
                &b.settings,
            ),
            (BuiltinPlanner::SteamDeck(a), BuiltinPlanner::SteamDeck(b)) => a.settings.is_same(
                &b.settings,
            ),
            (BuiltinPlanner::DarwinMulti(a), BuiltinPlanner::DarwinMulti(b)) => {
                a.settings.is_same(&b.settings) && a.volume_encrypt == b.volume_encrypt
                    && a.volume_label == b.volume_label && same_optional(&a.root_disk, &b.root_disk)
            },
            _ => false,
        }
    }

    /// Whether `planner` is what the host gets where it is not told
    /// otherwise: nothing but the failure that names the host, for a host
    /// that is not supported; else the planner of the host's kind, with the
    /// settings that such a host has by default and the Nix archive that
    /// fits it, and on macOS a volume labelled `Nix Store`, not encrypted,
    /// on `root_disk`.
    pub open spec fn made_for(
        planner: Result<BuiltinPlanner, PlanningError>,
        host: Host,
        root_disk: Option<String>,
    ) -> bool {
        match planner_for(host.architecture, host.os, host.steam_deck) {
            None => planner matches Err(PlanningError::UnsupportedArchitecture(name)) && name@
                == host.name@,
            Some(tag) => {
                &&& planner matches Ok(found)
                &&& found.tag() == tag
                &&& package_url(host.architecture, host.os) matches Some(url)
                &&& found.common().is_default(host.os, url)
                &&& found matches BuiltinPlanner::DarwinMulti(darwin) ==> {
                    &&& darwin.root_disk == root_disk
                    &&& !darwin.volume_encrypt
                    &&& darwin.volume_label@ == "Nix Store"@
                }
            },
        }
    }

    /// The planner for the host, with the settings that such a host has
    /// where it is not told otherwise. On macOS the disk that takes the Nix
    /// volume is `root_disk`.
    pub fn for_host(host: &Host, root_disk: Option<String>) -> (planner: Result<
        BuiltinPlanner,
        PlanningError,
    >)
        ensures
            Self::made_for(planner, *host, root_disk),
    {
        let planner = match (host.architecture, host.os) {
            (Architecture::X86_64, OperatingSystem::Linux)
            | (Architecture::Aarch64, OperatingSystem::Linux) => {
                if host.steam_deck {
                    match SteamDeck::default_for(host.architecture) {
                        Ok(planner) => Some(BuiltinPlanner::SteamDeck(planner)),
                        Err(_) => None,
                    }
                } else {
                    match LinuxMulti::default_for(host.architecture) {
                        Ok(planner) => Some(BuiltinPlanner::LinuxMulti(planner)),
                        Err(_) => None,
                    }
                }
            },
            (Architecture::X86_64, OperatingSystem::Darwin)
            | (Architecture::Aarch64, OperatingSystem::Darwin) => {
                match DarwinMulti::default_for(host.architecture, root_disk) {
                    Ok(planner) => Some(BuiltinPlanner::DarwinMulti(planner)),
                    Err(_) => None,
                }
            },
            _ => None,
        };
        match planner {
            Some(found) => Ok(found),
            None => Err(PlanningError::UnsupportedArchitecture(host.name.clone())),
        }
    }

    /// The planner for the host that the program was built for: what
    /// `for_host` makes for the host as it turns out to be. Whether the host
    /// is a Steam Deck is told by the text of `/etc/os-release`, where there
    /// is one; what else it is, is not the library's to say.
    pub fn default(os_release: Option<&str>, root_disk: Option<String>) -> (planner: Result<
        BuiltinPlanner,
        PlanningError,
    >)
        ensures
            exists|host: Host|
                {
                    &&& host.steam_deck == (match os_release {
                        Some(text) => steam_os(text@),
                        None => false,
                    })
                    &&& #[trigger] Self::made_for(planner, host, root_disk)
                },
    {
        let host = Host::detect(os_release);
        let planner = Self::for_host(&host, root_disk);
        assert(Self::made_for(planner, host, root_disk));
        planner
    }

    /// Whether `plan` is what the planner plans on a host of which `facts`
    /// are known: the plan of its kind, or the failure of its kind.
    pub open spec fn planned(self, plan: Result<InstallPlan, PlanningError>, facts: HostFacts) -> bool {
        match self {
            BuiltinPlanner::LinuxMulti(planner) => match plan {
                Ok(found) => !planner.fails(facts) && planner.shaped(found, facts),
                Err(error) => planner.fails(facts) && planner.is_error(error, facts),
            },
            BuiltinPlanner::DarwinMulti(planner) => match plan {
                Ok(found) => !planner.fails(facts) && planner.shaped(found, facts),
                Err(error) => planner.fails(facts) && planner.is_error(error, facts),
            },
            BuiltinPlanner::SteamDeck(planner) => match plan {
                Ok(found) => !planner.fails(facts) && planner.shaped(found, facts),
                Err(error) => planner.fails(facts) && planner.is_error(error, facts),
            },
        }
    }

    /// Plans the installation on a host of which `facts` are known.
    pub fn plan(self, facts: &HostFacts) -> (plan: Result<InstallPlan, PlanningError>)
        ensures
            self.planned(plan, *facts),
    {
        match self {
            BuiltinPlanner::LinuxMulti(planner) => planner.plan(facts),
            BuiltinPlanner::DarwinMulti(planner) => planner.plan(facts),
            BuiltinPlanner::SteamDeck(planner) => planner.plan(facts),
        }
    }
}

} // verus!
