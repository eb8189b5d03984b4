//! The knobs of an installation.
use vstd::prelude::*;
use crate::action::base::create_directory::text_of;
use crate::action::common::place_channel_configuration::{channel_views, ChannelValue};
use crate::error::PlanningError;
use crate::host::{describe_host, host_words, Architecture, OperatingSystem};
use crate::nix_config::plain;
use crate::text::{decimal, join, join_with, push_decimal, views};

verus! {

/// Where the Nix archive for 64 bit Intel Linux is fetched from.
pub const NIX_X64_64_LINUX_URL: &'static str =
    "https://releases.nixos.org/nix/nix-2.12.0/nix-2.12.0-x86_64-linux.tar.xz";

/// Where the Nix archive for 64 bit ARM Linux is fetched from.
pub const NIX_AARCH64_LINUX_URL: &'static str =
    "https://releases.nixos.org/nix/nix-2.12.0/nix-2.12.0-aarch64-linux.tar.xz";

/// Where the Nix archive for 64 bit Intel macOS is fetched from.
pub const NIX_X64_64_DARWIN_URL: &'static str =
    "https://releases.nixos.org/nix/nix-2.12.0/nix-2.12.0-x86_64-darwin.tar.xz";

/// Where the Nix archive for 64 bit ARM macOS is fetched from.
pub const NIX_AARCH64_DARWIN_URL: &'static str =
    "https://releases.nixos.org/nix/nix-2.12.0/nix-2.12.0-aarch64-darwin.tar.xz";

/// The settings that every planner takes.
#[derive(Debug, PartialEq, Eq)]
pub struct CommonSettings {
    /// The channels to subscribe to.
    pub channels: Vec<ChannelValue>,
    /// Whether the shell profiles of the host are changed.
    pub modify_profile: bool,
    /// How many build users are created.
    pub nix_build_user_count: u32,
    /// The name of the group of the build users.
    pub nix_build_group_name: String,
    /// The id of the group of the build users.
    pub nix_build_group_id: u32,
    /// What the names of the build users begin with; the number of the user
    /// follows.
    pub nix_build_user_prefix: String,
    /// The id of the first build user; the others follow one by one.
    pub nix_build_user_id_base: u32,
    /// Where the Nix archive is fetched from.
    pub nix_package_url: String,
    /// Lines to add to `nix.conf`.
    pub extra_conf: Vec<String>,
    /// Whether what stands in the way is overwritten.
    pub force: bool,
    /// The proxy to fetch through.
    pub proxy: Option<String>,
    /// The certificate bundle to trust.
    pub ssl_cert_file: Option<String>,
}

/// The address of the Nix archive for a host, if the host is supported.
pub open spec fn package_url(architecture: Architecture, os: OperatingSystem) -> Option<Seq<char>> {
    match (architecture, os) {
        (Architecture::X86_64, OperatingSystem::Linux) => Some(NIX_X64_64_LINUX_URL@),
        (Architecture::Aarch64, OperatingSystem::Linux) => Some(NIX_AARCH64_LINUX_URL@),
        (Architecture::X86_64, OperatingSystem::Darwin) => Some(NIX_X64_64_DARWIN_URL@),
        (Architecture::Aarch64, OperatingSystem::Darwin) => Some(NIX_AARCH64_DARWIN_URL@),
        _ => None,
    }
}

/// The name of the build user with the number `i`.
pub open spec fn build_user_name(prefix: Seq<char>, i: nat) -> Seq<char> {
    prefix + crate::text::decimal(i)
}

impl CommonSettings {
    /// Whether these are the settings of a host with the operating system
    /// `os` that is not told otherwise, with the Nix archive at `url`: the
    /// channel `nixpkgs`, 32 build users named by number in the group
    /// `nixbld`, ids from 3000 on, profiles changed, nothing forced. The
    /// names of the users begin with `nixbld`, and with `_nixbld` on macOS.
    pub open spec fn is_default(self, os: OperatingSystem, url: Seq<char>) -> bool {
        &&& self.channels@.len() == 1
        &&& self.channels@[0].name@ == "nixpkgs"@
        &&& self.channels@[0].url@ == "https://nixos.org/channels/nixpkgs-unstable"@
        &&& self.modify_profile
        &&& self.nix_build_user_count == 32
        &&& self.nix_build_group_name@ == "nixbld"@
        &&& self.nix_build_group_id == 3000
        &&& self.nix_build_user_prefix@ == (if os == OperatingSystem::Darwin {
            "_nixbld"@
        } else {
            "nixbld"@
        })
        &&& self.nix_build_user_id_base == 3000
        &&& self.nix_package_url@ == url
        &&& self.extra_conf@.len() == 0
        &&& !self.force
        &&& self.proxy is None
        &&& self.ssl_cert_file is None
    }

    /// The settings of a host that is not told otherwise, with the Nix
    /// archive that fits the host; none for a host that is not supported,
    /// but the failure that names the host.
    pub fn default_for(architecture: Architecture, os: OperatingSystem) -> (settings: Result<
        CommonSettings,
        PlanningError,
    >)
        ensures
            match package_url(architecture, os) {
                None => settings matches Err(PlanningError::UnsupportedArchitecture(name)) && name@
                    == host_words(architecture, os),
                Some(url) => settings matches Ok(found) && found.is_default(os, url),
            },
    {
        let url = match (architecture, os) {
            (Architecture::X86_64, OperatingSystem::Linux) => NIX_X64_64_LINUX_URL,
            (Architecture::Aarch64, OperatingSystem::Linux) => NIX_AARCH64_LINUX_URL,
            (Architecture::X86_64, OperatingSystem::Darwin) => NIX_X64_64_DARWIN_URL,
            (Architecture::Aarch64, OperatingSystem::Darwin) => NIX_AARCH64_DARWIN_URL,
            _ => {
                return Err(PlanningError::UnsupportedArchitecture(describe_host(architecture, os)));
            },
        };
        let prefix = if os == OperatingSystem::Darwin {
            "_nixbld"
        } else {
            "nixbld"
        };
        let mut channels: Vec<ChannelValue> = Vec::new();
        channels.push(
            ChannelValue {
                name: String::from_str("nixpkgs"),
                url: String::from_str("https://nixos.org/channels/nixpkgs-unstable"),
            },
        );
        Ok(
            CommonSettings {
                channels,
                modify_profile: true,
                nix_build_user_count: 32,
                nix_build_group_name: String::from_str("nixbld"),
                nix_build_group_id: 3000,
                nix_build_user_prefix: String::from_str(prefix),
                nix_build_user_id_base: 3000,
                nix_package_url: String::from_str(url),
                extra_conf: Vec::new(),
                force: false,
                proxy: None,
                ssl_cert_file: None,
            },
        )
    }

    /// The name of the build user with the number `i`.
    pub fn user_name(&self, i: u32) -> (name: String)
        ensures
            name@ == build_user_name(self.nix_build_user_prefix@, i as nat),
    {
        let mut name = self.nix_build_user_prefix.clone();
        crate::text::push_decimal(&mut name, i as u64);
        name
    }

    /// The settings as names with their values in words, for display and
    /// for telling two sets of settings apart: numbers in decimal, switches
    /// as `true` or `false`, lists with `,` between their items, and a
    /// channel as its name, `=` and its address.
    pub open spec fn described(self) -> Seq<(Seq<char>, Seq<char>)> {
        seq![
            ("channels"@, join(channel_words(self.channels@), ","@)),
            ("modify_profile"@, switch_word(self.modify_profile)),
            ("nix_build_user_count"@, decimal(self.nix_build_user_count as nat)),
            ("nix_build_group_name"@, self.nix_build_group_name@),
            ("nix_build_group_id"@, decimal(self.nix_build_group_id as nat)),
            ("nix_build_user_prefix"@, self.nix_build_user_prefix@),
            ("nix_build_user_id_base"@, decimal(self.nix_build_user_id_base as nat)),
            ("nix_package_url"@, self.nix_package_url@),
            ("extra_conf"@, join(views(self.extra_conf@), ","@)),
            ("force"@, switch_word(self.force)),
            ("proxy"@, optional_word(self.proxy)),
            ("ssl_cert_file"@, optional_word(self.ssl_cert_file)),
        ]
    }

    /// The settings as names with their values in words.
    pub fn describe(&self) -> (pairs: Vec<(String, String)>)
        ensures
            plain(pairs@) == self.described(),
    {
        let mut words: Vec<String> = Vec::new();
        let mut i: usize = 0;
        assert(channel_words(self.channels@).take(0) =~= views(words@));
        while i < self.channels.len()
            invariant
                i <= self.channels@.len(),
                views(words@) == channel_words(self.channels@).take(i as int),
            decreases self.channels@.len() - i,
        {
            let ghost before = views(words@);
            let word = self.channels[i].name.clone().concat("=").concat(self.channels[i].url.as_str());
            let ghost text = word@;
            assert(text =~= self.channels@[i as int].name@ + "="@ + self.channels@[i as int].url@);
            assert(channel_words(self.channels@)[i as int] == text);
            words.push(word);
            assert(views(words@) =~= before.push(text));
            assert(views(words@) =~= channel_words(self.channels@).take(i as int + 1));
            i = i + 1;
        }
        assert(channel_words(self.channels@).take(i as int) =~= channel_words(self.channels@));
        let mut pairs: Vec<(String, String)> = Vec::new();
        pairs.push((String::from_str("channels"), join_with(&words, ",")));
        pairs.push((String::from_str("modify_profile"), switch(self.modify_profile)));
        pairs.push((String::from_str("nix_build_user_count"), number(self.nix_build_user_count)));
        pairs.push((String::from_str("nix_build_group_name"), self.nix_build_group_name.clone()));
        pairs.push((String::from_str("nix_build_group_id"), number(self.nix_build_group_id)));
        pairs.push((String::from_str("nix_build_user_prefix"), self.nix_build_user_prefix.clone()));
        pairs.push((String::from_str("nix_build_user_id_base"), number(self.nix_build_user_id_base)));
        pairs.push((String::from_str("nix_package_url"), self.nix_package_url.clone()));
        pairs.push((String::from_str("extra_conf"), join_with(&self.extra_conf, ",")));
        pairs.push((String::from_str("force"), switch(self.force)));
        pairs.push((String::from_str("proxy"), optional(&self.proxy)));
        pairs.push((String::from_str("ssl_cert_file"), optional(&self.ssl_cert_file)));
        assert(plain(pairs@) =~= self.described());
        pairs
    }
}

/// A channel in words: its name, `=` and its address.
pub open spec fn channel_words(channels: Seq<ChannelValue>) -> Seq<Seq<char>> {
    channels.map_values(|c: ChannelValue| c.name@ + "="@ + c.url@)
}

/// A switch in words.
pub open spec fn switch_word(on: bool) -> Seq<char> {
    if on {
        "true"@
    } else {
        "false"@
    }
}

/// A text that may be absent, in words: nothing where it is absent.
pub open spec fn optional_word(text: Option<String>) -> Seq<char> {
    match text {
        Some(found) => found@,
        None => Seq::empty(),
    }
}

fn switch(on: bool) -> (word: String)
    ensures
        word@ == switch_word(on),
{
    if on {
        String::from_str("true")
    } else {
        String::from_str("false")
    }
}

fn number(n: u32) -> (word: String)
    ensures
        word@ == decimal(n as nat),
{
    let mut word = String::new();
    push_decimal(&mut word, n as u64);
    assert(word@ =~= decimal(n as nat));
    word
}

fn optional(text: &Option<String>) -> (word: String)
    ensures
        word@ == optional_word(*text),
{
    match text {
        Some(found) => found.clone(),
        None => String::new(),
    }
}

/// Whether two texts that may be absent are the same.
pub fn same_optional(a: &Option<String>, b: &Option<String>) -> (same: bool)
    ensures
        same == (text_of(*a) == text_of(*b)),
{
    match (a, b) {
        (Some(first), Some(second)) => *first == *second,
        (None, None) => true,
        _ => false,
    }
}

/// Whether two lists of texts hold the same, in the same order.
pub fn same_texts(a: &Vec<String>, b: &Vec<String>) -> (same: bool)
    ensures
        same == (views(a@) == views(b@)),
{
    if a.len() != b.len() {
        return false;
    }
    let mut i: usize = 0;
    while i < a.len()
        invariant
            i <= a@.len(),
            a@.len() == b@.len(),
            forall|j: int| 0 <= j < i ==> views(a@)[j] == views(b@)[j],
        decreases a@.len() - i,
    {
        if !(a[i] == b[i]) {
            assert(views(a@)[i as int] != views(b@)[i as int]);
            return false;
        }
        i = i + 1;
    }
    assert(views(a@) =~= views(b@));
    true
}

/// Whether two lists of channels hold the same, in the same order.
pub fn same_channels(a: &Vec<ChannelValue>, b: &Vec<ChannelValue>) -> (same: bool)
    ensures
        same == (channel_views(a@) == channel_views(b@)),
{
    if a.len() != b.len() {
        return false;
    }
    let mut i: usize = 0;
    while i < a.len()
        invariant
            i <= a@.len(),
            a@.len() == b@.len(),
            forall|j: int| 0 <= j < i ==> channel_views(a@)[j] == channel_views(b@)[j],
        decreases a@.len() - i,
    {
        if !(a[i].name == b[i].name && a[i].url == b[i].url) {
            assert(channel_views(a@)[i as int] != channel_views(b@)[i as int]);
            return false;
        }
        i = i + 1;
    }
    assert(channel_views(a@) =~= channel_views(b@));
    true
}

impl CommonSettings {
    /// Whether the two hold the same settings: every field of the one is
    /// the field of the other.
    pub open spec fn same(self, other: CommonSettings) -> bool {
        &&& channel_views(self.channels@) == channel_views(other.channels@)
        &&& self.modify_profile == other.modify_profile
        &&& self.nix_build_user_count == other.nix_build_user_count
        &&& self.nix_build_group_name@ == other.nix_build_group_name@
        &&& self.nix_build_group_id == other.nix_build_group_id
        &&& self.nix_build_user_prefix@ == other.nix_build_user_prefix@
        &&& self.nix_build_user_id_base == other.nix_build_user_id_base
        &&& self.nix_package_url@ == other.nix_package_url@
        &&& views(self.extra_conf@) == views(other.extra_conf@)
        &&& self.force == other.force
        &&& text_of(self.proxy) == text_of(other.proxy)
        &&& text_of(self.ssl_cert_file) == text_of(other.ssl_cert_file)
    }

    /// Whether the two hold the same settings.
    pub fn is_same(&self, other: &CommonSettings) -> (same: bool)
        ensures
            same == self.same(*other),
    {
        same_channels(&self.channels, &other.channels) && self.modify_profile
            == other.modify_profile && self.nix_build_user_count == other.nix_build_user_count
            && self.nix_build_group_name == other.nix_build_group_name && self.nix_build_group_id
            == other.nix_build_group_id && self.nix_build_user_prefix == other.nix_build_user_prefix
            && self.nix_build_user_id_base == other.nix_build_user_id_base && self.nix_package_url
            == other.nix_package_url && same_texts(&self.extra_conf, &other.extra_conf) && self.force
            == other.force && same_optional(&self.proxy, &other.proxy) && same_optional(
            &self.ssl_cert_file,
            &other.ssl_cert_file,
        )
    }
}

} // verus!
