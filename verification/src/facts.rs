//! What is known of the host when a plan is made. The program around the
//! library looks these things up; planning itself touches nothing.
use vstd::prelude::*;

verus! {

/// A group that exists on the host.
#[derive(Debug, PartialEq, Eq)]
pub struct GroupFact {
    pub name: String,
    pub gid: u32,
}

/// A user that exists on the host.
#[derive(Debug, PartialEq, Eq)]
pub struct UserFact {
    pub name: String,
    pub uid: u32,
    pub gid: u32,
}

/// What kind of thing stands at a path.
#[derive(Clone, Copy, PartialEq, Eq, Structural, Debug)]
pub enum PathKind {
    File,
    Directory,
    Other,
}

/// Something that exists at a path of the host: what it is, its permission
/// bits, and the names of the user and group that own it. `contents` holds
/// the text of a file where it was read.
#[derive(Debug, PartialEq, Eq)]
pub struct PathFact {
    pub path: String,
    pub kind: PathKind,
    pub mode: u32,
    pub user: String,
    pub group: String,
    pub contents: Option<String>,
    /// For a Nix configuration that names other files: the settings that
    /// the file and the files it names hold together, in order, where they
    /// were read. It is looked at for no other file.
    pub settings: Option<Vec<(String, String)>>,
}

/// What is known of the host.
#[derive(Debug, PartialEq, Eq)]
pub struct HostFacts {
    /// Whether `/etc/NIXOS` exists.
    pub nixos: bool,
    pub groups: Vec<GroupFact>,
    pub users: Vec<UserFact>,
    pub paths: Vec<PathFact>,
    /// The home directory of the root user.
    pub root_home: Option<String>,
    /// The systemd units that are enabled.
    pub enabled_units: Vec<String>,
    /// The whole disk that holds the root volume (macOS).
    pub root_disk: Option<String>,
    /// For extra configuration lines that name other files: the settings
    /// that the lines and the files they name hold together, in order, where
    /// they were read. It is looked at for no other lines.
    pub extra_settings: Option<Vec<(String, String)>>,
}

/// The first place from `from` on at which `name` stands in `names`.
pub open spec fn first_from(names: Seq<Seq<char>>, name: Seq<char>, from: int) -> Option<int>
    decreases names.len() - from,
{
    if from < 0 || from >= names.len() {
        None
    } else if names[from] == name {
        Some(from)
    } else {
        first_from(names, name, from + 1)
    }
}

/// The names of the groups, in order.
pub open spec fn group_names(groups: Seq<GroupFact>) -> Seq<Seq<char>> {
    groups.map_values(|g: GroupFact| g.name@)
}

/// The names of the users, in order.
pub open spec fn user_names(users: Seq<UserFact>) -> Seq<Seq<char>> {
    users.map_values(|u: UserFact| u.name@)
}

/// The paths of the facts, in order.
pub open spec fn fact_paths(paths: Seq<PathFact>) -> Seq<Seq<char>> {
    paths.map_values(|p: PathFact| p.path@)
}

impl HostFacts {
    /// A host of which nothing is known to exist.
    pub fn empty() -> (facts: HostFacts)
        ensures
            !facts.nixos,
            facts.groups@.len() == 0,
            facts.users@.len() == 0,
            facts.paths@.len() == 0,
            facts.root_home is None,
            facts.enabled_units@.len() == 0,
            facts.root_disk is None,
            facts.extra_settings is None,
    {
        HostFacts {
            nixos: false,
            groups: Vec::new(),
            users: Vec::new(),
            paths: Vec::new(),
            root_home: None,
            enabled_units: Vec::new(),
            root_disk: None,
            extra_settings: None,
        }
    }

    /// The id of the group `name`, if the host has such a group.
    pub open spec fn gid_of(self, name: Seq<char>) -> Option<u32> {
        match first_from(group_names(self.groups@), name, 0) {
            Some(i) => Some(self.groups@[i].gid),
            None => None,
        }
    }

    /// The ids of the user `name` and of its group, if the host has such a
    /// user.
    pub open spec fn ids_of(self, name: Seq<char>) -> Option<(u32, u32)> {
        match first_from(user_names(self.users@), name, 0) {
            Some(i) => Some((self.users@[i].uid, self.users@[i].gid)),
            None => None,
        }
    }

    /// The place of what is known to exist at `path`.
    pub open spec fn place_of(self, path: Seq<char>) -> Option<int> {
        first_from(fact_paths(self.paths@), path, 0)
    }

    /// Whether the unit is known to be enabled.
    pub open spec fn enabled(self, unit: Seq<char>) -> bool {
        first_from(crate::text::views(self.enabled_units@), unit, 0) is Some
    }

    /// The id of the group `name`, if the host has such a group.
    pub fn group(&self, name: &String) -> (gid: Option<u32>)
        ensures
            gid == self.gid_of(name@),
    {
        let mut i: usize = 0;
        while i < self.groups.len()
            invariant
                i <= self.groups@.len(),
                first_from(group_names(self.groups@), name@, 0) == first_from(
                    group_names(self.groups@),
                    name@,
                    i as int,
                ),
            decreases self.groups@.len() - i,
        {
            if self.groups[i].name == *name {
                return Some(self.groups[i].gid);
            }
            i = i + 1;
        }
        None
    }

    /// The ids of the user `name` and of its group, if the host has such a
    /// user.
    pub fn user(&self, name: &String) -> (ids: Option<(u32, u32)>)
        ensures
            ids == self.ids_of(name@),
    {
        let mut i: usize = 0;
        while i < self.users.len()
            invariant
                i <= self.users@.len(),
                first_from(user_names(self.users@), name@, 0) == first_from(
                    user_names(self.users@),
                    name@,
                    i as int,
                ),
            decreases self.users@.len() - i,
        {
            if self.users[i].name == *name {
                return Some((self.users[i].uid, self.users[i].gid));
            }
            i = i + 1;
        }
        None
    }

    /// What is known to exist at `path`.
    pub fn path(&self, path: &String) -> (fact: Option<&PathFact>)
        ensures
            match fact {
                Some(found) => self.place_of(path@) is Some && *found == self.paths@[self.place_of(
                    path@,
                )->0],
                None => self.place_of(path@) is None,
            },
    {
        let mut i: usize = 0;
        while i < self.paths.len()
            invariant
                i <= self.paths@.len(),
                first_from(fact_paths(self.paths@), path@, 0) == first_from(
                    fact_paths(self.paths@),
                    path@,
                    i as int,
                ),
            decreases self.paths@.len() - i,
        {
            if self.paths[i].path == *path {
                return Some(&self.paths[i]);
            }
            i = i + 1;
        }
        None
    }

    /// Whether the unit is known to be enabled.
    pub fn unit_enabled(&self, unit: &String) -> (enabled: bool)
        ensures
            enabled == self.enabled(unit@),
    {
        let mut i: usize = 0;
        while i < self.enabled_units.len()
            invariant
                i <= self.enabled_units@.len(),
                first_from(crate::text::views(self.enabled_units@), unit@, 0) == first_from(
                    crate::text::views(self.enabled_units@),
                    unit@,
                    i as int,
                ),
            decreases self.enabled_units@.len() - i,
        {
            if self.enabled_units[i] == *unit {
                return true;
            }
            i = i + 1;
        }
        false
    }
}

} // verus!
