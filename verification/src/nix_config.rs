//! Nix configuration settings: an ordered list of named values, the rule by
//! which wanted settings are merged into existing ones, and the text of the
//! file that results.
use vstd::prelude::*;
use crate::text::{
    all_held, all_within, chars_of, dedup, dedup_texts, join, join_with, lemma_dedup,
    lemma_split_join, lemma_split_parts, split, split_on, text_is, views,
};

verus! {

/// Settings as plain values: names with their values, in file order.
pub type Settings = Seq<(Seq<char>, Seq<char>)>;

/// No name occurs twice.
pub open spec fn distinct_names(settings: Settings) -> bool {
    forall|i: int, j: int|
        0 <= i < j < settings.len() ==> (#[trigger] settings[i]).0 != (#[trigger] settings[j]).0
}

/// Whether a setting of that name is present.
pub open spec fn is_set(settings: Settings, name: Seq<char>) -> bool {
    exists|i: int| 0 <= i < settings.len() && (#[trigger] settings[i]).0 == name
}

/// The place of a setting of that name, if one is present.
pub open spec fn position(settings: Settings, name: Seq<char>) -> int {
    choose|i: int| 0 <= i < settings.len() && (#[trigger] settings[i]).0 == name
}

/// The value of the setting of that name, if one is present.
pub open spec fn lookup(settings: Settings, name: Seq<char>) -> Option<Seq<char>> {
    if is_set(settings, name) {
        Some(settings[position(settings, name)].1)
    } else {
        None
    }
}

/// The settings after one more is set: a present name keeps its place and
/// takes the new value, a new name goes to the end.
pub open spec fn with_setting(settings: Settings, name: Seq<char>, value: Seq<char>) -> Settings {
    if is_set(settings, name) {
        settings.update(position(settings, name), (name, value))
    } else {
        settings.push((name, value))
    }
}

/// Among distinct names, the place of a name is the one where it stands.
pub proof fn lemma_position(settings: Settings, i: int)
    requires
        distinct_names(settings),
        0 <= i < settings.len(),
    ensures
        is_set(settings, settings[i].0),
        position(settings, settings[i].0) == i,
        lookup(settings, settings[i].0) == Some(settings[i].1),
{
    let name = settings[i].0;
    let p = position(settings, name);
    assert(0 <= p < settings.len() && settings[p].0 == name);
    if p < i {
        assert(settings[p].0 != settings[i].0);
    } else if i < p {
        assert(settings[i].0 != settings[p].0);
    }
}

/// Pairs of strings as plain values.
pub open spec fn plain(pairs: Seq<(String, String)>) -> Settings {
    pairs.map_values(|e: (String, String)| (e.0@, e.1@))
}

/// A copy of the pairs.
pub fn copy_pairs(pairs: &Vec<(String, String)>) -> (copy: Vec<(String, String)>)
    ensures
        plain(copy@) == plain(pairs@),
{
    let mut copy: Vec<(String, String)> = Vec::new();
    let mut i: usize = 0;
    while i < pairs.len()
        invariant
            i <= pairs@.len(),
            plain(copy@) == plain(pairs@).take(i as int),
        decreases pairs@.len() - i,
    {
        let ghost before = plain(copy@);
        copy.push((pairs[i].0.clone(), pairs[i].1.clone()));
        assert(plain(copy@) =~= before.push(plain(pairs@)[i as int]));
        assert(plain(copy@) =~= plain(pairs@).take(i as int + 1));
        i = i + 1;
    }
    assert(plain(pairs@).take(i as int) =~= plain(pairs@));
    copy
}

/// Setting one more keeps the names distinct.
pub proof fn lemma_set_keeps_names_distinct(settings: Settings, name: Seq<char>, value: Seq<char>)
    requires
        distinct_names(settings),
    ensures
        distinct_names(with_setting(settings, name, value)),
{
    let after = with_setting(settings, name, value);
    if is_set(settings, name) {
        let p = position(settings, name);
        assert(settings[p].0 == name);
        assert forall|a: int, b: int| 0 <= a < b < after.len() implies (#[trigger] after[a]).0 != (
        #[trigger] after[b]).0 by {
            assert(settings[a].0 != settings[b].0);
        }
    } else {
        assert forall|a: int, b: int| 0 <= a < b < after.len() implies (#[trigger] after[a]).0 != (
        #[trigger] after[b]).0 by {
            if b < settings.len() {
                assert(settings[a].0 != settings[b].0);
            } else {
                assert(settings[a].0 != name);
            }
        }
    }
}

#[verifier::external_type_specification]
#[verifier::external_body]
pub struct ExNixConfig(nix_config_parser::NixConfig);

/// What a `nix_config_parser::NixConfig` holds: the names of its map with
/// their values, in the order of the map.
pub uninterp spec fn held(config: nix_config_parser::NixConfig) -> Settings;

/// `nix_config_parser::NixConfig::new`: a configuration whose map holds
/// nothing.
#[verifier::external_body]
fn empty_settings() -> (config: nix_config_parser::NixConfig)
    ensures
        held(config) == Settings::empty(),
{
    nix_config_parser::NixConfig::new()
}

/// `len` of the map of a configuration: the number of names that it holds.
#[verifier::external_body]
fn count_settings(config: &nix_config_parser::NixConfig) -> (n: usize)
    ensures
        n == held(*config).len(),
{
    config.settings().len()
}

/// `get_index` of the map of a configuration: the name and the value at
/// the place `i` of its order, where the map holds that many.
#[verifier::external_body]
fn setting_at(config: &nix_config_parser::NixConfig, i: usize) -> (entry: Option<(&String, &String)>)
    ensures
        match entry {
            Some((name, value)) => i < held(*config).len() && held(*config)[i as int] == (
                name@,
                value@,
            ),
            None => i >= held(*config).len(),
        },
{
    config.settings().get_index(i)
}

/// `get` of the map of a configuration: the value that is held under the
/// name, or nothing where the name is not held.
#[verifier::external_body]
fn setting_named<'a>(config: &'a nix_config_parser::NixConfig, name: &str) -> (value: Option<
    &'a String,
>)
    ensures
        match value {
            Some(found) => exists|i: int|
                0 <= i < held(*config).len() && #[trigger] held(*config)[i] == (name@, found@),
            None => !is_set(held(*config), name@),
        },
{
    config.settings().get(name)
}

/// `insert` of the map of a configuration: a name that is held keeps its
/// place in the order and takes the new value; a new name goes to the end.
#[verifier::external_body]
fn set_setting(config: &mut nix_config_parser::NixConfig, name: String, value: String)
    ensures
        held(*final(config)) == with_setting(held(*old(config)), name@, value@),
{
    config.settings_mut().insert(name, value);
}

/// The settings of a Nix configuration file, in order, each name once. They
/// are held in the configuration type of the parser, whose map keeps the
/// order in which names were set.
#[derive(Debug, PartialEq, Eq)]
pub struct NixSettings {
    inner: nix_config_parser::NixConfig,
}

impl NixSettings {
    #[verifier::type_invariant]
    spec fn names_are_distinct(self) -> bool {
        distinct_names(self@)
    }

    /// The settings as plain values.
    pub closed spec fn view(&self) -> Settings {
        held(self.inner)
    }

    /// A configuration without settings.
    pub fn new() -> (config: NixSettings)
        ensures
            config@ == Settings::empty(),
    {
        NixSettings { inner: empty_settings() }
    }

    /// The number of settings; no two of them share a name.
    pub fn len(&self) -> (n: usize)
        ensures
            n == self@.len(),
            distinct_names(self@),
    {
        proof {
            use_type_invariant(self);
        }
        count_settings(&self.inner)
    }

    /// Whether there is no setting.
    pub fn is_empty(&self) -> (empty: bool)
        ensures
            empty == (self@.len() == 0),
    {
        count_settings(&self.inner) == 0
    }

    /// The name and value at place `i`, counted from 0 in file order.
    pub fn get_index(&self, i: usize) -> (entry: Option<(&String, &String)>)
        ensures
            match entry {
                Some((name, value)) => i < self@.len() && self@[i as int] == (name@, value@),
                None => i >= self@.len(),
            },
    {
        setting_at(&self.inner, i)
    }

    /// The value of the setting `name`, if there is one.
    pub fn get(&self, name: &str) -> (value: Option<&String>)
        ensures
            match value {
                Some(found) => lookup(self@, name@) == Some(found@),
                None => lookup(self@, name@) is None,
            },
    {
        proof {
            use_type_invariant(self);
        }
        let value = setting_named(&self.inner, name);
        proof {
            if let Some(found) = value {
                let i = choose|i: int| 0 <= i < self@.len() && #[trigger] self@[i] == (name@, found@);
                lemma_position(self@, i);
            }
        }
        value
    }

    /// Sets `name` to `value`: a name that is present keeps its place, a new
    /// one goes to the end.
    pub fn insert(&mut self, name: String, value: String)
        ensures
            final(self)@ == with_setting(old(self)@, name@, value@),
    {
        proof {
            use_type_invariant(&*self);
            lemma_set_keeps_names_distinct(self@, name@, value@);
        }
        let mut inner = empty_settings();
        core::mem::swap(&mut self.inner, &mut inner);
        set_setting(&mut inner, name, value);
        core::mem::swap(&mut self.inner, &mut inner);
    }

    /// The configuration that holds the pairs as they stand, where no name
    /// occurs twice among them.
    pub fn from_distinct_pairs(pairs: Vec<(String, String)>) -> (config: Option<NixSettings>)
        ensures
            match config {
                Some(found) => found@ == plain(pairs@),
                None => !distinct_names(plain(pairs@)),
            },
    {
        let ghost all = plain(pairs@);
        let mut config = NixSettings::new();
        let mut i: usize = 0;
        assert(all.take(0) =~= Settings::empty());
        while i < pairs.len()
            invariant
                i <= pairs.len(),
                all == plain(pairs@),
                config@ == all.take(i as int),
            decreases pairs.len() - i,
        {
            let ghost before = all.take(i as int);
            if config.get(pairs[i].0.as_str()).is_some() {
                proof {
                    assert(is_set(before, all[i as int].0));
                    let k = position(before, all[i as int].0);
                    assert(before[k].0 == all[i as int].0);
                    assert(all[k].0 == all[i as int].0);
                }
                return None;
            }
            assert(before.push(all[i as int]) =~= all.take(i as int + 1));
            config.insert(pairs[i].0.clone(), pairs[i].1.clone());
            i = i + 1;
        }
        assert(all.take(i as int) =~= all);
        Some(config)
    }

    /// The configuration that results from setting each pair in turn.
    pub open spec fn of_pairs(pairs: Settings) -> Settings
        decreases pairs.len(),
    {
        if pairs.len() == 0 {
            pairs
        } else {
            with_setting(Self::of_pairs(pairs.drop_last()), pairs.last().0, pairs.last().1)
        }
    }

    /// Builds a configuration by setting each pair in turn, so that of two
    /// pairs with one name the later value stands at the earlier place.
    pub fn from_pairs(pairs: Vec<(String, String)>) -> (config: NixSettings)
        ensures
            config@ == Self::of_pairs(plain(pairs@)),
    {
        let ghost all = plain(pairs@);
        let mut config = NixSettings::new();
        let mut i: usize = 0;
        assert(all.take(0) =~= Settings::empty());
        while i < pairs.len()
            invariant
                i <= pairs.len(),
                all == plain(pairs@),
                config@ == Self::of_pairs(all.take(i as int)),
            decreases pairs.len() - i,
        {
            assert(all.take(i as int + 1).drop_last() =~= all.take(i as int));
            assert(all.take(i as int + 1).last() == (pairs@[i as int].0@, pairs@[i as int].1@));
            config.insert(pairs[i].0.clone(), pairs[i].1.clone());
            i = i + 1;
        }
        assert(all.take(i as int) =~= all);
        config
    }
}

/// The settings whose values may be merged token by token.
pub open spec fn mergeable(name: Seq<char>) -> bool {
    name == "experimental-features"@
}

/// What merging one wanted setting into the existing ones comes to.
pub enum Merge {
    /// The existing value already holds every wanted token.
    Satisfied,
    /// The setting has to be written with this value.
    Write(Seq<char>),
    /// The existing value differs and cannot be merged.
    Conflict,
}

/// The wanted tokens first, then the existing ones, each token once, with a
/// space between neighbours.
pub open spec fn merged_value(wanted: Seq<char>, found: Seq<char>) -> Seq<char> {
    join(dedup(split(wanted, ' ') + split(found, ' ')), seq![' '])
}

/// Merges one wanted setting into the existing ones.
pub open spec fn merge_one(existing: Settings, name: Seq<char>, value: Seq<char>) -> Merge {
    match lookup(existing, name) {
        None => Merge::Write(value),
        Some(found) => {
            if all_within(split(value, ' '), split(found, ' ')) {
                Merge::Satisfied
            } else if mergeable(name) {
                Merge::Write(merged_value(value, found))
            } else {
                Merge::Conflict
            }
        },
    }
}

/// The settings that have to be written so that the file satisfies `pending`,
/// in the order of `pending`.
pub open spec fn merged(existing: Settings, pending: Settings) -> Settings
    decreases pending.len(),
{
    if pending.len() == 0 {
        pending
    } else {
        let before = merged(existing, pending.drop_last());
        match merge_one(existing, pending.last().0, pending.last().1) {
            Merge::Write(value) => before.push((pending.last().0, value)),
            _ => before,
        }
    }
}

/// The names of the settings of `pending` that cannot be merged, in the order
/// of `pending`.
pub open spec fn conflicts(existing: Settings, pending: Settings) -> Seq<Seq<char>>
    decreases pending.len(),
{
    if pending.len() == 0 {
        Seq::empty()
    } else {
        let before = conflicts(existing, pending.drop_last());
        match merge_one(existing, pending.last().0, pending.last().1) {
            Merge::Conflict => before.push(pending.last().0),
            _ => before,
        }
    }
}

/// Every setting to be written is named in `pending`.
pub proof fn lemma_merged_names(existing: Settings, pending: Settings, name: Seq<char>)
    requires
        is_set(merged(existing, pending), name),
    ensures
        is_set(pending, name),
    decreases pending.len(),
{
    if pending.len() > 0 {
        let init = pending.drop_last();
        let before = merged(existing, init);
        let all = merged(existing, pending);
        let k = choose|k: int| 0 <= k < all.len() && (#[trigger] all[k]).0 == name;
        if k < before.len() {
            assert(before[k].0 == name);
            lemma_merged_names(existing, init, name);
            let j = choose|j: int| 0 <= j < init.len() && (#[trigger] init[j]).0 == name;
            assert(pending[j].0 == name);
        } else {
            assert(pending[pending.len() - 1].0 == name);
        }
    }
}

/// Merges the wanted settings into the existing ones: the settings to write,
/// and the names of those that cannot be merged.
pub fn merge(existing: &NixSettings, pending: &NixSettings) -> (out: (NixSettings, Vec<String>))
    ensures
        out.0@ == merged(existing@, pending@),
        views(out.1@) == conflicts(existing@, pending@),
{
    let mut to_write = NixSettings::new();
    let mut unmergeable: Vec<String> = Vec::new();
    let mut i: usize = 0;
    let count = pending.len();
    proof {
        reveal_strlit(" ");
        assert(" "@ =~= seq![' ']);
        assert(pending@.take(0) =~= Settings::empty());
        assert(views(unmergeable@) =~= conflicts(existing@, pending@.take(0)));
    }
    while i < count
        invariant
            i <= pending@.len(),
            count == pending@.len(),
            distinct_names(pending@),
            " "@ == seq![' '],
            to_write@ == merged(existing@, pending@.take(i as int)),
            views(unmergeable@) == conflicts(existing@, pending@.take(i as int)),
        decreases pending@.len() - i,
    {
        let ghost upto = pending@.take(i as int + 1);
        let ghost known = views(unmergeable@);
        proof {
            assert(upto.drop_last() =~= pending@.take(i as int));
            assert(upto.last() == pending@[i as int]);
            if is_set(to_write@, pending@[i as int].0) {
                lemma_merged_names(existing@, pending@.take(i as int), pending@[i as int].0);
                let j = choose|j: int|
                    0 <= j < i && (#[trigger] pending@.take(i as int)[j]).0 == pending@[i as int].0;
                assert(pending@[j].0 != pending@[i as int].0);
            }
        }
        let entry = pending.get_index(i);
        let (name, value) = entry.unwrap();
        match existing.get(name.as_str()) {
            None => {
                to_write.insert(name.clone(), value.clone());
            },
            Some(found) => {
                let wanted = split_on(value.as_str(), ' ');
                let have = split_on(found.as_str(), ' ');
                if all_held(&wanted, &have) {
                } else if text_is(name, "experimental-features") {
                    let mut all = wanted;
                    let mut rest = have;
                    let ghost first = views(all@);
                    let ghost second = views(rest@);
                    all.append(&mut rest);
                    assert(views(all@) =~= first + second);
                    let unique = dedup_texts(&all);
                    let joined = join_with(&unique, " ");
                    to_write.insert(name.clone(), joined);
                } else {
                    unmergeable.push(name.clone());
                    assert(views(unmergeable@) =~= known.push(name@));
                }
            },
        }
        i = i + 1;
    }
    assert(pending@.take(i as int) =~= pending@);
    (to_write, unmergeable)
}

/// One setting as a line of the file.
pub open spec fn setting_line(name: Seq<char>, value: Seq<char>) -> Seq<char> {
    name + " = "@ + value + "\n"@
}

/// The settings as lines of the file, in order.
pub open spec fn setting_lines(settings: Settings) -> Seq<char>
    decreases settings.len(),
{
    if settings.len() == 0 {
        Seq::empty()
    } else {
        setting_lines(settings.drop_last()) + setting_line(
            settings.last().0,
            settings.last().1,
        )
    }
}

/// The settings of `existing` that are not written anew, in order.
pub open spec fn kept(existing: Settings, written: Settings) -> Settings
    decreases existing.len(),
{
    if existing.len() == 0 {
        existing
    } else {
        let before = kept(existing.drop_last(), written);
        if is_set(written, existing.last().0) {
            before
        } else {
            before.push(existing.last())
        }
    }
}

/// The comment line that marks what the installer wrote.
pub open spec fn generated_line(version: Seq<char>) -> Seq<char> {
    "# Generated by https://github.com/DeterminateSystems/nix-installer, version "@ + version
        + ".\n"@
}

/// The text of the configuration file: the existing settings that are not
/// written anew and an empty line, where there was a file; the comment line;
/// the settings written.
pub open spec fn rendered(
    existing: Option<Settings>,
    written: Settings,
    version: Seq<char>,
) -> Seq<char> {
    let head = match existing {
        Some(found) => setting_lines(kept(found, written)) + "\n"@,
        None => Seq::empty(),
    };
    head + generated_line(version) + setting_lines(written)
}

fn push_setting(out: &mut String, name: &String, value: &String)
    ensures
        final(out)@ == old(out)@ + setting_line(name@, value@),
{
    out.append(name.as_str());
    out.append(" = ");
    out.append(value.as_str());
    out.append("\n");
    assert(out@ =~= old(out)@ + setting_line(name@, value@));
}

/// Writes the text of the configuration file.
pub fn render(existing: &Option<NixSettings>, written: &NixSettings, version: &str) -> (text: String)
    ensures
        text@ == rendered(
            match existing {
                Some(found) => Some(found@),
                None => None,
            },
            written@,
            version@,
        ),
{
    let mut text = String::new();
    let ghost head: Seq<char> = Seq::empty();
    if let Some(found) = existing {
        let count = found.len();
        let mut i: usize = 0;
        assert(found@.take(0) =~= Settings::empty());
        assert(text@ =~= setting_lines(kept(found@.take(0), written@)));
        while i < count
            invariant
                i <= count,
                count == found@.len(),
                text@ == setting_lines(kept(found@.take(i as int), written@)),
            decreases count - i,
        {
            assert(found@.take(i as int + 1).drop_last() =~= found@.take(i as int));
            assert(found@.take(i as int + 1).last() == found@[i as int]);
            let (name, value) = found.get_index(i).unwrap();
            if written.get(name.as_str()).is_none() {
                let ghost before = kept(found@.take(i as int), written@);
                assert(before.push(found@[i as int]).drop_last() =~= before);
                push_setting(&mut text, name, value);
            }
            i = i + 1;
        }
        assert(found@.take(i as int) =~= found@);
        text.append("\n");
        proof {
            head = text@;
        }
    }
    assert(text@ =~= head);
    text.append("# Generated by https://github.com/DeterminateSystems/nix-installer, version ");
    text.append(version);
    text.append(".\n");
    assert(text@ =~= head + generated_line(version@));
    let count = written.len();
    let mut i: usize = 0;
    assert(written@.take(0) =~= Settings::empty());
    assert(text@ =~= head + generated_line(version@) + setting_lines(written@.take(0)));
    while i < count
        invariant
            i <= count,
            count == written@.len(),
            text@ == head + generated_line(version@) + setting_lines(written@.take(i as int)),
        decreases count - i,
    {
        assert(written@.take(i as int + 1).drop_last() =~= written@.take(i as int));
        assert(written@.take(i as int + 1).last() == written@[i as int]);
        let (name, value) = written.get_index(i).unwrap();
        push_setting(&mut text, name, value);
        assert(text@ =~= head + generated_line(version@) + setting_lines(
            written@.take(i as int + 1),
        ));
        i = i + 1;
    }
    assert(written@.take(i as int) =~= written@);
    text
}

/// The settings that the written file holds: those of `existing` that are
/// not written anew, then the written ones.
pub open spec fn effective(existing: Settings, written: Settings) -> Settings {
    kept(existing, written) + written
}

/// Among distinct names, a setting that is held is the one that is looked up.
pub proof fn lemma_lookup_held(settings: Settings, i: int)
    requires
        distinct_names(settings),
        0 <= i < settings.len(),
    ensures
        lookup(settings, settings[i].0) == Some(settings[i].1),
{
    lemma_position(settings, i);
}

/// What is kept of distinct settings is distinct, holds nothing that is
/// written anew, and holds everything else.
pub proof fn lemma_kept(existing: Settings, written: Settings)
    requires
        distinct_names(existing),
    ensures
        distinct_names(kept(existing, written)),
        forall|k: int|
            0 <= k < kept(existing, written).len() ==> {
                &&& !is_set(written, (#[trigger] kept(existing, written)[k]).0)
                &&& exists|i: int| 0 <= i < existing.len() && existing[i] == kept(existing, written)[k]
            },
        forall|i: int|
            0 <= i < existing.len() && !is_set(written, (#[trigger] existing[i]).0) ==> exists|k: int|
                0 <= k < kept(existing, written).len() && kept(existing, written)[k] == existing[i],
    decreases existing.len(),
{
    if existing.len() > 0 {
        let init = existing.drop_last();
        let last = existing.last();
        assert forall|a: int, b: int| 0 <= a < b < init.len() implies (#[trigger] init[a]).0 != (
        #[trigger] init[b]).0 by {
            assert(existing[a].0 != existing[b].0);
        }
        lemma_kept(init, written);
        let before = kept(init, written);
        let all = kept(existing, written);
        assert forall|k: int| 0 <= k < before.len() implies (#[trigger] before[k]).0 != last.0 && exists|
            i: int,
        | 0 <= i < existing.len() && existing[i] == before[k] by {
            let i = choose|i: int| 0 <= i < init.len() && init[i] == before[k];
            assert(existing[i] == before[k]);
            assert(existing[i].0 != existing[existing.len() - 1].0);
        }
        assert forall|k: int| 0 <= k < all.len() implies {
            &&& !is_set(written, (#[trigger] all[k]).0)
            &&& exists|i: int| 0 <= i < existing.len() && existing[i] == all[k]
        } by {
            if k < before.len() {
                assert(all[k] == before[k]);
            } else {
                assert(existing[existing.len() - 1] == all[k]);
            }
        }
        assert forall|a: int, b: int| 0 <= a < b < all.len() implies (#[trigger] all[a]).0 != (
        #[trigger] all[b]).0 by {
            if b < before.len() {
                assert(before[a].0 != before[b].0);
            } else {
                assert(before[a].0 != last.0);
            }
        }
        assert forall|i: int|
            0 <= i < existing.len() && !is_set(written, (#[trigger] existing[i]).0) implies exists|
            k: int,
        | 0 <= k < all.len() && all[k] == existing[i] by {
            if i < init.len() {
                assert(init[i] == existing[i]);
                let k = choose|k: int| 0 <= k < before.len() && before[k] == init[i];
                assert(all[k] == existing[i]);
            } else {
                assert(all[all.len() - 1] == existing[i]);
            }
        }
    }
}

/// What is to be written for distinct wanted settings is distinct, and
/// holds a setting exactly where merging the wanted one says to write it.
pub proof fn lemma_merged(existing: Settings, pending: Settings)
    requires
        distinct_names(pending),
    ensures
        distinct_names(merged(existing, pending)),
        forall|j: int|
            0 <= j < pending.len() ==> match merge_one(
                existing,
                (#[trigger] pending[j]).0,
                pending[j].1,
            ) {
                Merge::Write(value) => exists|k: int|
                    0 <= k < merged(existing, pending).len() && merged(existing, pending)[k] == (
                        pending[j].0,
                        value,
                    ),
                _ => !is_set(merged(existing, pending), pending[j].0),
            },
    decreases pending.len(),
{
    if pending.len() > 0 {
        let init = pending.drop_last();
        let last = pending.last();
        assert forall|a: int, b: int| 0 <= a < b < init.len() implies (#[trigger] init[a]).0 != (
        #[trigger] init[b]).0 by {
            assert(pending[a].0 != pending[b].0);
        }
        lemma_merged(existing, init);
        let before = merged(existing, init);
        let all = merged(existing, pending);
        assert(!is_set(before, last.0)) by {
            if is_set(before, last.0) {
                lemma_merged_names(existing, init, last.0);
                let j = choose|j: int| 0 <= j < init.len() && (#[trigger] init[j]).0 == last.0;
                assert(pending[j].0 != pending[pending.len() - 1].0);
            }
        }
        assert forall|a: int, b: int| 0 <= a < b < all.len() implies (#[trigger] all[a]).0 != (
        #[trigger] all[b]).0 by {
            if b < before.len() {
                assert(before[a].0 != before[b].0);
            } else {
                assert(before[a].0 == all[a].0);
            }
        }
        assert forall|j: int| 0 <= j < pending.len() implies match merge_one(
            existing,
            (#[trigger] pending[j]).0,
            pending[j].1,
        ) {
            Merge::Write(value) => exists|k: int|
                0 <= k < all.len() && all[k] == (pending[j].0, value),
            _ => !is_set(all, pending[j].0),
        } by {
            if j < init.len() {
                assert(init[j] == pending[j]);
                assert(pending[j].0 != pending[pending.len() - 1].0);
                match merge_one(existing, pending[j].0, pending[j].1) {
                    Merge::Write(value) => {
                        let k = choose|k: int|
                            0 <= k < before.len() && before[k] == (init[j].0, value);
                        assert(all[k] == before[k]);
                    },
                    _ => {
                        if is_set(all, pending[j].0) {
                            let k = choose|k: int|
                                0 <= k < all.len() && (#[trigger] all[k]).0 == pending[j].0;
                            if k < before.len() {
                                assert(before[k].0 == pending[j].0);
                            }
                        }
                    },
                }
            } else {
                match merge_one(existing, last.0, last.1) {
                    Merge::Write(value) => {
                        assert(all[all.len() - 1] == (last.0, value));
                    },
                    _ => {},
                }
            }
        }
    }
}

/// Where every wanted setting is satisfied, nothing is to be written and
/// nothing is in the way.
pub proof fn lemma_all_satisfied(existing: Settings, pending: Settings)
    requires
        forall|j: int|
            0 <= j < pending.len() ==> merge_one(existing, (#[trigger] pending[j]).0, pending[j].1)
                is Satisfied,
    ensures
        merged(existing, pending).len() == 0,
        conflicts(existing, pending).len() == 0,
    decreases pending.len(),
{
    if pending.len() > 0 {
        let init = pending.drop_last();
        assert forall|j: int| 0 <= j < init.len() implies merge_one(
            existing,
            (#[trigger] init[j]).0,
            init[j].1,
        ) is Satisfied by {
            assert(init[j] == pending[j]);
        }
        lemma_all_satisfied(existing, init);
        assert(pending[pending.len() - 1] == pending.last());
    }
}

/// Where nothing is in the way, no wanted setting is in conflict.
pub proof fn lemma_no_conflicts(existing: Settings, pending: Settings, j: int)
    requires
        conflicts(existing, pending).len() == 0,
        0 <= j < pending.len(),
    ensures
        !(merge_one(existing, pending[j].0, pending[j].1) is Conflict),
    decreases pending.len(),
{
    if j < pending.len() - 1 {
        let init = pending.drop_last();
        assert(init[j] == pending[j]);
        lemma_no_conflicts(existing, init, j);
    }
}

/// Merging settles: once the merged settings have been written, the file
/// satisfies every wanted setting, so that planning the same settings again
/// finds nothing to write and nothing in the way.
#[verifier::rlimit(60)]
pub proof fn lemma_merge_settles(existing: Settings, pending: Settings)
    requires
        distinct_names(existing),
        distinct_names(pending),
        conflicts(existing, pending).len() == 0,
    ensures
        distinct_names(effective(existing, merged(existing, pending))),
        merged(effective(existing, merged(existing, pending)), pending).len() == 0,
        conflicts(effective(existing, merged(existing, pending)), pending).len() == 0,
{
    let written = merged(existing, pending);
    let held = kept(existing, written);
    let file = effective(existing, written);
    lemma_merged(existing, pending);
    lemma_kept(existing, written);
    assert forall|a: int, b: int| 0 <= a < b < file.len() implies (#[trigger] file[a]).0 != (
    #[trigger] file[b]).0 by {
        if b < held.len() {
            assert(held[a].0 != held[b].0);
        } else if a >= held.len() {
            assert(written[a - held.len()].0 != written[b - held.len()].0);
        } else {
            assert(!is_set(written, held[a].0));
            assert(written[b - held.len()].0 == file[b].0);
        }
    }
    assert forall|j: int| 0 <= j < pending.len() implies merge_one(
        file,
        (#[trigger] pending[j]).0,
        pending[j].1,
    ) is Satisfied by {
        let name = pending[j].0;
        let value = pending[j].1;
        lemma_no_conflicts(existing, pending, j);
        let wanted = split(value, ' ');
        match merge_one(existing, name, value) {
            Merge::Write(text) => {
                let k = choose|k: int| 0 <= k < written.len() && written[k] == (name, text);
                assert(file[held.len() + k] == (name, text));
                lemma_lookup_held(file, held.len() + k);
                assert(lookup(file, name) == Some(text));
                if lookup(existing, name) is None {
                    assert(text == value);
                    assert forall|i: int| 0 <= i < wanted.len() implies wanted.contains(
                        #[trigger] wanted[i],
                    ) by {}
                } else {
                    let found = lookup(existing, name)->0;
                    let have = split(found, ' ');
                    let tokens = dedup(wanted + have);
                    lemma_split_parts(value, ' ');
                    lemma_split_parts(found, ' ');
                    lemma_dedup(wanted + have);
                    assert((wanted + have)[0] == wanted[0]);
                    assert((wanted + have).contains(wanted[0]));
                    assert(tokens.contains(wanted[0]));
                    assert forall|i: int| 0 <= i < tokens.len() implies !(#[trigger] tokens[i]).contains(
                        ' ',
                    ) by {
                        assert(tokens.contains(tokens[i]));
                        assert((wanted + have).contains(tokens[i]));
                        let m = choose|m: int| 0 <= m < (wanted + have).len() && (wanted + have)[m]
                            == tokens[i];
                        if m < wanted.len() {
                            assert(wanted[m] == tokens[i]);
                        } else {
                            assert(have[m - wanted.len()] == tokens[i]);
                        }
                    }
                    lemma_split_join(tokens, ' ');
                    assert(split(text, ' ') == tokens);
                    assert forall|i: int| 0 <= i < wanted.len() implies tokens.contains(
                        #[trigger] wanted[i],
                    ) by {
                        assert((wanted + have)[i] == wanted[i]);
                        assert((wanted + have).contains(wanted[i]));
                    }
                }
            },
            _ => {
                assert(!is_set(written, name));
                assert(is_set(existing, name));
                let i = position(existing, name);
                assert(existing[i].0 == name);
                lemma_position(existing, i);
                let k = choose|k: int| 0 <= k < held.len() && held[k] == existing[i];
                assert(file[k] == existing[i]);
                lemma_lookup_held(file, k);
                assert(lookup(file, name) == lookup(existing, name));
            },
        }
    }
    lemma_all_satisfied(file, pending);
}

/// Whether the parser takes `c` for white space at the ends of a line.
pub open spec fn is_space(c: char) -> bool {
    let n = c as u32;
    ||| 0x09 <= n <= 0x0d
    ||| n == 0x20
    ||| n == 0x85
    ||| n == 0xa0
    ||| n == 0x1680
    ||| 0x2000 <= n <= 0x200a
    ||| n == 0x2028
    ||| n == 0x2029
    ||| n == 0x202f
    ||| n == 0x205f
    ||| n == 0x3000
}

/// Whether `c` parts the words of a line.
pub open spec fn is_separator(c: char) -> bool {
    c == ' ' || c == '\t' || c == '\n' || c == '\r'
}

/// Where the comment of the line begins, looking from `from` on: at the
/// first `#`, or at the end of the line.
pub open spec fn comment_from(line: Seq<char>, from: int) -> int
    decreases line.len() - from,
{
    if from < 0 || from >= line.len() {
        line.len() as int
    } else if line[from] == '#' {
        from
    } else {
        comment_from(line, from + 1)
    }
}

/// The first place from `from` on and before `end` that holds no white
/// space, or `end`.
pub open spec fn word_start(line: Seq<char>, from: int, end: int) -> int
    decreases end - from,
{
    if from < 0 || from >= end || end > line.len() {
        end
    } else if !is_space(line[from]) {
        from
    } else {
        word_start(line, from + 1, end)
    }
}

/// The place behind the last character before `end` and not before `start`
/// that is no white space, or `start`.
pub open spec fn words_end(line: Seq<char>, start: int, end: int) -> int
    decreases end - start,
{
    if start < 0 || end <= start || end > line.len() {
        start
    } else if !is_space(line[end - 1]) {
        end
    } else {
        words_end(line, start, end - 1)
    }
}

/// The first place from `from` on and before `end` that parts two words, or
/// `end`.
pub open spec fn word_end(line: Seq<char>, from: int, end: int) -> int
    decreases end - from,
{
    if from < 0 || from >= end || end > line.len() {
        end
    } else if is_separator(line[from]) {
        from
    } else {
        word_end(line, from + 1, end)
    }
}

/// Where the first word of the line stands, as the parser reads the line:
/// the comment is cut off, then the white space at both ends, and the first
/// word runs up to the first character that parts words.
pub open spec fn first_word_span(line: Seq<char>) -> (int, int) {
    let cut = comment_from(line, 0);
    let start = word_start(line, 0, cut);
    let stop = words_end(line, start, cut);
    (start, word_end(line, start, stop))
}

/// The first word of the line, as the parser reads the line; the empty word
/// where the line holds none.
pub open spec fn first_word(line: Seq<char>) -> Seq<char> {
    let (start, end) = first_word_span(line);
    line.subrange(start, end)
}

/// Whether the parser takes the line for one that names another file: its
/// first word is `include` or `!include`.
pub open spec fn names_file(line: Seq<char>) -> bool {
    first_word(line) == "include"@ || first_word(line) == "!include"@
}

/// Whether the parser takes one of the lines of the text for one that names
/// another file.
pub open spec fn names_other_files(contents: Seq<char>) -> bool {
    exists|i: int|
        0 <= i < split(contents, '\n').len() && names_file(#[trigger] split(contents, '\n')[i])
}

/// Whether the parser takes `c` for white space at the ends of a line.
pub fn is_blank(c: char) -> (blank: bool)
    ensures
        blank == is_space(c),
{
    let n: u32 = c as u32;
    (0x09 <= n && n <= 0x0d) || n == 0x20 || n == 0x85 || n == 0xa0 || n == 0x1680 || (0x2000 <= n
        && n <= 0x200a) || n == 0x2028 || n == 0x2029 || n == 0x202f || n == 0x205f || n == 0x3000
}

/// Whether `c` parts the words of a line.
pub fn parts_words(c: char) -> (parts: bool)
    ensures
        parts == is_separator(c),
{
    c == ' ' || c == '\t' || c == '\n' || c == '\r'
}

/// Whether the characters of `line` from `start` up to `end` are `word`.
fn span_is(line: &Vec<char>, start: usize, end: usize, word: &str) -> (same: bool)
    requires
        start <= end <= line@.len(),
    ensures
        same == (line@.subrange(start as int, end as int) == word@),
{
    let wanted = chars_of(word);
    if wanted.len() != end - start {
        return false;
    }
    let ghost span = line@.subrange(start as int, end as int);
    let mut i: usize = 0;
    while i < wanted.len()
        invariant
            start <= end <= line@.len(),
            wanted@.len() == end - start,
            wanted@ == word@,
            span == line@.subrange(start as int, end as int),
            i <= wanted@.len(),
            forall|k: int| 0 <= k < i ==> span[k] == wanted@[k],
        decreases wanted@.len() - i,
    {
        if line[start + i] != wanted[i] {
            assert(span[i as int] != wanted@[i as int]);
            return false;
        }
        i += 1;
    }
    assert(span =~= wanted@);
    true
}

/// Whether the parser takes the line for one that names another file.
pub fn line_names_file(line: &Vec<char>) -> (found: bool)
    ensures
        found == names_file(line@),
{
    let mut cut: usize = 0;
    while cut < line.len() && line[cut] != '#'
        invariant
            cut <= line@.len(),
            comment_from(line@, 0) == comment_from(line@, cut as int),
        decreases line@.len() - cut,
    {
        cut += 1;
    }
    let mut start: usize = 0;
    while start < cut && is_blank(line[start])
        invariant
            start <= cut <= line@.len(),
            word_start(line@, 0, cut as int) == word_start(line@, start as int, cut as int),
        decreases cut - start,
    {
        start += 1;
    }
    let mut stop: usize = cut;
    while stop > start && is_blank(line[stop - 1])
        invariant
            start <= stop <= cut,
            cut <= line@.len(),
            words_end(line@, start as int, cut as int) == words_end(line@, start as int, stop as int),
        decreases stop - start,
    {
        stop -= 1;
    }
    let mut end: usize = start;
    while end < stop && !parts_words(line[end])
        invariant
            start <= end <= stop,
            stop <= line@.len(),
            word_end(line@, start as int, stop as int) == word_end(line@, end as int, stop as int),
        decreases stop - end,
    {
        end += 1;
    }
    assert(first_word_span(line@) == (start as int, end as int));
    span_is(line, start, end, "include") || span_is(line, start, end, "!include")
}

/// Whether the parser takes one of the lines of the text for one that names
/// another file.
pub fn text_names_other_files(contents: &str) -> (found: bool)
    ensures
        found == names_other_files(contents@),
{
    let lines = split_on(contents, '\n');
    let mut i: usize = 0;
    while i < lines.len()
        invariant
            i <= lines@.len(),
            views(lines@) == split(contents@, '\n'),
            forall|k: int| 0 <= k < i ==> !names_file(#[trigger] split(contents@, '\n')[k]),
        decreases lines@.len() - i,
    {
        let line = chars_of(lines[i].as_str());
        assert(views(lines@)[i as int] == lines@[i as int]@);
        if line_names_file(&line) {
            assert(names_file(split(contents@, '\n')[i as int]));
            return true;
        }
        i += 1;
    }
    false
}

#[verifier::external_type_specification]
#[verifier::external_body]
pub struct ExParseError(nix_config_parser::ParseError);

/// What `nix_config_parser::NixConfig::parse_string` reads from a text that
/// names no other file: the settings in the order in which it holds them,
/// or nothing where it rejects the text.
pub uninterp spec fn parsed_settings(contents: Seq<char>) -> Option<Settings>;

/// Calls `nix_config_parser::NixConfig::parse_string` without an origin and
/// hands out the settings in the order in which the parser holds them. The
/// parser reads another file only for a line whose first word is `include`
/// or `!include`; a text with such a line is ruled out, so that what comes
/// back depends on the text alone.
#[verifier::external_body]
pub(crate) fn parse_settings(contents: &str) -> (parsed: Result<
    Vec<(String, String)>,
    nix_config_parser::ParseError,
>)
    requires
        !names_other_files(contents@),
    ensures
        match parsed {
            Ok(pairs) => parsed_settings(contents@) == Some(plain(pairs@)),
            Err(_) => parsed_settings(contents@) is None,
        },
{
    let config = nix_config_parser::NixConfig::parse_string(contents.to_owned(), None)?;
    Ok(config.into_settings().into_iter().collect())
}

/// The message of a `nix_config_parser::ParseError`, as its `Display` writes
/// it. Nothing is claimed of the text.
#[verifier::external_body]
pub(crate) fn parse_error_text(error: &nix_config_parser::ParseError) -> (text: String) {
    error.to_string()
}

} // verus!
