//! How each kind of action is written.
use vstd::prelude::*;
use crate::action::base::create_or_insert_into_file::Position;
use crate::action::common::place_channel_configuration::{channel_views, ChannelValue};
use crate::action::{
    Action, ActionTag, BootstrapLaunchctlService, ConfigureNix, ConfigureNixDaemonService, ConfigureShellProfile, CreateApfsVolume, CreateDirectory, CreateFile, CreateFstabEntry, CreateGroup, CreateNixVolume, CreateOrInsertIntoFile, CreateOrMergeNixConfig, CreateSyntheticObjects, CreateSystemdSysext, CreateUser, CreateUsersAndGroups, EnableOwnership, EncryptApfsVolume, FetchAndUnpackNix, KickstartLaunchctlService, MoveUnpackedNix, PlaceChannelConfiguration, PlaceNixConfiguration, ProvisionNix, SetupDefaultProfile, StartSystemdUnit, UnmountApfsVolume, WaitForVolume,
};
use crate::nix_config::{distinct_names, plain, NixSettings, Settings};
use crate::settings::CommonSettings;
use crate::receipt::{
    entry, entry_forms, flag_form, forms, long_form, number_form, optional_form, optional_number_form,
    optional_settings_form, pairs_form, read_flag, read_long, read_number, read_optional,
    read_optional_number, read_optional_settings, read_settings, read_text, read_texts,
    settings_form, text_form, texts_form, write_flag, write_long, write_number, write_optional,
    write_optional_number, write_optional_settings, write_pairs, write_text, write_texts, Form, Value,
};
use crate::text::text_is;

verus! {

/// The named values from `from` on, `count` of them, where there are so
/// many.
pub open spec fn window(entries: Seq<(Seq<char>, Form)>, from: int, count: int) -> Option<
    Seq<(Seq<char>, Form)>,
> {
    if 0 <= from && 0 <= count && from + count <= entries.len() {
        Some(entries.subrange(from, from + count))
    } else {
        None
    }
}

/// How a position is written: `Start` and `End` as their names, and a
/// marker as the value named `Beneath`.
pub open spec fn position_form(position: Position) -> Form {
    match position {
        Position::Start => Form::Text("Start"@),
        Position::End => Form::Text("End"@),
        Position::Beneath(marker) => Form::Object(seq![("Beneath"@, Form::Text(marker@))]),
    }
}

/// Writes a position.
pub fn write_position(position: &Position) -> (value: Value)
    ensures
        value@ == position_form(*position),
{
    match position {
        Position::Start => Value::Text(String::from_str("Start")),
        Position::End => Value::Text(String::from_str("End")),
        Position::Beneath(marker) => {
            let mut entries: Vec<(String, Value)> = Vec::new();
            entries.push((String::from_str("Beneath"), Value::Text(marker.clone())));
            proof {
                Value::lemma_object(entries);
                assert(entry_forms(entries@) =~= seq![("Beneath"@, Form::Text(marker@))]);
            }
            Value::Object(entries)
        },
    }
}

/// Reads a position.
pub fn read_position(value: &Value) -> (position: Option<Position>)
    ensures
        match position {
            Some(found) => value@ == position_form(found),
            None => forall|any: Position| value@ != position_form(any),
        },
{
    match value {
        Value::Text(word) => {
            if text_is(word, "Start") {
                Some(Position::Start)
            } else if text_is(word, "End") {
                Some(Position::End)
            } else {
                None
            }
        },
        Value::Object(entries) => {
            proof {
                Value::lemma_object(*entries);
            }
            if entries.len() != 1 {
                assert forall|any: Position| value@ != position_form(any) by {
                    if value@ == position_form(any) {
                        assert(position_form(any)->Object_0.len() == 1);
                    }
                }
                return None;
            }
            match entry(entries, 0, "Beneath") {
                Some(Value::Text(marker)) => {
                    let found = Position::Beneath(marker.clone());
                    assert(entry_forms(entries@) =~= position_form(found)->Object_0);
                    Some(found)
                },
                _ => {
                    assert forall|any: Position| value@ != position_form(any) by {
                        if value@ == position_form(any) {
                            assert(entry_forms(entries@)[0] == position_form(any)->Object_0[0]);
                            Value::lemma_kind(entries@[0].1);
                        }
                    }
                    None
                },
            }
        },
        _ => None,
    }
}

/// How channels are written: each as the list of its name and its address.
pub open spec fn channels_form(channels: Vec<ChannelValue>) -> Form {
    pairs_form(channel_views(channels@))
}

/// Writes channels.
pub fn write_channels(channels: &Vec<ChannelValue>) -> (value: Value)
    ensures
        value@ == channels_form(*channels),
{
    let mut items: Vec<Value> = Vec::new();
    let mut i: usize = 0;
    while i < channels.len()
        invariant
            i <= channels@.len(),
            items@.len() == i,
            forall|k: int|
                0 <= k < i ==> (#[trigger] items@[k])@ == Form::List(
                    seq![Form::Text(channels@[k].name@), Form::Text(channels@[k].url@)],
                ),
        decreases channels@.len() - i,
    {
        let mut pair: Vec<Value> = Vec::new();
        pair.push(Value::Text(channels[i].name.clone()));
        pair.push(Value::Text(channels[i].url.clone()));
        proof {
            Value::lemma_list(pair);
            assert(forms(pair@) =~= seq![
                Form::Text(channels@[i as int].name@),
                Form::Text(channels@[i as int].url@),
            ]);
        }
        items.push(Value::List(pair));
        i = i + 1;
    }
    proof {
        Value::lemma_list(items);
        assert(forms(items@) =~= channels_form(*channels)->List_0);
    }
    Value::List(items)
}

/// Reads channels.
pub fn read_channels(value: &Value) -> (channels: Option<Vec<ChannelValue>>)
    ensures
        match channels {
            Some(found) => value@ == channels_form(found),
            None => forall|any: Vec<ChannelValue>| value@ != channels_form(any),
        },
{
    match crate::receipt::read_names(value) {
        Some(pairs) => {
            let mut channels: Vec<ChannelValue> = Vec::new();
            let mut i: usize = 0;
            while i < pairs.len()
                invariant
                    i <= pairs@.len(),
                    channels@.len() == i,
                    forall|k: int|
                        0 <= k < i ==> (#[trigger] channel_views(channels@)[k]) == plain(pairs@)[k],
                decreases pairs@.len() - i,
            {
                let ghost before = channel_views(channels@);
                channels.push(ChannelValue { name: pairs[i].0.clone(), url: pairs[i].1.clone() });
                assert forall|k: int| 0 <= k < i + 1 implies (#[trigger] channel_views(channels@)[k])
                    == plain(pairs@)[k] by {
                    if k < i {
                        assert(channel_views(channels@)[k] == before[k]);
                    }
                }
                i = i + 1;
            }
            assert(channel_views(channels@) =~= plain(pairs@));
            Some(channels)
        },
        None => None,
    }
}

impl CreateDirectory {
    /// The named values by which the action is written, in order.
    pub open spec fn fields(self) -> Seq<(Seq<char>, Form)> {
        seq![("path"@, text_form(self.path)), ("user"@, optional_form(self.user)), ("group"@, optional_form(self.group)), ("mode"@, number_form(self.mode)), ("force"@, flag_form(self.force)), ("created"@, flag_form(self.created))]
    }

    /// Whether the action can be written and read back: its settings hold
    /// each name once.
    pub open spec fn valid(self) -> bool {
        true
    }

    pub(crate) fn write_fields(&self) -> (entries: Vec<(String, Value)>)
        ensures
            entry_forms(entries@) == self.fields(),
            self.valid(),
    {
        let mut entries: Vec<(String, Value)> = Vec::new();
        entries.push((String::from_str("path"), write_text(&self.path)));
        entries.push((String::from_str("user"), write_optional(&self.user)));
        entries.push((String::from_str("group"), write_optional(&self.group)));
        entries.push((String::from_str("mode"), write_number(self.mode)));
        entries.push((String::from_str("force"), write_flag(self.force)));
        entries.push((String::from_str("created"), write_flag(self.created)));
        assert(entry_forms(entries@) =~= self.fields());
        entries
    }

    pub(crate) fn read_fields(entries: &Vec<(String, Value)>, from: usize) -> (read: Option<CreateDirectory>)
        requires
            from + 6 <= usize::MAX,
        ensures
            match read {
                Some(found) => window(entry_forms(entries@), from as int, 6) == Some(found.fields()),
                None => forall|any: CreateDirectory|
                    any.valid() ==> window(entry_forms(entries@), from as int, 6) != Some(
                        #[trigger] any.fields(),
                    ),
            },
    {
        let ghost all = entry_forms(entries@);
        if from + 6 > entries.len() {
            return None;
        }
        let path: String = match entry(entries, from + 0, "path") {
            Some(value) => match read_text(value) {
                Some(found) => found,
                None => {
                    assert forall|any: CreateDirectory| any.valid() implies window(all, from as int, 6) != Some(
                        #[trigger] any.fields(),
                    ) by {
                        if window(all, from as int, 6) == Some(any.fields()) {
                            assert(all.subrange(from as int, from + 6)[0] == any.fields()[0]);
                            assert(value@ == text_form(any.path));
                        }
                    }
                    return None;
                },
            },
            None => {
                assert forall|any: CreateDirectory| any.valid() implies window(all, from as int, 6) != Some(
                    #[trigger] any.fields(),
                ) by {
                    if window(all, from as int, 6) == Some(any.fields()) {
                        assert(all.subrange(from as int, from + 6)[0] == any.fields()[0]);
                    }
                }
                return None;
            },
        };
        let user: Option<String> = match entry(entries, from + 1, "user") {
            Some(value) => match read_optional(value) {
                Some(found) => found,
                None => {
                    assert forall|any: CreateDirectory| any.valid() implies window(all, from as int, 6) != Some(
                        #[trigger] any.fields(),
                    ) by {
                        if window(all, from as int, 6) == Some(any.fields()) {
                            assert(all.subrange(from as int, from + 6)[1] == any.fields()[1]);
                            assert(value@ == optional_form(any.user));
                        }
                    }
                    return None;
                },
            },
            None => {
                assert forall|any: CreateDirectory| any.valid() implies window(all, from as int, 6) != Some(
                    #[trigger] any.fields(),
                ) by {
                    if window(all, from as int, 6) == Some(any.fields()) {
                        assert(all.subrange(from as int, from + 6)[1] == any.fields()[1]);
                    }
                }
                return None;
            },
        };
        let group: Option<String> = match entry(entries, from + 2, "group") {
            Some(value) => match read_optional(value) {
                Some(found) => found,
                None => {
                    assert forall|any: CreateDirectory| any.valid() implies window(all, from as int, 6) != Some(
                        #[trigger] any.fields(),
                    ) by {
                        if window(all, from as int, 6) == Some(any.fields()) {
                            assert(all.subrange(from as int, from + 6)[2] == any.fields()[2]);
                            assert(value@ == optional_form(any.group));
                        }
                    }
                    return None;
                },
            },
            None => {
                assert forall|any: CreateDirectory| any.valid() implies window(all, from as int, 6) != Some(
                    #[trigger] any.fields(),
                ) by {
                    if window(all, from as int, 6) == Some(any.fields()) {
                        assert(all.subrange(from as int, from + 6)[2] == any.fields()[2]);
                    }
                }
                return None;
            },
        };
        let mode: u32 = match entry(entries, from + 3, "mode") {
            Some(value) => match read_number(value) {
                Some(found) => found,
                None => {
                    assert forall|any: CreateDirectory| any.valid() implies window(all, from as int, 6) != Some(
                        #[trigger] any.fields(),
                    ) by {
                        if window(all, from as int, 6) == Some(any.fields()) {
                            assert(all.subrange(from as int, from + 6)[3] == any.fields()[3]);
                            assert(value@ == number_form(any.mode));
                        }
                    }
                    return None;
                },
            },
            None => {
                assert forall|any: CreateDirectory| any.valid() implies window(all, from as int, 6) != Some(
                    #[trigger] any.fields(),
                ) by {
                    if window(all, from as int, 6) == Some(any.fields()) {
                        assert(all.subrange(from as int, from + 6)[3] == any.fields()[3]);
                    }
                }
                return None;
            },
        };
        let force: bool = match entry(entries, from + 4, "force") {
            Some(value) => match read_flag(value) {
                Some(found) => found,
                None => {
                    assert forall|any: CreateDirectory| any.valid() implies window(all, from as int, 6) != Some(
                        #[trigger] any.fields(),
                    ) by {
                        if window(all, from as int, 6) == Some(any.fields()) {
                            assert(all.subrange(from as int, from + 6)[4] == any.fields()[4]);
                            assert(value@ == flag_form(any.force));
                        }
                    }
                    return None;
                },
            },
            None => {
                assert forall|any: CreateDirectory| any.valid() implies window(all, from as int, 6) != Some(
                    #[trigger] any.fields(),
                ) by {
                    if window(all, from as int, 6) == Some(any.fields()) {
                        assert(all.subrange(from as int, from + 6)[4] == any.fields()[4]);
                    }
                }
                return None;
            },
        };
        let created: bool = match entry(entries, from + 5, "created") {
            Some(value) => match read_flag(value) {
                Some(found) => found,
                None => {
                    assert forall|any: CreateDirectory| any.valid() implies window(all, from as int, 6) != Some(
                        #[trigger] any.fields(),
                    ) by {
                        if window(all, from as int, 6) == Some(any.fields()) {
                            assert(all.subrange(from as int, from + 6)[5] == any.fields()[5]);
                            assert(value@ == flag_form(any.created));
                        }
                    }
                    return None;
                },
            },
            None => {
                assert forall|any: CreateDirectory| any.valid() implies window(all, from as int, 6) != Some(
                    #[trigger] any.fields(),
                ) by {
                    if window(all, from as int, 6) == Some(any.fields()) {
                        assert(all.subrange(from as int, from + 6)[5] == any.fields()[5]);
                    }
                }
                return None;
            },
        };
        let found = CreateDirectory { path, user, group, mode, force, created };
        assert(all.subrange(from as int, from + 6) =~= found.fields());
        Some(found)
    }
}

impl CreateFile {
    /// The named values by which the action is written, in order.
    pub open spec fn fields(self) -> Seq<(Seq<char>, Form)> {
        seq![("path"@, text_form(self.path)), ("user"@, optional_form(self.user)), ("group"@, optional_form(self.group)), ("mode"@, optional_number_form(self.mode)), ("buf"@, text_form(self.buf)), ("force"@, flag_form(self.force))]
    }

    /// Whether the action can be written and read back: its settings hold
    /// each name once.
    pub open spec fn valid(self) -> bool {
        true
    }

    pub(crate) fn write_fields(&self) -> (entries: Vec<(String, Value)>)
        ensures
            entry_forms(entries@) == self.fields(),
            self.valid(),
    {
        let mut entries: Vec<(String, Value)> = Vec::new();
        entries.push((String::from_str("path"), write_text(&self.path)));
        entries.push((String::from_str("user"), write_optional(&self.user)));
        entries.push((String::from_str("group"), write_optional(&self.group)));
        entries.push((String::from_str("mode"), write_optional_number(&self.mode)));
        entries.push((String::from_str("buf"), write_text(&self.buf)));
        entries.push((String::from_str("force"), write_flag(self.force)));
        assert(entry_forms(entries@) =~= self.fields());
        entries
    }

    pub(crate) fn read_fields(entries: &Vec<(String, Value)>, from: usize) -> (read: Option<CreateFile>)
        requires
            from + 6 <= usize::MAX,
        ensures
            match read {
                Some(found) => window(entry_forms(entries@), from as int, 6) == Some(found.fields()),
                None => forall|any: CreateFile|
                    any.valid() ==> window(entry_forms(entries@), from as int, 6) != Some(
                        #[trigger] any.fields(),
                    ),
            },
    {
        let ghost all = entry_forms(entries@);
        if from + 6 > entries.len() {
            return None;
        }
        let path: String = match entry(entries, from + 0, "path") {
            Some(value) => match read_text(value) {
                Some(found) => found,
                None => {
                    assert forall|any: CreateFile| any.valid() implies window(all, from as int, 6) != Some(
                        #[trigger] any.fields(),
                    ) by {
                        if window(all, from as int, 6) == Some(any.fields()) {
                            assert(all.subrange(from as int, from + 6)[0] == any.fields()[0]);
                            assert(value@ == text_form(any.path));
                        }
                    }
                    return None;
                },
            },
            None => {
                assert forall|any: CreateFile| any.valid() implies window(all, from as int, 6) != Some(
                    #[trigger] any.fields(),
                ) by {
                    if window(all, from as int, 6) == Some(any.fields()) {
                        assert(all.subrange(from as int, from + 6)[0] == any.fields()[0]);
                    }
                }
                return None;
            },
        };
        let user: Option<String> = match entry(entries, from + 1, "user") {
            Some(value) => match read_optional(value) {
                Some(found) => found,
                None => {
                    assert forall|any: CreateFile| any.valid() implies window(all, from as int, 6) != Some(
                        #[trigger] any.fields(),
                    ) by {
                        if window(all, from as int, 6) == Some(any.fields()) {
                            assert(all.subrange(from as int, from + 6)[1] == any.fields()[1]);
                            assert(value@ == optional_form(any.user));
                        }
                    }
                    return None;
                },
            },
            None => {
                assert forall|any: CreateFile| any.valid() implies window(all, from as int, 6) != Some(
                    #[trigger] any.fields(),
                ) by {
                    if window(all, from as int, 6) == Some(any.fields()) {
                        assert(all.subrange(from as int, from + 6)[1] == any.fields()[1]);
                    }
                }
                return None;
            },
        };
        let group: Option<String> = match entry(entries, from + 2, "group") {
            Some(value) => match read_optional(value) {
                Some(found) => found,
                None => {
                    assert forall|any: CreateFile| any.valid() implies window(all, from as int, 6) != Some(
                        #[trigger] any.fields(),
                    ) by {
                        if window(all, from as int, 6) == Some(any.fields()) {
                            assert(all.subrange(from as int, from + 6)[2] == any.fields()[2]);
                            assert(value@ == optional_form(any.group));
                        }
                    }
                    return None;
                },
            },
            None => {
                assert forall|any: CreateFile| any.valid() implies window(all, from as int, 6) != Some(
                    #[trigger] any.fields(),
                ) by {
                    if window(all, from as int, 6) == Some(any.fields()) {
                        assert(all.subrange(from as int, from + 6)[2] == any.fields()[2]);
                    }
                }
                return None;
            },
        };
        let mode: Option<u32> = match entry(entries, from + 3, "mode") {
            Some(value) => match read_optional_number(value) {
                Some(found) => found,
                None => {
                    assert forall|any: CreateFile| any.valid() implies window(all, from as int, 6) != Some(
                        #[trigger] any.fields(),
                    ) by {
                        if window(all, from as int, 6) == Some(any.fields()) {
                            assert(all.subrange(from as int, from + 6)[3] == any.fields()[3]);
                            assert(value@ == optional_number_form(any.mode));
                        }
                    }
                    return None;
                },
            },
            None => {
                assert forall|any: CreateFile| any.valid() implies window(all, from as int, 6) != Some(
                    #[trigger] any.fields(),
                ) by {
                    if window(all, from as int, 6) == Some(any.fields()) {
                        assert(all.subrange(from as int, from + 6)[3] == any.fields()[3]);
                    }
                }
                return None;
            },
        };
        let buf: String = match entry(entries, from + 4, "buf") {
            Some(value) => match read_text(value) {
                Some(found) => found,
                None => {
                    assert forall|any: CreateFile| any.valid() implies window(all, from as int, 6) != Some(
                        #[trigger] any.fields(),
                    ) by {
                        if window(all, from as int, 6) == Some(any.fields()) {
                            assert(all.subrange(from as int, from + 6)[4] == any.fields()[4]);
                            assert(value@ == text_form(any.buf));
                        }
                    }
                    return None;
                },
            },
            None => {
                assert forall|any: CreateFile| any.valid() implies window(all, from as int, 6) != Some(
                    #[trigger] any.fields(),
                ) by {
                    if window(all, from as int, 6) == Some(any.fields()) {
                        assert(all.subrange(from as int, from + 6)[4] == any.fields()[4]);
                    }
                }
                return None;
            },
        };
        let force: bool = match entry(entries, from + 5, "force") {
            Some(value) => match read_flag(value) {
                Some(found) => found,
                None => {
                    assert forall|any: CreateFile| any.valid() implies window(all, from as int, 6) != Some(
                        #[trigger] any.fields(),
                    ) by {
                        if window(all, from as int, 6) == Some(any.fields()) {
                            assert(all.subrange(from as int, from + 6)[5] == any.fields()[5]);
                            assert(value@ == flag_form(any.force));
                        }
                    }
                    return None;
                },
            },
            None => {
                assert forall|any: CreateFile| any.valid() implies window(all, from as int, 6) != Some(
                    #[trigger] any.fields(),
                ) by {
                    if window(all, from as int, 6) == Some(any.fields()) {
                        assert(all.subrange(from as int, from + 6)[5] == any.fields()[5]);
                    }
                }
                return None;
            },
        };
        let found = CreateFile { path, user, group, mode, buf, force };
        assert(all.subrange(from as int, from + 6) =~= found.fields());
        Some(found)
    }
}

impl CreateGroup {
    /// The named values by which the action is written, in order.
    pub open spec fn fields(self) -> Seq<(Seq<char>, Form)> {
        seq![("name"@, text_form(self.name)), ("gid"@, number_form(self.gid))]
    }

    /// Whether the action can be written and read back: its settings hold
    /// each name once.
    pub open spec fn valid(self) -> bool {
        true
    }

    pub(crate) fn write_fields(&self) -> (entries: Vec<(String, Value)>)
        ensures
            entry_forms(entries@) == self.fields(),
            self.valid(),
    {
        let mut entries: Vec<(String, Value)> = Vec::new();
        entries.push((String::from_str("name"), write_text(&self.name)));
        entries.push((String::from_str("gid"), write_number(self.gid)));
        assert(entry_forms(entries@) =~= self.fields());
        entries
    }

    pub(crate) fn read_fields(entries: &Vec<(String, Value)>, from: usize) -> (read: Option<CreateGroup>)
        requires
            from + 2 <= usize::MAX,
        ensures
            match read {
                Some(found) => window(entry_forms(entries@), from as int, 2) == Some(found.fields()),
                None => forall|any: CreateGroup|
                    any.valid() ==> window(entry_forms(entries@), from as int, 2) != Some(
                        #[trigger] any.fields(),
                    ),
            },
    {
        let ghost all = entry_forms(entries@);
        if from + 2 > entries.len() {
            return None;
        }
        let name: String = match entry(entries, from + 0, "name") {
            Some(value) => match read_text(value) {
                Some(found) => found,
                None => {
                    assert forall|any: CreateGroup| any.valid() implies window(all, from as int, 2) != Some(
                        #[trigger] any.fields(),
                    ) by {
                        if window(all, from as int, 2) == Some(any.fields()) {
                            assert(all.subrange(from as int, from + 2)[0] == any.fields()[0]);
                            assert(value@ == text_form(any.name));
                        }
                    }
                    return None;
                },
            },
            None => {
                assert forall|any: CreateGroup| any.valid() implies window(all, from as int, 2) != Some(
                    #[trigger] any.fields(),
                ) by {
                    if window(all, from as int, 2) == Some(any.fields()) {
                        assert(all.subrange(from as int, from + 2)[0] == any.fields()[0]);
                    }
                }
                return None;
            },
        };
        let gid: u32 = match entry(entries, from + 1, "gid") {
            Some(value) => match read_number(value) {
                Some(found) => found,
                None => {
                    assert forall|any: CreateGroup| any.valid() implies window(all, from as int, 2) != Some(
                        #[trigger] any.fields(),
                    ) by {
                        if window(all, from as int, 2) == Some(any.fields()) {
                            assert(all.subrange(from as int, from + 2)[1] == any.fields()[1]);
                            assert(value@ == number_form(any.gid));
                        }
                    }
                    return None;
                },
            },
            None => {
                assert forall|any: CreateGroup| any.valid() implies window(all, from as int, 2) != Some(
                    #[trigger] any.fields(),
                ) by {
                    if window(all, from as int, 2) == Some(any.fields()) {
                        assert(all.subrange(from as int, from + 2)[1] == any.fields()[1]);
                    }
                }
                return None;
            },
        };
        let found = CreateGroup { name, gid };
        assert(all.subrange(from as int, from + 2) =~= found.fields());
        Some(found)
    }
}

impl CreateOrInsertIntoFile {
    /// The named values by which the action is written, in order.
    pub open spec fn fields(self) -> Seq<(Seq<char>, Form)> {
        seq![("path"@, text_form(self.path)), ("user"@, optional_form(self.user)), ("group"@, optional_form(self.group)), ("mode"@, optional_number_form(self.mode)), ("buf"@, text_form(self.buf)), ("position"@, position_form(self.position))]
    }

    /// Whether the action can be written and read back: its settings hold
    /// each name once.
    pub open spec fn valid(self) -> bool {
        true
    }

    pub(crate) fn write_fields(&self) -> (entries: Vec<(String, Value)>)
        ensures
            entry_forms(entries@) == self.fields(),
            self.valid(),
    {
        let mut entries: Vec<(String, Value)> = Vec::new();
        entries.push((String::from_str("path"), write_text(&self.path)));
        entries.push((String::from_str("user"), write_optional(&self.user)));
        entries.push((String::from_str("group"), write_optional(&self.group)));
        entries.push((String::from_str("mode"), write_optional_number(&self.mode)));
        entries.push((String::from_str("buf"), write_text(&self.buf)));
        entries.push((String::from_str("position"), write_position(&self.position)));
        assert(entry_forms(entries@) =~= self.fields());
        entries
    }

    pub(crate) fn read_fields(entries: &Vec<(String, Value)>, from: usize) -> (read: Option<CreateOrInsertIntoFile>)
        requires
            from + 6 <= usize::MAX,
        ensures
            match read {
                Some(found) => window(entry_forms(entries@), from as int, 6) == Some(found.fields()),
                None => forall|any: CreateOrInsertIntoFile|
                    any.valid() ==> window(entry_forms(entries@), from as int, 6) != Some(
                        #[trigger] any.fields(),
                    ),
            },
    {
        let ghost all = entry_forms(entries@);
        if from + 6 > entries.len() {
            return None;
        }
        let path: String = match entry(entries, from + 0, "path") {
            Some(value) => match read_text(value) {
                Some(found) => found,
                None => {
                    assert forall|any: CreateOrInsertIntoFile| any.valid() implies window(all, from as int, 6) != Some(
                        #[trigger] any.fields(),
                    ) by {
                        if window(all, from as int, 6) == Some(any.fields()) {
                            assert(all.subrange(from as int, from + 6)[0] == any.fields()[0]);
                            assert(value@ == text_form(any.path));
                        }
                    }
                    return None;
                },
            },
            None => {
                assert forall|any: CreateOrInsertIntoFile| any.valid() implies window(all, from as int, 6) != Some(
                    #[trigger] any.fields(),
                ) by {
                    if window(all, from as int, 6) == Some(any.fields()) {
                        assert(all.subrange(from as int, from + 6)[0] == any.fields()[0]);
                    }
                }
                return None;
            },
        };
        let user: Option<String> = match entry(entries, from + 1, "user") {
            Some(value) => match read_optional(value) {
                Some(found) => found,
                None => {
                    assert forall|any: CreateOrInsertIntoFile| any.valid() implies window(all, from as int, 6) != Some(
                        #[trigger] any.fields(),
                    ) by {
                        if window(all, from as int, 6) == Some(any.fields()) {
                            assert(all.subrange(from as int, from + 6)[1] == any.fields()[1]);
                            assert(value@ == optional_form(any.user));
                        }
                    }
                    return None;
                },
            },
            None => {
                assert forall|any: CreateOrInsertIntoFile| any.valid() implies window(all, from as int, 6) != Some(
                    #[trigger] any.fields(),
                ) by {
                    if window(all, from as int, 6) == Some(any.fields()) {
                        assert(all.subrange(from as int, from + 6)[1] == any.fields()[1]);
                    }
                }
                return None;
            },
        };
        let group: Option<String> = match entry(entries, from + 2, "group") {
            Some(value) => match read_optional(value) {
                Some(found) => found,
                None => {
                    assert forall|any: CreateOrInsertIntoFile| any.valid() implies window(all, from as int, 6) != Some(
                        #[trigger] any.fields(),
                    ) by {
                        if window(all, from as int, 6) == Some(any.fields()) {
                            assert(all.subrange(from as int, from + 6)[2] == any.fields()[2]);
                            assert(value@ == optional_form(any.group));
                        }
                    }
                    return None;
                },
            },
            None => {
                assert forall|any: CreateOrInsertIntoFile| any.valid() implies window(all, from as int, 6) != Some(
                    #[trigger] any.fields(),
                ) by {
                    if window(all, from as int, 6) == Some(any.fields()) {
                        assert(all.subrange(from as int, from + 6)[2] == any.fields()[2]);
                    }
                }
                return None;
            },
        };
        let mode: Option<u32> = match entry(entries, from + 3, "mode") {
            Some(value) => match read_optional_number(value) {
                Some(found) => found,
                None => {
                    assert forall|any: CreateOrInsertIntoFile| any.valid() implies window(all, from as int, 6) != Some(
                        #[trigger] any.fields(),
                    ) by {
                        if window(all, from as int, 6) == Some(any.fields()) {
                            assert(all.subrange(from as int, from + 6)[3] == any.fields()[3]);
                            assert(value@ == optional_number_form(any.mode));
                        }
                    }
                    return None;
                },
            },
            None => {
                assert forall|any: CreateOrInsertIntoFile| any.valid() implies window(all, from as int, 6) != Some(
                    #[trigger] any.fields(),
                ) by {
                    if window(all, from as int, 6) == Some(any.fields()) {
                        assert(all.subrange(from as int, from + 6)[3] == any.fields()[3]);
                    }
                }
                return None;
            },
        };
        let buf: String = match entry(entries, from + 4, "buf") {
            Some(value) => match read_text(value) {
                Some(found) => found,
                None => {
                    assert forall|any: CreateOrInsertIntoFile| any.valid() implies window(all, from as int, 6) != Some(
                        #[trigger] any.fields(),
                    ) by {
                        if window(all, from as int, 6) == Some(any.fields()) {
                            assert(all.subrange(from as int, from + 6)[4] == any.fields()[4]);
                            assert(value@ == text_form(any.buf));
                        }
                    }
                    return None;
                },
            },
            None => {
                assert forall|any: CreateOrInsertIntoFile| any.valid() implies window(all, from as int, 6) != Some(
                    #[trigger] any.fields(),
                ) by {
                    if window(all, from as int, 6) == Some(any.fields()) {
                        assert(all.subrange(from as int, from + 6)[4] == any.fields()[4]);
                    }
                }
                return None;
            },
        };
        let position: Position = match entry(entries, from + 5, "position") {
            Some(value) => match read_position(value) {
                Some(found) => found,
                None => {
                    assert forall|any: CreateOrInsertIntoFile| any.valid() implies window(all, from as int, 6) != Some(
                        #[trigger] any.fields(),
                    ) by {
                        if window(all, from as int, 6) == Some(any.fields()) {
                            assert(all.subrange(from as int, from + 6)[5] == any.fields()[5]);
                            assert(value@ == position_form(any.position));
                        }
                    }
                    return None;
                },
            },
            None => {
                assert forall|any: CreateOrInsertIntoFile| any.valid() implies window(all, from as int, 6) != Some(
                    #[trigger] any.fields(),
                ) by {
                    if window(all, from as int, 6) == Some(any.fields()) {
                        assert(all.subrange(from as int, from + 6)[5] == any.fields()[5]);
                    }
                }
                return None;
            },
        };
        let found = CreateOrInsertIntoFile { path, user, group, mode, buf, position };
        assert(all.subrange(from as int, from + 6) =~= found.fields());
        Some(found)
    }
}

impl CreateOrMergeNixConfig {
    /// The named values by which the action is written, in order.
    pub open spec fn fields(self) -> Seq<(Seq<char>, Form)> {
        seq![("path"@, text_form(self.path)), ("existing"@, optional_settings_form(self.existing)), ("merged"@, settings_form(self.merged))]
    }

    /// Whether the action can be written and read back: its settings hold
    /// each name once.
    pub open spec fn valid(self) -> bool {
        (self.existing matches Some(config) ==> distinct_names(config@)) && distinct_names(self.merged@)
    }

    pub(crate) fn write_fields(&self) -> (entries: Vec<(String, Value)>)
        ensures
            entry_forms(entries@) == self.fields(),
            self.valid(),
    {
        let mut entries: Vec<(String, Value)> = Vec::new();
        entries.push((String::from_str("path"), write_text(&self.path)));
        entries.push((String::from_str("existing"), write_optional_settings(&self.existing)));
        entries.push((String::from_str("merged"), write_pairs(&self.merged)));
        assert(entry_forms(entries@) =~= self.fields());
        entries
    }

    pub(crate) fn read_fields(entries: &Vec<(String, Value)>, from: usize) -> (read: Option<CreateOrMergeNixConfig>)
        requires
            from + 3 <= usize::MAX,
        ensures
            match read {
                Some(found) => window(entry_forms(entries@), from as int, 3) == Some(found.fields()),
                None => forall|any: CreateOrMergeNixConfig|
                    any.valid() ==> window(entry_forms(entries@), from as int, 3) != Some(
                        #[trigger] any.fields(),
                    ),
            },
    {
        let ghost all = entry_forms(entries@);
        if from + 3 > entries.len() {
            return None;
        }
        let path: String = match entry(entries, from + 0, "path") {
            Some(value) => match read_text(value) {
                Some(found) => found,
                None => {
                    assert forall|any: CreateOrMergeNixConfig| any.valid() implies window(all, from as int, 3) != Some(
                        #[trigger] any.fields(),
                    ) by {
                        if window(all, from as int, 3) == Some(any.fields()) {
                            assert(all.subrange(from as int, from + 3)[0] == any.fields()[0]);
                            assert(value@ == text_form(any.path));
                        }
                    }
                    return None;
                },
            },
            None => {
                assert forall|any: CreateOrMergeNixConfig| any.valid() implies window(all, from as int, 3) != Some(
                    #[trigger] any.fields(),
                ) by {
                    if window(all, from as int, 3) == Some(any.fields()) {
                        assert(all.subrange(from as int, from + 3)[0] == any.fields()[0]);
                    }
                }
                return None;
            },
        };
        let existing: Option<NixSettings> = match entry(entries, from + 1, "existing") {
            Some(value) => match read_optional_settings(value) {
                Some(found) => found,
                None => {
                    assert forall|any: CreateOrMergeNixConfig| any.valid() implies window(all, from as int, 3) != Some(
                        #[trigger] any.fields(),
                    ) by {
                        if window(all, from as int, 3) == Some(any.fields()) {
                            assert(all.subrange(from as int, from + 3)[1] == any.fields()[1]);
                            assert(value@ == optional_settings_form(any.existing));
                        }
                    }
                    return None;
                },
            },
            None => {
                assert forall|any: CreateOrMergeNixConfig| any.valid() implies window(all, from as int, 3) != Some(
                    #[trigger] any.fields(),
                ) by {
                    if window(all, from as int, 3) == Some(any.fields()) {
                        assert(all.subrange(from as int, from + 3)[1] == any.fields()[1]);
                    }
                }
                return None;
            },
        };
        let merged: NixSettings = match entry(entries, from + 2, "merged") {
            Some(value) => match read_settings(value) {
                Some(found) => found,
                None => {
                    assert forall|any: CreateOrMergeNixConfig| any.valid() implies window(all, from as int, 3) != Some(
                        #[trigger] any.fields(),
                    ) by {
                        if window(all, from as int, 3) == Some(any.fields()) {
                            assert(all.subrange(from as int, from + 3)[2] == any.fields()[2]);
                            assert(value@ == settings_form(any.merged));
                        }
                    }
                    return None;
                },
            },
            None => {
                assert forall|any: CreateOrMergeNixConfig| any.valid() implies window(all, from as int, 3) != Some(
                    #[trigger] any.fields(),
                ) by {
                    if window(all, from as int, 3) == Some(any.fields()) {
                        assert(all.subrange(from as int, from + 3)[2] == any.fields()[2]);
                    }
                }
                return None;
            },
        };
        let found = CreateOrMergeNixConfig { path, existing, merged };
        assert(all.subrange(from as int, from + 3) =~= found.fields());
        Some(found)
    }
}

impl CreateUser {
    /// The named values by which the action is written, in order.
    pub open spec fn fields(self) -> Seq<(Seq<char>, Form)> {
        seq![("name"@, text_form(self.name)), ("uid"@, number_form(self.uid)), ("groupname"@, text_form(self.groupname)), ("gid"@, number_form(self.gid))]
    }

    /// Whether the action can be written and read back: its settings hold
    /// each name once.
    pub open spec fn valid(self) -> bool {
        true
    }

    pub(crate) fn write_fields(&self) -> (entries: Vec<(String, Value)>)
        ensures
            entry_forms(entries@) == self.fields(),
            self.valid(),
    {
        let mut entries: Vec<(String, Value)> = Vec::new();
        entries.push((String::from_str("name"), write_text(&self.name)));
        entries.push((String::from_str("uid"), write_number(self.uid)));
        entries.push((String::from_str("groupname"), write_text(&self.groupname)));
        entries.push((String::from_str("gid"), write_number(self.gid)));
        assert(entry_forms(entries@) =~= self.fields());
        entries
    }

    pub(crate) fn read_fields(entries: &Vec<(String, Value)>, from: usize) -> (read: Option<CreateUser>)
        requires
            from + 4 <= usize::MAX,
        ensures
            match read {
                Some(found) => window(entry_forms(entries@), from as int, 4) == Some(found.fields()),
                None => forall|any: CreateUser|
                    any.valid() ==> window(entry_forms(entries@), from as int, 4) != Some(
                        #[trigger] any.fields(),
                    ),
            },
    {
        let ghost all = entry_forms(entries@);
        if from + 4 > entries.len() {
            return None;
        }
        let name: String = match entry(entries, from + 0, "name") {
            Some(value) => match read_text(value) {
                Some(found) => found,
                None => {
                    assert forall|any: CreateUser| any.valid() implies window(all, from as int, 4) != Some(
                        #[trigger] any.fields(),
                    ) by {
                        if window(all, from as int, 4) == Some(any.fields()) {
                            assert(all.subrange(from as int, from + 4)[0] == any.fields()[0]);
                            assert(value@ == text_form(any.name));
                        }
                    }
                    return None;
                },
            },
            None => {
                assert forall|any: CreateUser| any.valid() implies window(all, from as int, 4) != Some(
                    #[trigger] any.fields(),
                ) by {
                    if window(all, from as int, 4) == Some(any.fields()) {
                        assert(all.subrange(from as int, from + 4)[0] == any.fields()[0]);
                    }
                }
                return None;
            },
        };
        let uid: u32 = match entry(entries, from + 1, "uid") {
            Some(value) => match read_number(value) {
                Some(found) => found,
                None => {
                    assert forall|any: CreateUser| any.valid() implies window(all, from as int, 4) != Some(
                        #[trigger] any.fields(),
                    ) by {
                        if window(all, from as int, 4) == Some(any.fields()) {
                            assert(all.subrange(from as int, from + 4)[1] == any.fields()[1]);
                            assert(value@ == number_form(any.uid));
                        }
                    }
                    return None;
                },
            },
            None => {
                assert forall|any: CreateUser| any.valid() implies window(all, from as int, 4) != Some(
                    #[trigger] any.fields(),
                ) by {
                    if window(all, from as int, 4) == Some(any.fields()) {
                        assert(all.subrange(from as int, from + 4)[1] == any.fields()[1]);
                    }
                }
                return None;
            },
        };
        let groupname: String = match entry(entries, from + 2, "groupname") {
            Some(value) => match read_text(value) {
                Some(found) => found,
                None => {
                    assert forall|any: CreateUser| any.valid() implies window(all, from as int, 4) != Some(
                        #[trigger] any.fields(),
                    ) by {
                        if window(all, from as int, 4) == Some(any.fields()) {
                            assert(all.subrange(from as int, from + 4)[2] == any.fields()[2]);
                            assert(value@ == text_form(any.groupname));
                        }
                    }
                    return None;
                },
            },
            None => {
                assert forall|any: CreateUser| any.valid() implies window(all, from as int, 4) != Some(
                    #[trigger] any.fields(),
                ) by {
                    if window(all, from as int, 4) == Some(any.fields()) {
                        assert(all.subrange(from as int, from + 4)[2] == any.fields()[2]);
                    }
                }
                return None;
            },
        };
        let gid: u32 = match entry(entries, from + 3, "gid") {
            Some(value) => match read_number(value) {
                Some(found) => found,
                None => {
                    assert forall|any: CreateUser| any.valid() implies window(all, from as int, 4) != Some(
                        #[trigger] any.fields(),
                    ) by {
                        if window(all, from as int, 4) == Some(any.fields()) {
                            assert(all.subrange(from as int, from + 4)[3] == any.fields()[3]);
                            assert(value@ == number_form(any.gid));
                        }
                    }
                    return None;
                },
            },
            None => {
                assert forall|any: CreateUser| any.valid() implies window(all, from as int, 4) != Some(
                    #[trigger] any.fields(),
                ) by {
                    if window(all, from as int, 4) == Some(any.fields()) {
                        assert(all.subrange(from as int, from + 4)[3] == any.fields()[3]);
                    }
                }
                return None;
            },
        };
        let found = CreateUser { name, uid, groupname, gid };
        assert(all.subrange(from as int, from + 4) =~= found.fields());
        Some(found)
    }
}

impl FetchAndUnpackNix {
    /// The named values by which the action is written, in order.
    pub open spec fn fields(self) -> Seq<(Seq<char>, Form)> {
        seq![("url"@, text_form(self.url)), ("dest"@, text_form(self.dest))]
    }

    /// Whether the action can be written and read back: its settings hold
    /// each name once.
    pub open spec fn valid(self) -> bool {
        true
    }

    pub(crate) fn write_fields(&self) -> (entries: Vec<(String, Value)>)
        ensures
            entry_forms(entries@) == self.fields(),
            self.valid(),
    {
        let mut entries: Vec<(String, Value)> = Vec::new();
        entries.push((String::from_str("url"), write_text(&self.url)));
        entries.push((String::from_str("dest"), write_text(&self.dest)));
        assert(entry_forms(entries@) =~= self.fields());
        entries
    }

    pub(crate) fn read_fields(entries: &Vec<(String, Value)>, from: usize) -> (read: Option<FetchAndUnpackNix>)
        requires
            from + 2 <= usize::MAX,
        ensures
            match read {
                Some(found) => window(entry_forms(entries@), from as int, 2) == Some(found.fields()),
                None => forall|any: FetchAndUnpackNix|
                    any.valid() ==> window(entry_forms(entries@), from as int, 2) != Some(
                        #[trigger] any.fields(),
                    ),
            },
    {
        let ghost all = entry_forms(entries@);
        if from + 2 > entries.len() {
            return None;
        }
        let url: String = match entry(entries, from + 0, "url") {
            Some(value) => match read_text(value) {
                Some(found) => found,
                None => {
                    assert forall|any: FetchAndUnpackNix| any.valid() implies window(all, from as int, 2) != Some(
                        #[trigger] any.fields(),
                    ) by {
                        if window(all, from as int, 2) == Some(any.fields()) {
                            assert(all.subrange(from as int, from + 2)[0] == any.fields()[0]);
                            assert(value@ == text_form(any.url));
                        }
                    }
                    return None;
                },
            },
            None => {
                assert forall|any: FetchAndUnpackNix| any.valid() implies window(all, from as int, 2) != Some(
                    #[trigger] any.fields(),
                ) by {
                    if window(all, from as int, 2) == Some(any.fields()) {
                        assert(all.subrange(from as int, from + 2)[0] == any.fields()[0]);
                    }
                }
                return None;
            },
        };
        let dest: String = match entry(entries, from + 1, "dest") {
            Some(value) => match read_text(value) {
                Some(found) => found,
                None => {
                    assert forall|any: FetchAndUnpackNix| any.valid() implies window(all, from as int, 2) != Some(
                        #[trigger] any.fields(),
                    ) by {
                        if window(all, from as int, 2) == Some(any.fields()) {
                            assert(all.subrange(from as int, from + 2)[1] == any.fields()[1]);
                            assert(value@ == text_form(any.dest));
                        }
                    }
                    return None;
                },
            },
            None => {
                assert forall|any: FetchAndUnpackNix| any.valid() implies window(all, from as int, 2) != Some(
                    #[trigger] any.fields(),
                ) by {
                    if window(all, from as int, 2) == Some(any.fields()) {
                        assert(all.subrange(from as int, from + 2)[1] == any.fields()[1]);
                    }
                }
                return None;
            },
        };
        let found = FetchAndUnpackNix { url, dest };
        assert(all.subrange(from as int, from + 2) =~= found.fields());
        Some(found)
    }
}

impl MoveUnpackedNix {
    /// The named values by which the action is written, in order.
    pub open spec fn fields(self) -> Seq<(Seq<char>, Form)> {
        seq![("src"@, text_form(self.src))]
    }

    /// Whether the action can be written and read back: its settings hold
    /// each name once.
    pub open spec fn valid(self) -> bool {
        true
    }

    pub(crate) fn write_fields(&self) -> (entries: Vec<(String, Value)>)
        ensures
            entry_forms(entries@) == self.fields(),
            self.valid(),
    {
        let mut entries: Vec<(String, Value)> = Vec::new();
        entries.push((String::from_str("src"), write_text(&self.src)));
        assert(entry_forms(entries@) =~= self.fields());
        entries
    }

    pub(crate) fn read_fields(entries: &Vec<(String, Value)>, from: usize) -> (read: Option<MoveUnpackedNix>)
        requires
            from + 1 <= usize::MAX,
        ensures
            match read {
                Some(found) => window(entry_forms(entries@), from as int, 1) == Some(found.fields()),
                None => forall|any: MoveUnpackedNix|
                    any.valid() ==> window(entry_forms(entries@), from as int, 1) != Some(
                        #[trigger] any.fields(),
                    ),
            },
    {
        let ghost all = entry_forms(entries@);
        if from + 1 > entries.len() {
            return None;
        }
        let src: String = match entry(entries, from + 0, "src") {
            Some(value) => match read_text(value) {
                Some(found) => found,
                None => {
                    assert forall|any: MoveUnpackedNix| any.valid() implies window(all, from as int, 1) != Some(
                        #[trigger] any.fields(),
                    ) by {
                        if window(all, from as int, 1) == Some(any.fields()) {
                            assert(all.subrange(from as int, from + 1)[0] == any.fields()[0]);
                            assert(value@ == text_form(any.src));
                        }
                    }
                    return None;
                },
            },
            None => {
                assert forall|any: MoveUnpackedNix| any.valid() implies window(all, from as int, 1) != Some(
                    #[trigger] any.fields(),
                ) by {
                    if window(all, from as int, 1) == Some(any.fields()) {
                        assert(all.subrange(from as int, from + 1)[0] == any.fields()[0]);
                    }
                }
                return None;
            },
        };
        let found = MoveUnpackedNix { src };
        assert(all.subrange(from as int, from + 1) =~= found.fields());
        Some(found)
    }
}

impl SetupDefaultProfile {
    /// The named values by which the action is written, in order.
    pub open spec fn fields(self) -> Seq<(Seq<char>, Form)> {
        seq![("channels"@, texts_form(self.channels))]
    }

    /// Whether the action can be written and read back: its settings hold
    /// each name once.
    pub open spec fn valid(self) -> bool {
        true
    }

    pub(crate) fn write_fields(&self) -> (entries: Vec<(String, Value)>)
        ensures
            entry_forms(entries@) == self.fields(),
            self.valid(),
    {
        let mut entries: Vec<(String, Value)> = Vec::new();
        entries.push((String::from_str("channels"), write_texts(&self.channels)));
        assert(entry_forms(entries@) =~= self.fields());
        entries
    }

    pub(crate) fn read_fields(entries: &Vec<(String, Value)>, from: usize) -> (read: Option<SetupDefaultProfile>)
        requires
            from + 1 <= usize::MAX,
        ensures
            match read {
                Some(found) => window(entry_forms(entries@), from as int, 1) == Some(found.fields()),
                None => forall|any: SetupDefaultProfile|
                    any.valid() ==> window(entry_forms(entries@), from as int, 1) != Some(
                        #[trigger] any.fields(),
                    ),
            },
    {
        let ghost all = entry_forms(entries@);
        if from + 1 > entries.len() {
            return None;
        }
        let channels: Vec<String> = match entry(entries, from + 0, "channels") {
            Some(value) => match read_texts(value) {
                Some(found) => found,
                None => {
                    assert forall|any: SetupDefaultProfile| any.valid() implies window(all, from as int, 1) != Some(
                        #[trigger] any.fields(),
                    ) by {
                        if window(all, from as int, 1) == Some(any.fields()) {
                            assert(all.subrange(from as int, from + 1)[0] == any.fields()[0]);
                            assert(value@ == texts_form(any.channels));
                        }
                    }
                    return None;
                },
            },
            None => {
                assert forall|any: SetupDefaultProfile| any.valid() implies window(all, from as int, 1) != Some(
                    #[trigger] any.fields(),
                ) by {
                    if window(all, from as int, 1) == Some(any.fields()) {
                        assert(all.subrange(from as int, from + 1)[0] == any.fields()[0]);
                    }
                }
                return None;
            },
        };
        let found = SetupDefaultProfile { channels };
        assert(all.subrange(from as int, from + 1) =~= found.fields());
        Some(found)
    }
}

impl ConfigureNix {
    /// The named values by which the action is written, in order.
    pub open spec fn fields(self) -> Seq<(Seq<char>, Form)> {
        seq![]
    }

    /// Whether the action can be written and read back: its settings hold
    /// each name once.
    pub open spec fn valid(self) -> bool {
        true
    }

    pub(crate) fn write_fields(&self) -> (entries: Vec<(String, Value)>)
        ensures
            entry_forms(entries@) == self.fields(),
            self.valid(),
    {
        let mut entries: Vec<(String, Value)> = Vec::new();
        assert(entry_forms(entries@) =~= self.fields());
        entries
    }

    pub(crate) fn read_fields(entries: &Vec<(String, Value)>, from: usize) -> (read: Option<ConfigureNix>)
        requires
            from + 0 <= usize::MAX,
        ensures
            match read {
                Some(found) => window(entry_forms(entries@), from as int, 0) == Some(found.fields()),
                None => forall|any: ConfigureNix|
                    any.valid() ==> window(entry_forms(entries@), from as int, 0) != Some(
                        #[trigger] any.fields(),
                    ),
            },
    {
        let ghost all = entry_forms(entries@);
        if from + 0 > entries.len() {
            return None;
        }
        let found = ConfigureNix {  };
        assert(all.subrange(from as int, from + 0) =~= found.fields());
        Some(found)
    }
}

impl ConfigureNixDaemonService {
    /// The named values by which the action is written, in order.
    pub open spec fn fields(self) -> Seq<(Seq<char>, Form)> {
        seq![]
    }

    /// Whether the action can be written and read back: its settings hold
    /// each name once.
    pub open spec fn valid(self) -> bool {
        true
    }

    pub(crate) fn write_fields(&self) -> (entries: Vec<(String, Value)>)
        ensures
            entry_forms(entries@) == self.fields(),
            self.valid(),
    {
        let mut entries: Vec<(String, Value)> = Vec::new();
        assert(entry_forms(entries@) =~= self.fields());
        entries
    }

    pub(crate) fn read_fields(entries: &Vec<(String, Value)>, from: usize) -> (read: Option<ConfigureNixDaemonService>)
        requires
            from + 0 <= usize::MAX,
        ensures
            match read {
                Some(found) => window(entry_forms(entries@), from as int, 0) == Some(found.fields()),
                None => forall|any: ConfigureNixDaemonService|
                    any.valid() ==> window(entry_forms(entries@), from as int, 0) != Some(
                        #[trigger] any.fields(),
                    ),
            },
    {
        let ghost all = entry_forms(entries@);
        if from + 0 > entries.len() {
            return None;
        }
        let found = ConfigureNixDaemonService {  };
        assert(all.subrange(from as int, from + 0) =~= found.fields());
        Some(found)
    }
}

impl ConfigureShellProfile {
    /// The named values by which the action is written, in order.
    pub open spec fn fields(self) -> Seq<(Seq<char>, Form)> {
        seq![]
    }

    /// Whether the action can be written and read back: its settings hold
    /// each name once.
    pub open spec fn valid(self) -> bool {
        true
    }

    pub(crate) fn write_fields(&self) -> (entries: Vec<(String, Value)>)
        ensures
            entry_forms(entries@) == self.fields(),
            self.valid(),
    {
        let mut entries: Vec<(String, Value)> = Vec::new();
        assert(entry_forms(entries@) =~= self.fields());
        entries
    }

    pub(crate) fn read_fields(entries: &Vec<(String, Value)>, from: usize) -> (read: Option<ConfigureShellProfile>)
        requires
            from + 0 <= usize::MAX,
        ensures
            match read {
                Some(found) => window(entry_forms(entries@), from as int, 0) == Some(found.fields()),
                None => forall|any: ConfigureShellProfile|
                    any.valid() ==> window(entry_forms(entries@), from as int, 0) != Some(
                        #[trigger] any.fields(),
                    ),
            },
    {
        let ghost all = entry_forms(entries@);
        if from + 0 > entries.len() {
            return None;
        }
        let found = ConfigureShellProfile {  };
        assert(all.subrange(from as int, from + 0) =~= found.fields());
        Some(found)
    }
}

impl CreateUsersAndGroups {
    /// The named values by which the action is written, in order.
    pub open spec fn fields(self) -> Seq<(Seq<char>, Form)> {
        seq![("nix_build_user_count"@, number_form(self.nix_build_user_count)), ("nix_build_group_name"@, text_form(self.nix_build_group_name)), ("nix_build_group_id"@, number_form(self.nix_build_group_id)), ("nix_build_user_prefix"@, text_form(self.nix_build_user_prefix)), ("nix_build_user_id_base"@, number_form(self.nix_build_user_id_base))]
    }

    /// Whether the action can be written and read back: its settings hold
    /// each name once.
    pub open spec fn valid(self) -> bool {
        true
    }

    pub(crate) fn write_fields(&self) -> (entries: Vec<(String, Value)>)
        ensures
            entry_forms(entries@) == self.fields(),
            self.valid(),
    {
        let mut entries: Vec<(String, Value)> = Vec::new();
        entries.push((String::from_str("nix_build_user_count"), write_number(self.nix_build_user_count)));
        entries.push((String::from_str("nix_build_group_name"), write_text(&self.nix_build_group_name)));
        entries.push((String::from_str("nix_build_group_id"), write_number(self.nix_build_group_id)));
        entries.push((String::from_str("nix_build_user_prefix"), write_text(&self.nix_build_user_prefix)));
        entries.push((String::from_str("nix_build_user_id_base"), write_number(self.nix_build_user_id_base)));
        assert(entry_forms(entries@) =~= self.fields());
        entries
    }

    pub(crate) fn read_fields(entries: &Vec<(String, Value)>, from: usize) -> (read: Option<CreateUsersAndGroups>)
        requires
            from + 5 <= usize::MAX,
        ensures
            match read {
                Some(found) => window(entry_forms(entries@), from as int, 5) == Some(found.fields()),
                None => forall|any: CreateUsersAndGroups|
                    any.valid() ==> window(entry_forms(entries@), from as int, 5) != Some(
                        #[trigger] any.fields(),
                    ),
            },
    {
        let ghost all = entry_forms(entries@);
        if from + 5 > entries.len() {
            return None;
        }
        let nix_build_user_count: u32 = match entry(entries, from + 0, "nix_build_user_count") {
            Some(value) => match read_number(value) {
                Some(found) => found,
                None => {
                    assert forall|any: CreateUsersAndGroups| any.valid() implies window(all, from as int, 5) != Some(
                        #[trigger] any.fields(),
                    ) by {
                        if window(all, from as int, 5) == Some(any.fields()) {
                            assert(all.subrange(from as int, from + 5)[0] == any.fields()[0]);
                            assert(value@ == number_form(any.nix_build_user_count));
                        }
                    }
                    return None;
                },
            },
            None => {
                assert forall|any: CreateUsersAndGroups| any.valid() implies window(all, from as int, 5) != Some(
                    #[trigger] any.fields(),
                ) by {
                    if window(all, from as int, 5) == Some(any.fields()) {
                        assert(all.subrange(from as int, from + 5)[0] == any.fields()[0]);
                    }
                }
                return None;
            },
        };
        let nix_build_group_name: String = match entry(entries, from + 1, "nix_build_group_name") {
            Some(value) => match read_text(value) {
                Some(found) => found,
                None => {
                    assert forall|any: CreateUsersAndGroups| any.valid() implies window(all, from as int, 5) != Some(
                        #[trigger] any.fields(),
                    ) by {
                        if window(all, from as int, 5) == Some(any.fields()) {
                            assert(all.subrange(from as int, from + 5)[1] == any.fields()[1]);
                            assert(value@ == text_form(any.nix_build_group_name));
                        }
                    }
                    return None;
                },
            },
            None => {
                assert forall|any: CreateUsersAndGroups| any.valid() implies window(all, from as int, 5) != Some(
                    #[trigger] any.fields(),
                ) by {
                    if window(all, from as int, 5) == Some(any.fields()) {
                        assert(all.subrange(from as int, from + 5)[1] == any.fields()[1]);
                    }
                }
                return None;
            },
        };
        let nix_build_group_id: u32 = match entry(entries, from + 2, "nix_build_group_id") {
            Some(value) => match read_number(value) {
                Some(found) => found,
                None => {
                    assert forall|any: CreateUsersAndGroups| any.valid() implies window(all, from as int, 5) != Some(
                        #[trigger] any.fields(),
                    ) by {
                        if window(all, from as int, 5) == Some(any.fields()) {
                            assert(all.subrange(from as int, from + 5)[2] == any.fields()[2]);
                            assert(value@ == number_form(any.nix_build_group_id));
                        }
                    }
                    return None;
                },
            },
            None => {
                assert forall|any: CreateUsersAndGroups| any.valid() implies window(all, from as int, 5) != Some(
                    #[trigger] any.fields(),
                ) by {
                    if window(all, from as int, 5) == Some(any.fields()) {
                        assert(all.subrange(from as int, from + 5)[2] == any.fields()[2]);
                    }
                }
                return None;
            },
        };
        let nix_build_user_prefix: String = match entry(entries, from + 3, "nix_build_user_prefix") {
            Some(value) => match read_text(value) {
                Some(found) => found,
                None => {
                    assert forall|any: CreateUsersAndGroups| any.valid() implies window(all, from as int, 5) != Some(
                        #[trigger] any.fields(),
                    ) by {
                        if window(all, from as int, 5) == Some(any.fields()) {
                            assert(all.subrange(from as int, from + 5)[3] == any.fields()[3]);
                            assert(value@ == text_form(any.nix_build_user_prefix));
                        }
                    }
                    return None;
                },
            },
            None => {
                assert forall|any: CreateUsersAndGroups| any.valid() implies window(all, from as int, 5) != Some(
                    #[trigger] any.fields(),
                ) by {
                    if window(all, from as int, 5) == Some(any.fields()) {
                        assert(all.subrange(from as int, from + 5)[3] == any.fields()[3]);
                    }
                }
                return None;
            },
        };
        let nix_build_user_id_base: u32 = match entry(entries, from + 4, "nix_build_user_id_base") {
            Some(value) => match read_number(value) {
                Some(found) => found,
                None => {
                    assert forall|any: CreateUsersAndGroups| any.valid() implies window(all, from as int, 5) != Some(
                        #[trigger] any.fields(),
                    ) by {
                        if window(all, from as int, 5) == Some(any.fields()) {
                            assert(all.subrange(from as int, from + 5)[4] == any.fields()[4]);
                            assert(value@ == number_form(any.nix_build_user_id_base));
                        }
                    }
                    return None;
                },
            },
            None => {
                assert forall|any: CreateUsersAndGroups| any.valid() implies window(all, from as int, 5) != Some(
                    #[trigger] any.fields(),
                ) by {
                    if window(all, from as int, 5) == Some(any.fields()) {
                        assert(all.subrange(from as int, from + 5)[4] == any.fields()[4]);
                    }
                }
                return None;
            },
        };
        let found = CreateUsersAndGroups { nix_build_user_count, nix_build_group_name, nix_build_group_id, nix_build_user_prefix, nix_build_user_id_base };
        assert(all.subrange(from as int, from + 5) =~= found.fields());
        Some(found)
    }
}

impl PlaceChannelConfiguration {
    /// The named values by which the action is written, in order.
    pub open spec fn fields(self) -> Seq<(Seq<char>, Form)> {
        seq![("channels"@, channels_form(self.channels))]
    }

    /// Whether the action can be written and read back: its settings hold
    /// each name once.
    pub open spec fn valid(self) -> bool {
        true
    }

    pub(crate) fn write_fields(&self) -> (entries: Vec<(String, Value)>)
        ensures
            entry_forms(entries@) == self.fields(),
            self.valid(),
    {
        let mut entries: Vec<(String, Value)> = Vec::new();
        entries.push((String::from_str("channels"), write_channels(&self.channels)));
        assert(entry_forms(entries@) =~= self.fields());
        entries
    }

    pub(crate) fn read_fields(entries: &Vec<(String, Value)>, from: usize) -> (read: Option<PlaceChannelConfiguration>)
        requires
            from + 1 <= usize::MAX,
        ensures
            match read {
                Some(found) => window(entry_forms(entries@), from as int, 1) == Some(found.fields()),
                None => forall|any: PlaceChannelConfiguration|
                    any.valid() ==> window(entry_forms(entries@), from as int, 1) != Some(
                        #[trigger] any.fields(),
                    ),
            },
    {
        let ghost all = entry_forms(entries@);
        if from + 1 > entries.len() {
            return None;
        }
        let channels: Vec<ChannelValue> = match entry(entries, from + 0, "channels") {
            Some(value) => match read_channels(value) {
                Some(found) => found,
                None => {
                    assert forall|any: PlaceChannelConfiguration| any.valid() implies window(all, from as int, 1) != Some(
                        #[trigger] any.fields(),
                    ) by {
                        if window(all, from as int, 1) == Some(any.fields()) {
                            assert(all.subrange(from as int, from + 1)[0] == any.fields()[0]);
                            assert(value@ == channels_form(any.channels));
                        }
                    }
                    return None;
                },
            },
            None => {
                assert forall|any: PlaceChannelConfiguration| any.valid() implies window(all, from as int, 1) != Some(
                    #[trigger] any.fields(),
                ) by {
                    if window(all, from as int, 1) == Some(any.fields()) {
                        assert(all.subrange(from as int, from + 1)[0] == any.fields()[0]);
                    }
                }
                return None;
            },
        };
        let found = PlaceChannelConfiguration { channels };
        assert(all.subrange(from as int, from + 1) =~= found.fields());
        Some(found)
    }
}

impl PlaceNixConfiguration {
    /// The named values by which the action is written, in order.
    pub open spec fn fields(self) -> Seq<(Seq<char>, Form)> {
        seq![]
    }

    /// Whether the action can be written and read back: its settings hold
    /// each name once.
    pub open spec fn valid(self) -> bool {
        true
    }

    pub(crate) fn write_fields(&self) -> (entries: Vec<(String, Value)>)
        ensures
            entry_forms(entries@) == self.fields(),
            self.valid(),
    {
        let mut entries: Vec<(String, Value)> = Vec::new();
        assert(entry_forms(entries@) =~= self.fields());
        entries
    }

    pub(crate) fn read_fields(entries: &Vec<(String, Value)>, from: usize) -> (read: Option<PlaceNixConfiguration>)
        requires
            from + 0 <= usize::MAX,
        ensures
            match read {
                Some(found) => window(entry_forms(entries@), from as int, 0) == Some(found.fields()),
                None => forall|any: PlaceNixConfiguration|
                    any.valid() ==> window(entry_forms(entries@), from as int, 0) != Some(
                        #[trigger] any.fields(),
                    ),
            },
    {
        let ghost all = entry_forms(entries@);
        if from + 0 > entries.len() {
            return None;
        }
        let found = PlaceNixConfiguration {  };
        assert(all.subrange(from as int, from + 0) =~= found.fields());
        Some(found)
    }
}

impl ProvisionNix {
    /// The named values by which the action is written, in order.
    pub open spec fn fields(self) -> Seq<(Seq<char>, Form)> {
        seq![]
    }

    /// Whether the action can be written and read back: its settings hold
    /// each name once.
    pub open spec fn valid(self) -> bool {
        true
    }

    pub(crate) fn write_fields(&self) -> (entries: Vec<(String, Value)>)
        ensures
            entry_forms(entries@) == self.fields(),
            self.valid(),
    {
        let mut entries: Vec<(String, Value)> = Vec::new();
        assert(entry_forms(entries@) =~= self.fields());
        entries
    }

    pub(crate) fn read_fields(entries: &Vec<(String, Value)>, from: usize) -> (read: Option<ProvisionNix>)
        requires
            from + 0 <= usize::MAX,
        ensures
            match read {
                Some(found) => window(entry_forms(entries@), from as int, 0) == Some(found.fields()),
                None => forall|any: ProvisionNix|
                    any.valid() ==> window(entry_forms(entries@), from as int, 0) != Some(
                        #[trigger] any.fields(),
                    ),
            },
    {
        let ghost all = entry_forms(entries@);
        if from + 0 > entries.len() {
            return None;
        }
        let found = ProvisionNix {  };
        assert(all.subrange(from as int, from + 0) =~= found.fields());
        Some(found)
    }
}

impl CreateSystemdSysext {
    /// The named values by which the action is written, in order.
    pub open spec fn fields(self) -> Seq<(Seq<char>, Form)> {
        seq![("destination"@, text_form(self.destination))]
    }

    /// Whether the action can be written and read back: its settings hold
    /// each name once.
    pub open spec fn valid(self) -> bool {
        true
    }

    pub(crate) fn write_fields(&self) -> (entries: Vec<(String, Value)>)
        ensures
            entry_forms(entries@) == self.fields(),
            self.valid(),
    {
        let mut entries: Vec<(String, Value)> = Vec::new();
        entries.push((String::from_str("destination"), write_text(&self.destination)));
        assert(entry_forms(entries@) =~= self.fields());
        entries
    }

    pub(crate) fn read_fields(entries: &Vec<(String, Value)>, from: usize) -> (read: Option<CreateSystemdSysext>)
        requires
            from + 1 <= usize::MAX,
        ensures
            match read {
                Some(found) => window(entry_forms(entries@), from as int, 1) == Some(found.fields()),
                None => forall|any: CreateSystemdSysext|
                    any.valid() ==> window(entry_forms(entries@), from as int, 1) != Some(
                        #[trigger] any.fields(),
                    ),
            },
    {
        let ghost all = entry_forms(entries@);
        if from + 1 > entries.len() {
            return None;
        }
        let destination: String = match entry(entries, from + 0, "destination") {
            Some(value) => match read_text(value) {
                Some(found) => found,
                None => {
                    assert forall|any: CreateSystemdSysext| any.valid() implies window(all, from as int, 1) != Some(
                        #[trigger] any.fields(),
                    ) by {
                        if window(all, from as int, 1) == Some(any.fields()) {
                            assert(all.subrange(from as int, from + 1)[0] == any.fields()[0]);
                            assert(value@ == text_form(any.destination));
                        }
                    }
                    return None;
                },
            },
            None => {
                assert forall|any: CreateSystemdSysext| any.valid() implies window(all, from as int, 1) != Some(
                    #[trigger] any.fields(),
                ) by {
                    if window(all, from as int, 1) == Some(any.fields()) {
                        assert(all.subrange(from as int, from + 1)[0] == any.fields()[0]);
                    }
                }
                return None;
            },
        };
        let found = CreateSystemdSysext { destination };
        assert(all.subrange(from as int, from + 1) =~= found.fields());
        Some(found)
    }
}

impl StartSystemdUnit {
    /// The named values by which the action is written, in order.
    pub open spec fn fields(self) -> Seq<(Seq<char>, Form)> {
        seq![("unit"@, text_form(self.unit))]
    }

    /// Whether the action can be written and read back: its settings hold
    /// each name once.
    pub open spec fn valid(self) -> bool {
        true
    }

    pub(crate) fn write_fields(&self) -> (entries: Vec<(String, Value)>)
        ensures
            entry_forms(entries@) == self.fields(),
            self.valid(),
    {
        let mut entries: Vec<(String, Value)> = Vec::new();
        entries.push((String::from_str("unit"), write_text(&self.unit)));
        assert(entry_forms(entries@) =~= self.fields());
        entries
    }

    pub(crate) fn read_fields(entries: &Vec<(String, Value)>, from: usize) -> (read: Option<StartSystemdUnit>)
        requires
            from + 1 <= usize::MAX,
        ensures
            match read {
                Some(found) => window(entry_forms(entries@), from as int, 1) == Some(found.fields()),
                None => forall|any: StartSystemdUnit|
                    any.valid() ==> window(entry_forms(entries@), from as int, 1) != Some(
                        #[trigger] any.fields(),
                    ),
            },
    {
        let ghost all = entry_forms(entries@);
        if from + 1 > entries.len() {
            return None;
        }
        let unit: String = match entry(entries, from + 0, "unit") {
            Some(value) => match read_text(value) {
                Some(found) => found,
                None => {
                    assert forall|any: StartSystemdUnit| any.valid() implies window(all, from as int, 1) != Some(
                        #[trigger] any.fields(),
                    ) by {
                        if window(all, from as int, 1) == Some(any.fields()) {
                            assert(all.subrange(from as int, from + 1)[0] == any.fields()[0]);
                            assert(value@ == text_form(any.unit));
                        }
                    }
                    return None;
                },
            },
            None => {
                assert forall|any: StartSystemdUnit| any.valid() implies window(all, from as int, 1) != Some(
                    #[trigger] any.fields(),
                ) by {
                    if window(all, from as int, 1) == Some(any.fields()) {
                        assert(all.subrange(from as int, from + 1)[0] == any.fields()[0]);
                    }
                }
                return None;
            },
        };
        let found = StartSystemdUnit { unit };
        assert(all.subrange(from as int, from + 1) =~= found.fields());
        Some(found)
    }
}

impl BootstrapLaunchctlService {
    /// The named values by which the action is written, in order.
    pub open spec fn fields(self) -> Seq<(Seq<char>, Form)> {
        seq![("domain"@, text_form(self.domain)), ("service"@, text_form(self.service)), ("path"@, text_form(self.path))]
    }

    /// Whether the action can be written and read back: its settings hold
    /// each name once.
    pub open spec fn valid(self) -> bool {
        true
    }

    pub(crate) fn write_fields(&self) -> (entries: Vec<(String, Value)>)
        ensures
            entry_forms(entries@) == self.fields(),
            self.valid(),
    {
        let mut entries: Vec<(String, Value)> = Vec::new();
        entries.push((String::from_str("domain"), write_text(&self.domain)));
        entries.push((String::from_str("service"), write_text(&self.service)));
        entries.push((String::from_str("path"), write_text(&self.path)));
        assert(entry_forms(entries@) =~= self.fields());
        entries
    }

    pub(crate) fn read_fields(entries: &Vec<(String, Value)>, from: usize) -> (read: Option<BootstrapLaunchctlService>)
        requires
            from + 3 <= usize::MAX,
        ensures
            match read {
                Some(found) => window(entry_forms(entries@), from as int, 3) == Some(found.fields()),
                None => forall|any: BootstrapLaunchctlService|
                    any.valid() ==> window(entry_forms(entries@), from as int, 3) != Some(
                        #[trigger] any.fields(),
                    ),
            },
    {
        let ghost all = entry_forms(entries@);
        if from + 3 > entries.len() {
            return None;
        }
        let domain: String = match entry(entries, from + 0, "domain") {
            Some(value) => match read_text(value) {
                Some(found) => found,
                None => {
                    assert forall|any: BootstrapLaunchctlService| any.valid() implies window(all, from as int, 3) != Some(
                        #[trigger] any.fields(),
                    ) by {
                        if window(all, from as int, 3) == Some(any.fields()) {
                            assert(all.subrange(from as int, from + 3)[0] == any.fields()[0]);
                            assert(value@ == text_form(any.domain));
                        }
                    }
                    return None;
                },
            },
            None => {
                assert forall|any: BootstrapLaunchctlService| any.valid() implies window(all, from as int, 3) != Some(
                    #[trigger] any.fields(),
                ) by {
                    if window(all, from as int, 3) == Some(any.fields()) {
                        assert(all.subrange(from as int, from + 3)[0] == any.fields()[0]);
                    }
                }
                return None;
            },
        };
        let service: String = match entry(entries, from + 1, "service") {
            Some(value) => match read_text(value) {
                Some(found) => found,
                None => {
                    assert forall|any: BootstrapLaunchctlService| any.valid() implies window(all, from as int, 3) != Some(
                        #[trigger] any.fields(),
                    ) by {
                        if window(all, from as int, 3) == Some(any.fields()) {
                            assert(all.subrange(from as int, from + 3)[1] == any.fields()[1]);
                            assert(value@ == text_form(any.service));
                        }
                    }
                    return None;
                },
            },
            None => {
                assert forall|any: BootstrapLaunchctlService| any.valid() implies window(all, from as int, 3) != Some(
                    #[trigger] any.fields(),
                ) by {
                    if window(all, from as int, 3) == Some(any.fields()) {
                        assert(all.subrange(from as int, from + 3)[1] == any.fields()[1]);
                    }
                }
                return None;
            },
        };
        let path: String = match entry(entries, from + 2, "path") {
            Some(value) => match read_text(value) {
                Some(found) => found,
                None => {
                    assert forall|any: BootstrapLaunchctlService| any.valid() implies window(all, from as int, 3) != Some(
                        #[trigger] any.fields(),
                    ) by {
                        if window(all, from as int, 3) == Some(any.fields()) {
                            assert(all.subrange(from as int, from + 3)[2] == any.fields()[2]);
                            assert(value@ == text_form(any.path));
                        }
                    }
                    return None;
                },
            },
            None => {
                assert forall|any: BootstrapLaunchctlService| any.valid() implies window(all, from as int, 3) != Some(
                    #[trigger] any.fields(),
                ) by {
                    if window(all, from as int, 3) == Some(any.fields()) {
                        assert(all.subrange(from as int, from + 3)[2] == any.fields()[2]);
                    }
                }
                return None;
            },
        };
        let found = BootstrapLaunchctlService { domain, service, path };
        assert(all.subrange(from as int, from + 3) =~= found.fields());
        Some(found)
    }
}

impl CreateApfsVolume {
    /// The named values by which the action is written, in order.
    pub open spec fn fields(self) -> Seq<(Seq<char>, Form)> {
        seq![("disk"@, text_form(self.disk)), ("name"@, text_form(self.name)), ("case_sensitive"@, flag_form(self.case_sensitive))]
    }

    /// Whether the action can be written and read back: its settings hold
    /// each name once.
    pub open spec fn valid(self) -> bool {
        true
    }

    pub(crate) fn write_fields(&self) -> (entries: Vec<(String, Value)>)
        ensures
            entry_forms(entries@) == self.fields(),
            self.valid(),
    {
        let mut entries: Vec<(String, Value)> = Vec::new();
        entries.push((String::from_str("disk"), write_text(&self.disk)));
        entries.push((String::from_str("name"), write_text(&self.name)));
        entries.push((String::from_str("case_sensitive"), write_flag(self.case_sensitive)));
        assert(entry_forms(entries@) =~= self.fields());
        entries
    }

    pub(crate) fn read_fields(entries: &Vec<(String, Value)>, from: usize) -> (read: Option<CreateApfsVolume>)
        requires
            from + 3 <= usize::MAX,
        ensures
            match read {
                Some(found) => window(entry_forms(entries@), from as int, 3) == Some(found.fields()),
                None => forall|any: CreateApfsVolume|
                    any.valid() ==> window(entry_forms(entries@), from as int, 3) != Some(
                        #[trigger] any.fields(),
                    ),
            },
    {
        let ghost all = entry_forms(entries@);
        if from + 3 > entries.len() {
            return None;
        }
        let disk: String = match entry(entries, from + 0, "disk") {
            Some(value) => match read_text(value) {
                Some(found) => found,
                None => {
                    assert forall|any: CreateApfsVolume| any.valid() implies window(all, from as int, 3) != Some(
                        #[trigger] any.fields(),
                    ) by {
                        if window(all, from as int, 3) == Some(any.fields()) {
                            assert(all.subrange(from as int, from + 3)[0] == any.fields()[0]);
                            assert(value@ == text_form(any.disk));
                        }
                    }
                    return None;
                },
            },
            None => {
                assert forall|any: CreateApfsVolume| any.valid() implies window(all, from as int, 3) != Some(
                    #[trigger] any.fields(),
                ) by {
                    if window(all, from as int, 3) == Some(any.fields()) {
                        assert(all.subrange(from as int, from + 3)[0] == any.fields()[0]);
                    }
                }
                return None;
            },
        };
        let name: String = match entry(entries, from + 1, "name") {
            Some(value) => match read_text(value) {
                Some(found) => found,
                None => {
                    assert forall|any: CreateApfsVolume| any.valid() implies window(all, from as int, 3) != Some(
                        #[trigger] any.fields(),
                    ) by {
                        if window(all, from as int, 3) == Some(any.fields()) {
                            assert(all.subrange(from as int, from + 3)[1] == any.fields()[1]);
                            assert(value@ == text_form(any.name));
                        }
                    }
                    return None;
                },
            },
            None => {
                assert forall|any: CreateApfsVolume| any.valid() implies window(all, from as int, 3) != Some(
                    #[trigger] any.fields(),
                ) by {
                    if window(all, from as int, 3) == Some(any.fields()) {
                        assert(all.subrange(from as int, from + 3)[1] == any.fields()[1]);
                    }
                }
                return None;
            },
        };
        let case_sensitive: bool = match entry(entries, from + 2, "case_sensitive") {
            Some(value) => match read_flag(value) {
                Some(found) => found,
                None => {
                    assert forall|any: CreateApfsVolume| any.valid() implies window(all, from as int, 3) != Some(
                        #[trigger] any.fields(),
                    ) by {
                        if window(all, from as int, 3) == Some(any.fields()) {
                            assert(all.subrange(from as int, from + 3)[2] == any.fields()[2]);
                            assert(value@ == flag_form(any.case_sensitive));
                        }
                    }
                    return None;
                },
            },
            None => {
                assert forall|any: CreateApfsVolume| any.valid() implies window(all, from as int, 3) != Some(
                    #[trigger] any.fields(),
                ) by {
                    if window(all, from as int, 3) == Some(any.fields()) {
                        assert(all.subrange(from as int, from + 3)[2] == any.fields()[2]);
                    }
                }
                return None;
            },
        };
        let found = CreateApfsVolume { disk, name, case_sensitive };
        assert(all.subrange(from as int, from + 3) =~= found.fields());
        Some(found)
    }
}

impl CreateFstabEntry {
    /// The named values by which the action is written, in order.
    pub open spec fn fields(self) -> Seq<(Seq<char>, Form)> {
        seq![("apfs_volume_label"@, text_form(self.apfs_volume_label))]
    }

    /// Whether the action can be written and read back: its settings hold
    /// each name once.
    pub open spec fn valid(self) -> bool {
        true
    }

    pub(crate) fn write_fields(&self) -> (entries: Vec<(String, Value)>)
        ensures
            entry_forms(entries@) == self.fields(),
            self.valid(),
    {
        let mut entries: Vec<(String, Value)> = Vec::new();
        entries.push((String::from_str("apfs_volume_label"), write_text(&self.apfs_volume_label)));
        assert(entry_forms(entries@) =~= self.fields());
        entries
    }

    pub(crate) fn read_fields(entries: &Vec<(String, Value)>, from: usize) -> (read: Option<CreateFstabEntry>)
        requires
            from + 1 <= usize::MAX,
        ensures
            match read {
                Some(found) => window(entry_forms(entries@), from as int, 1) == Some(found.fields()),
                None => forall|any: CreateFstabEntry|
                    any.valid() ==> window(entry_forms(entries@), from as int, 1) != Some(
                        #[trigger] any.fields(),
                    ),
            },
    {
        let ghost all = entry_forms(entries@);
        if from + 1 > entries.len() {
            return None;
        }
        let apfs_volume_label: String = match entry(entries, from + 0, "apfs_volume_label") {
            Some(value) => match read_text(value) {
                Some(found) => found,
                None => {
                    assert forall|any: CreateFstabEntry| any.valid() implies window(all, from as int, 1) != Some(
                        #[trigger] any.fields(),
                    ) by {
                        if window(all, from as int, 1) == Some(any.fields()) {
                            assert(all.subrange(from as int, from + 1)[0] == any.fields()[0]);
                            assert(value@ == text_form(any.apfs_volume_label));
                        }
                    }
                    return None;
                },
            },
            None => {
                assert forall|any: CreateFstabEntry| any.valid() implies window(all, from as int, 1) != Some(
                    #[trigger] any.fields(),
                ) by {
                    if window(all, from as int, 1) == Some(any.fields()) {
                        assert(all.subrange(from as int, from + 1)[0] == any.fields()[0]);
                    }
                }
                return None;
            },
        };
        let found = CreateFstabEntry { apfs_volume_label };
        assert(all.subrange(from as int, from + 1) =~= found.fields());
        Some(found)
    }
}

impl CreateNixVolume {
    /// The named values by which the action is written, in order.
    pub open spec fn fields(self) -> Seq<(Seq<char>, Form)> {
        seq![("disk"@, text_form(self.disk)), ("name"@, text_form(self.name)), ("case_sensitive"@, flag_form(self.case_sensitive)), ("encrypt"@, flag_form(self.encrypt))]
    }

    /// Whether the action can be written and read back: its settings hold
    /// each name once.
    pub open spec fn valid(self) -> bool {
        true
    }

    pub(crate) fn write_fields(&self) -> (entries: Vec<(String, Value)>)
        ensures
            entry_forms(entries@) == self.fields(),
            self.valid(),
    {
        let mut entries: Vec<(String, Value)> = Vec::new();
        entries.push((String::from_str("disk"), write_text(&self.disk)));
        entries.push((String::from_str("name"), write_text(&self.name)));
        entries.push((String::from_str("case_sensitive"), write_flag(self.case_sensitive)));
        entries.push((String::from_str("encrypt"), write_flag(self.encrypt)));
        assert(entry_forms(entries@) =~= self.fields());
        entries
    }

    pub(crate) fn read_fields(entries: &Vec<(String, Value)>, from: usize) -> (read: Option<CreateNixVolume>)
        requires
            from + 4 <= usize::MAX,
        ensures
            match read {
                Some(found) => window(entry_forms(entries@), from as int, 4) == Some(found.fields()),
                None => forall|any: CreateNixVolume|
                    any.valid() ==> window(entry_forms(entries@), from as int, 4) != Some(
                        #[trigger] any.fields(),
                    ),
            },
    {
        let ghost all = entry_forms(entries@);
        if from + 4 > entries.len() {
            return None;
        }
        let disk: String = match entry(entries, from + 0, "disk") {
            Some(value) => match read_text(value) {
                Some(found) => found,
                None => {
                    assert forall|any: CreateNixVolume| any.valid() implies window(all, from as int, 4) != Some(
                        #[trigger] any.fields(),
                    ) by {
                        if window(all, from as int, 4) == Some(any.fields()) {
                            assert(all.subrange(from as int, from + 4)[0] == any.fields()[0]);
                            assert(value@ == text_form(any.disk));
                        }
                    }
                    return None;
                },
            },
            None => {
                assert forall|any: CreateNixVolume| any.valid() implies window(all, from as int, 4) != Some(
                    #[trigger] any.fields(),
                ) by {
                    if window(all, from as int, 4) == Some(any.fields()) {
                        assert(all.subrange(from as int, from + 4)[0] == any.fields()[0]);
                    }
                }
                return None;
            },
        };
        let name: String = match entry(entries, from + 1, "name") {
            Some(value) => match read_text(value) {
                Some(found) => found,
                None => {
                    assert forall|any: CreateNixVolume| any.valid() implies window(all, from as int, 4) != Some(
                        #[trigger] any.fields(),
                    ) by {
                        if window(all, from as int, 4) == Some(any.fields()) {
                            assert(all.subrange(from as int, from + 4)[1] == any.fields()[1]);
                            assert(value@ == text_form(any.name));
                        }
                    }
                    return None;
                },
            },
            None => {
                assert forall|any: CreateNixVolume| any.valid() implies window(all, from as int, 4) != Some(
                    #[trigger] any.fields(),
                ) by {
                    if window(all, from as int, 4) == Some(any.fields()) {
                        assert(all.subrange(from as int, from + 4)[1] == any.fields()[1]);
                    }
                }
                return None;
            },
        };
        let case_sensitive: bool = match entry(entries, from + 2, "case_sensitive") {
            Some(value) => match read_flag(value) {
                Some(found) => found,
                None => {
                    assert forall|any: CreateNixVolume| any.valid() implies window(all, from as int, 4) != Some(
                        #[trigger] any.fields(),
                    ) by {
                        if window(all, from as int, 4) == Some(any.fields()) {
                            assert(all.subrange(from as int, from + 4)[2] == any.fields()[2]);
                            assert(value@ == flag_form(any.case_sensitive));
                        }
                    }
                    return None;
                },
            },
            None => {
                assert forall|any: CreateNixVolume| any.valid() implies window(all, from as int, 4) != Some(
                    #[trigger] any.fields(),
                ) by {
                    if window(all, from as int, 4) == Some(any.fields()) {
                        assert(all.subrange(from as int, from + 4)[2] == any.fields()[2]);
                    }
                }
                return None;
            },
        };
        let encrypt: bool = match entry(entries, from + 3, "encrypt") {
            Some(value) => match read_flag(value) {
                Some(found) => found,
                None => {
                    assert forall|any: CreateNixVolume| any.valid() implies window(all, from as int, 4) != Some(
                        #[trigger] any.fields(),
                    ) by {
                        if window(all, from as int, 4) == Some(any.fields()) {
                            assert(all.subrange(from as int, from + 4)[3] == any.fields()[3]);
                            assert(value@ == flag_form(any.encrypt));
                        }
                    }
                    return None;
                },
            },
            None => {
                assert forall|any: CreateNixVolume| any.valid() implies window(all, from as int, 4) != Some(
                    #[trigger] any.fields(),
                ) by {
                    if window(all, from as int, 4) == Some(any.fields()) {
                        assert(all.subrange(from as int, from + 4)[3] == any.fields()[3]);
                    }
                }
                return None;
            },
        };
        let found = CreateNixVolume { disk, name, case_sensitive, encrypt };
        assert(all.subrange(from as int, from + 4) =~= found.fields());
        Some(found)
    }
}

impl CreateSyntheticObjects {
    /// The named values by which the action is written, in order.
    pub open spec fn fields(self) -> Seq<(Seq<char>, Form)> {
        seq![]
    }

    /// Whether the action can be written and read back: its settings hold
    /// each name once.
    pub open spec fn valid(self) -> bool {
        true
    }

    pub(crate) fn write_fields(&self) -> (entries: Vec<(String, Value)>)
        ensures
            entry_forms(entries@) == self.fields(),
            self.valid(),
    {
        let mut entries: Vec<(String, Value)> = Vec::new();
        assert(entry_forms(entries@) =~= self.fields());
        entries
    }

    pub(crate) fn read_fields(entries: &Vec<(String, Value)>, from: usize) -> (read: Option<CreateSyntheticObjects>)
        requires
            from + 0 <= usize::MAX,
        ensures
            match read {
                Some(found) => window(entry_forms(entries@), from as int, 0) == Some(found.fields()),
                None => forall|any: CreateSyntheticObjects|
                    any.valid() ==> window(entry_forms(entries@), from as int, 0) != Some(
                        #[trigger] any.fields(),
                    ),
            },
    {
        let ghost all = entry_forms(entries@);
        if from + 0 > entries.len() {
            return None;
        }
        let found = CreateSyntheticObjects {  };
        assert(all.subrange(from as int, from + 0) =~= found.fields());
        Some(found)
    }
}

impl EnableOwnership {
    /// The named values by which the action is written, in order.
    pub open spec fn fields(self) -> Seq<(Seq<char>, Form)> {
        seq![("path"@, text_form(self.path))]
    }

    /// Whether the action can be written and read back: its settings hold
    /// each name once.
    pub open spec fn valid(self) -> bool {
        true
    }

    pub(crate) fn write_fields(&self) -> (entries: Vec<(String, Value)>)
        ensures
            entry_forms(entries@) == self.fields(),
            self.valid(),
    {
        let mut entries: Vec<(String, Value)> = Vec::new();
        entries.push((String::from_str("path"), write_text(&self.path)));
        assert(entry_forms(entries@) =~= self.fields());
        entries
    }

    pub(crate) fn read_fields(entries: &Vec<(String, Value)>, from: usize) -> (read: Option<EnableOwnership>)
        requires
            from + 1 <= usize::MAX,
        ensures
            match read {
                Some(found) => window(entry_forms(entries@), from as int, 1) == Some(found.fields()),
                None => forall|any: EnableOwnership|
                    any.valid() ==> window(entry_forms(entries@), from as int, 1) != Some(
                        #[trigger] any.fields(),
                    ),
            },
    {
        let ghost all = entry_forms(entries@);
        if from + 1 > entries.len() {
            return None;
        }
        let path: String = match entry(entries, from + 0, "path") {
            Some(value) => match read_text(value) {
                Some(found) => found,
                None => {
                    assert forall|any: EnableOwnership| any.valid() implies window(all, from as int, 1) != Some(
                        #[trigger] any.fields(),
                    ) by {
                        if window(all, from as int, 1) == Some(any.fields()) {
                            assert(all.subrange(from as int, from + 1)[0] == any.fields()[0]);
                            assert(value@ == text_form(any.path));
                        }
                    }
                    return None;
                },
            },
            None => {
                assert forall|any: EnableOwnership| any.valid() implies window(all, from as int, 1) != Some(
                    #[trigger] any.fields(),
                ) by {
                    if window(all, from as int, 1) == Some(any.fields()) {
                        assert(all.subrange(from as int, from + 1)[0] == any.fields()[0]);
                    }
                }
                return None;
            },
        };
        let found = EnableOwnership { path };
        assert(all.subrange(from as int, from + 1) =~= found.fields());
        Some(found)
    }
}

impl EncryptApfsVolume {
    /// The named values by which the action is written, in order.
    pub open spec fn fields(self) -> Seq<(Seq<char>, Form)> {
        seq![("disk"@, text_form(self.disk)), ("name"@, text_form(self.name))]
    }

    /// Whether the action can be written and read back: its settings hold
    /// each name once.
    pub open spec fn valid(self) -> bool {
        true
    }

    pub(crate) fn write_fields(&self) -> (entries: Vec<(String, Value)>)
        ensures
            entry_forms(entries@) == self.fields(),
            self.valid(),
    {
        let mut entries: Vec<(String, Value)> = Vec::new();
        entries.push((String::from_str("disk"), write_text(&self.disk)));
        entries.push((String::from_str("name"), write_text(&self.name)));
        assert(entry_forms(entries@) =~= self.fields());
        entries
    }

    pub(crate) fn read_fields(entries: &Vec<(String, Value)>, from: usize) -> (read: Option<EncryptApfsVolume>)
        requires
            from + 2 <= usize::MAX,
        ensures
            match read {
                Some(found) => window(entry_forms(entries@), from as int, 2) == Some(found.fields()),
                None => forall|any: EncryptApfsVolume|
                    any.valid() ==> window(entry_forms(entries@), from as int, 2) != Some(
                        #[trigger] any.fields(),
                    ),
            },
    {
        let ghost all = entry_forms(entries@);
        if from + 2 > entries.len() {
            return None;
        }
        let disk: String = match entry(entries, from + 0, "disk") {
            Some(value) => match read_text(value) {
                Some(found) => found,
                None => {
                    assert forall|any: EncryptApfsVolume| any.valid() implies window(all, from as int, 2) != Some(
                        #[trigger] any.fields(),
                    ) by {
                        if window(all, from as int, 2) == Some(any.fields()) {
                            assert(all.subrange(from as int, from + 2)[0] == any.fields()[0]);
                            assert(value@ == text_form(any.disk));
                        }
                    }
                    return None;
                },
            },
            None => {
                assert forall|any: EncryptApfsVolume| any.valid() implies window(all, from as int, 2) != Some(
                    #[trigger] any.fields(),
                ) by {
                    if window(all, from as int, 2) == Some(any.fields()) {
                        assert(all.subrange(from as int, from + 2)[0] == any.fields()[0]);
                    }
                }
                return None;
            },
        };
        let name: String = match entry(entries, from + 1, "name") {
            Some(value) => match read_text(value) {
                Some(found) => found,
                None => {
                    assert forall|any: EncryptApfsVolume| any.valid() implies window(all, from as int, 2) != Some(
                        #[trigger] any.fields(),
                    ) by {
                        if window(all, from as int, 2) == Some(any.fields()) {
                            assert(all.subrange(from as int, from + 2)[1] == any.fields()[1]);
                            assert(value@ == text_form(any.name));
                        }
                    }
                    return None;
                },
            },
            None => {
                assert forall|any: EncryptApfsVolume| any.valid() implies window(all, from as int, 2) != Some(
                    #[trigger] any.fields(),
                ) by {
                    if window(all, from as int, 2) == Some(any.fields()) {
                        assert(all.subrange(from as int, from + 2)[1] == any.fields()[1]);
                    }
                }
                return None;
            },
        };
        let found = EncryptApfsVolume { disk, name };
        assert(all.subrange(from as int, from + 2) =~= found.fields());
        Some(found)
    }
}

impl KickstartLaunchctlService {
    /// The named values by which the action is written, in order.
    pub open spec fn fields(self) -> Seq<(Seq<char>, Form)> {
        seq![("unit"@, text_form(self.unit))]
    }

    /// Whether the action can be written and read back: its settings hold
    /// each name once.
    pub open spec fn valid(self) -> bool {
        true
    }

    pub(crate) fn write_fields(&self) -> (entries: Vec<(String, Value)>)
        ensures
            entry_forms(entries@) == self.fields(),
            self.valid(),
    {
        let mut entries: Vec<(String, Value)> = Vec::new();
        entries.push((String::from_str("unit"), write_text(&self.unit)));
        assert(entry_forms(entries@) =~= self.fields());
        entries
    }

    pub(crate) fn read_fields(entries: &Vec<(String, Value)>, from: usize) -> (read: Option<KickstartLaunchctlService>)
        requires
            from + 1 <= usize::MAX,
        ensures
            match read {
                Some(found) => window(entry_forms(entries@), from as int, 1) == Some(found.fields()),
                None => forall|any: KickstartLaunchctlService|
                    any.valid() ==> window(entry_forms(entries@), from as int, 1) != Some(
                        #[trigger] any.fields(),
                    ),
            },
    {
        let ghost all = entry_forms(entries@);
        if from + 1 > entries.len() {
            return None;
        }
        let unit: String = match entry(entries, from + 0, "unit") {
            Some(value) => match read_text(value) {
                Some(found) => found,
                None => {
                    assert forall|any: KickstartLaunchctlService| any.valid() implies window(all, from as int, 1) != Some(
                        #[trigger] any.fields(),
                    ) by {
                        if window(all, from as int, 1) == Some(any.fields()) {
                            assert(all.subrange(from as int, from + 1)[0] == any.fields()[0]);
                            assert(value@ == text_form(any.unit));
                        }
                    }
                    return None;
                },
            },
            None => {
                assert forall|any: KickstartLaunchctlService| any.valid() implies window(all, from as int, 1) != Some(
                    #[trigger] any.fields(),
                ) by {
                    if window(all, from as int, 1) == Some(any.fields()) {
                        assert(all.subrange(from as int, from + 1)[0] == any.fields()[0]);
                    }
                }
                return None;
            },
        };
        let found = KickstartLaunchctlService { unit };
        assert(all.subrange(from as int, from + 1) =~= found.fields());
        Some(found)
    }
}

impl UnmountApfsVolume {
    /// The named values by which the action is written, in order.
    pub open spec fn fields(self) -> Seq<(Seq<char>, Form)> {
        seq![("disk"@, text_form(self.disk)), ("name"@, text_form(self.name))]
    }

    /// Whether the action can be written and read back: its settings hold
    /// each name once.
    pub open spec fn valid(self) -> bool {
        true
    }

    pub(crate) fn write_fields(&self) -> (entries: Vec<(String, Value)>)
        ensures
            entry_forms(entries@) == self.fields(),
            self.valid(),
    {
        let mut entries: Vec<(String, Value)> = Vec::new();
        entries.push((String::from_str("disk"), write_text(&self.disk)));
        entries.push((String::from_str("name"), write_text(&self.name)));
        assert(entry_forms(entries@) =~= self.fields());
        entries
    }

    pub(crate) fn read_fields(entries: &Vec<(String, Value)>, from: usize) -> (read: Option<UnmountApfsVolume>)
        requires
            from + 2 <= usize::MAX,
        ensures
            match read {
                Some(found) => window(entry_forms(entries@), from as int, 2) == Some(found.fields()),
                None => forall|any: UnmountApfsVolume|
                    any.valid() ==> window(entry_forms(entries@), from as int, 2) != Some(
                        #[trigger] any.fields(),
                    ),
            },
    {
        let ghost all = entry_forms(entries@);
        if from + 2 > entries.len() {
            return None;
        }
        let disk: String = match entry(entries, from + 0, "disk") {
            Some(value) => match read_text(value) {
                Some(found) => found,
                None => {
                    assert forall|any: UnmountApfsVolume| any.valid() implies window(all, from as int, 2) != Some(
                        #[trigger] any.fields(),
                    ) by {
                        if window(all, from as int, 2) == Some(any.fields()) {
                            assert(all.subrange(from as int, from + 2)[0] == any.fields()[0]);
                            assert(value@ == text_form(any.disk));
                        }
                    }
                    return None;
                },
            },
            None => {
                assert forall|any: UnmountApfsVolume| any.valid() implies window(all, from as int, 2) != Some(
                    #[trigger] any.fields(),
                ) by {
                    if window(all, from as int, 2) == Some(any.fields()) {
                        assert(all.subrange(from as int, from + 2)[0] == any.fields()[0]);
                    }
                }
                return None;
            },
        };
        let name: String = match entry(entries, from + 1, "name") {
            Some(value) => match read_text(value) {
                Some(found) => found,
                None => {
                    assert forall|any: UnmountApfsVolume| any.valid() implies window(all, from as int, 2) != Some(
                        #[trigger] any.fields(),
                    ) by {
                        if window(all, from as int, 2) == Some(any.fields()) {
                            assert(all.subrange(from as int, from + 2)[1] == any.fields()[1]);
                            assert(value@ == text_form(any.name));
                        }
                    }
                    return None;
                },
            },
            None => {
                assert forall|any: UnmountApfsVolume| any.valid() implies window(all, from as int, 2) != Some(
                    #[trigger] any.fields(),
                ) by {
                    if window(all, from as int, 2) == Some(any.fields()) {
                        assert(all.subrange(from as int, from + 2)[1] == any.fields()[1]);
                    }
                }
                return None;
            },
        };
        let found = UnmountApfsVolume { disk, name };
        assert(all.subrange(from as int, from + 2) =~= found.fields());
        Some(found)
    }
}

impl WaitForVolume {
    /// The named values by which the action is written, in order.
    pub open spec fn fields(self) -> Seq<(Seq<char>, Form)> {
        seq![("path"@, text_form(self.path)), ("attempts"@, number_form(self.attempts)), ("interval"@, long_form(self.interval))]
    }

    /// Whether the action can be written and read back: its settings hold
    /// each name once.
    pub open spec fn valid(self) -> bool {
        true
    }

    pub(crate) fn write_fields(&self) -> (entries: Vec<(String, Value)>)
        ensures
            entry_forms(entries@) == self.fields(),
            self.valid(),
    {
        let mut entries: Vec<(String, Value)> = Vec::new();
        entries.push((String::from_str("path"), write_text(&self.path)));
        entries.push((String::from_str("attempts"), write_number(self.attempts)));
        entries.push((String::from_str("interval"), write_long(self.interval)));
        assert(entry_forms(entries@) =~= self.fields());
        entries
    }

    pub(crate) fn read_fields(entries: &Vec<(String, Value)>, from: usize) -> (read: Option<WaitForVolume>)
        requires
            from + 3 <= usize::MAX,
        ensures
            match read {
                Some(found) => window(entry_forms(entries@), from as int, 3) == Some(found.fields()),
                None => forall|any: WaitForVolume|
                    any.valid() ==> window(entry_forms(entries@), from as int, 3) != Some(
                        #[trigger] any.fields(),
                    ),
            },
    {
        let ghost all = entry_forms(entries@);
        if from + 3 > entries.len() {
            return None;
        }
        let path: String = match entry(entries, from + 0, "path") {
            Some(value) => match read_text(value) {
                Some(found) => found,
                None => {
                    assert forall|any: WaitForVolume| any.valid() implies window(all, from as int, 3) != Some(
                        #[trigger] any.fields(),
                    ) by {
                        if window(all, from as int, 3) == Some(any.fields()) {
                            assert(all.subrange(from as int, from + 3)[0] == any.fields()[0]);
                            assert(value@ == text_form(any.path));
                        }
                    }
                    return None;
                },
            },
            None => {
                assert forall|any: WaitForVolume| any.valid() implies window(all, from as int, 3) != Some(
                    #[trigger] any.fields(),
                ) by {
                    if window(all, from as int, 3) == Some(any.fields()) {
                        assert(all.subrange(from as int, from + 3)[0] == any.fields()[0]);
                    }
                }
                return None;
            },
        };
        let attempts: u32 = match entry(entries, from + 1, "attempts") {
            Some(value) => match read_number(value) {
                Some(found) => found,
                None => {
                    assert forall|any: WaitForVolume| any.valid() implies window(all, from as int, 3) != Some(
                        #[trigger] any.fields(),
                    ) by {
                        if window(all, from as int, 3) == Some(any.fields()) {
                            assert(all.subrange(from as int, from + 3)[1] == any.fields()[1]);
                            assert(value@ == number_form(any.attempts));
                        }
                    }
                    return None;
                },
            },
            None => {
                assert forall|any: WaitForVolume| any.valid() implies window(all, from as int, 3) != Some(
                    #[trigger] any.fields(),
                ) by {
                    if window(all, from as int, 3) == Some(any.fields()) {
                        assert(all.subrange(from as int, from + 3)[1] == any.fields()[1]);
                    }
                }
                return None;
            },
        };
        let interval: u64 = match entry(entries, from + 2, "interval") {
            Some(value) => match read_long(value) {
                Some(found) => found,
                None => {
                    assert forall|any: WaitForVolume| any.valid() implies window(all, from as int, 3) != Some(
                        #[trigger] any.fields(),
                    ) by {
                        if window(all, from as int, 3) == Some(any.fields()) {
                            assert(all.subrange(from as int, from + 3)[2] == any.fields()[2]);
                            assert(value@ == long_form(any.interval));
                        }
                    }
                    return None;
                },
            },
            None => {
                assert forall|any: WaitForVolume| any.valid() implies window(all, from as int, 3) != Some(
                    #[trigger] any.fields(),
                ) by {
                    if window(all, from as int, 3) == Some(any.fields()) {
                        assert(all.subrange(from as int, from + 3)[2] == any.fields()[2]);
                    }
                }
                return None;
            },
        };
        let found = WaitForVolume { path, attempts, interval };
        assert(all.subrange(from as int, from + 3) =~= found.fields());
        Some(found)
    }
}

impl CommonSettings {
    /// The named values by which the action is written, in order.
    pub open spec fn fields(self) -> Seq<(Seq<char>, Form)> {
        seq![("channels"@, channels_form(self.channels)), ("modify_profile"@, flag_form(self.modify_profile)), ("nix_build_user_count"@, number_form(self.nix_build_user_count)), ("nix_build_group_name"@, text_form(self.nix_build_group_name)), ("nix_build_group_id"@, number_form(self.nix_build_group_id)), ("nix_build_user_prefix"@, text_form(self.nix_build_user_prefix)), ("nix_build_user_id_base"@, number_form(self.nix_build_user_id_base)), ("nix_package_url"@, text_form(self.nix_package_url)), ("extra_conf"@, texts_form(self.extra_conf)), ("force"@, flag_form(self.force)), ("proxy"@, optional_form(self.proxy)), ("ssl_cert_file"@, optional_form(self.ssl_cert_file))]
    }

    /// Whether the action can be written and read back: its settings hold
    /// each name once.
    pub open spec fn valid(self) -> bool {
        true
    }

    pub(crate) fn write_fields(&self) -> (entries: Vec<(String, Value)>)
        ensures
            entry_forms(entries@) == self.fields(),
            self.valid(),
    {
        let mut entries: Vec<(String, Value)> = Vec::new();
        entries.push((String::from_str("channels"), write_channels(&self.channels)));
        entries.push((String::from_str("modify_profile"), write_flag(self.modify_profile)));
        entries.push((String::from_str("nix_build_user_count"), write_number(self.nix_build_user_count)));
        entries.push((String::from_str("nix_build_group_name"), write_text(&self.nix_build_group_name)));
        entries.push((String::from_str("nix_build_group_id"), write_number(self.nix_build_group_id)));
        entries.push((String::from_str("nix_build_user_prefix"), write_text(&self.nix_build_user_prefix)));
        entries.push((String::from_str("nix_build_user_id_base"), write_number(self.nix_build_user_id_base)));
        entries.push((String::from_str("nix_package_url"), write_text(&self.nix_package_url)));
        entries.push((String::from_str("extra_conf"), write_texts(&self.extra_conf)));
        entries.push((String::from_str("force"), write_flag(self.force)));
        entries.push((String::from_str("proxy"), write_optional(&self.proxy)));
        entries.push((String::from_str("ssl_cert_file"), write_optional(&self.ssl_cert_file)));
        assert(entry_forms(entries@) =~= self.fields());
        entries
    }

    #[verifier::rlimit(80)]
    pub(crate) fn read_fields(entries: &Vec<(String, Value)>, from: usize) -> (read: Option<CommonSettings>)
        requires
            from + 12 <= usize::MAX,
        ensures
            match read {
                Some(found) => window(entry_forms(entries@), from as int, 12) == Some(found.fields()),
                None => forall|any: CommonSettings|
                    any.valid() ==> window(entry_forms(entries@), from as int, 12) != Some(
                        #[trigger] any.fields(),
                    ),
            },
    {
        let ghost all = entry_forms(entries@);
        if from + 12 > entries.len() {
            return None;
        }
        let channels: Vec<ChannelValue> = match entry(entries, from + 0, "channels") {
            Some(value) => match read_channels(value) {
                Some(found) => found,
                None => {
                    assert forall|any: CommonSettings| any.valid() implies window(all, from as int, 12) != Some(
                        #[trigger] any.fields(),
                    ) by {
                        if window(all, from as int, 12) == Some(any.fields()) {
                            assert(all.subrange(from as int, from + 12)[0] == any.fields()[0]);
                            assert(value@ == channels_form(any.channels));
                        }
                    }
                    return None;
                },
            },
            None => {
                assert forall|any: CommonSettings| any.valid() implies window(all, from as int, 12) != Some(
                    #[trigger] any.fields(),
                ) by {
                    if window(all, from as int, 12) == Some(any.fields()) {
                        assert(all.subrange(from as int, from + 12)[0] == any.fields()[0]);
                    }
                }
                return None;
            },
        };
        let modify_profile: bool = match entry(entries, from + 1, "modify_profile") {
            Some(value) => match read_flag(value) {
                Some(found) => found,
                None => {
                    assert forall|any: CommonSettings| any.valid() implies window(all, from as int, 12) != Some(
                        #[trigger] any.fields(),
                    ) by {
                        if window(all, from as int, 12) == Some(any.fields()) {
                            assert(all.subrange(from as int, from + 12)[1] == any.fields()[1]);
                            assert(value@ == flag_form(any.modify_profile));
                        }
                    }
                    return None;
                },
            },
            None => {
                assert forall|any: CommonSettings| any.valid() implies window(all, from as int, 12) != Some(
                    #[trigger] any.fields(),
                ) by {
                    if window(all, from as int, 12) == Some(any.fields()) {
                        assert(all.subrange(from as int, from + 12)[1] == any.fields()[1]);
                    }
                }
                return None;
            },
        };
        let nix_build_user_count: u32 = match entry(entries, from + 2, "nix_build_user_count") {
            Some(value) => match read_number(value) {
                Some(found) => found,
                None => {
                    assert forall|any: CommonSettings| any.valid() implies window(all, from as int, 12) != Some(
                        #[trigger] any.fields(),
                    ) by {
                        if window(all, from as int, 12) == Some(any.fields()) {
                            assert(all.subrange(from as int, from + 12)[2] == any.fields()[2]);
                            assert(value@ == number_form(any.nix_build_user_count));
                        }
                    }
                    return None;
                },
            },
            None => {
                assert forall|any: CommonSettings| any.valid() implies window(all, from as int, 12) != Some(
                    #[trigger] any.fields(),
                ) by {
                    if window(all, from as int, 12) == Some(any.fields()) {
                        assert(all.subrange(from as int, from + 12)[2] == any.fields()[2]);
                    }
                }
                return None;
            },
        };
        let nix_build_group_name: String = match entry(entries, from + 3, "nix_build_group_name") {
            Some(value) => match read_text(value) {
                Some(found) => found,
                None => {
                    assert forall|any: CommonSettings| any.valid() implies window(all, from as int, 12) != Some(
                        #[trigger] any.fields(),
                    ) by {
                        if window(all, from as int, 12) == Some(any.fields()) {
                            assert(all.subrange(from as int, from + 12)[3] == any.fields()[3]);
                            assert(value@ == text_form(any.nix_build_group_name));
                        }
                    }
                    return None;
                },
            },
            None => {
                assert forall|any: CommonSettings| any.valid() implies window(all, from as int, 12) != Some(
                    #[trigger] any.fields(),
                ) by {
                    if window(all, from as int, 12) == Some(any.fields()) {
                        assert(all.subrange(from as int, from + 12)[3] == any.fields()[3]);
                    }
                }
                return None;
            },
        };
        let nix_build_group_id: u32 = match entry(entries, from + 4, "nix_build_group_id") {
            Some(value) => match read_number(value) {
                Some(found) => found,
                None => {
                    assert forall|any: CommonSettings| any.valid() implies window(all, from as int, 12) != Some(
                        #[trigger] any.fields(),
                    ) by {
                        if window(all, from as int, 12) == Some(any.fields()) {
                            assert(all.subrange(from as int, from + 12)[4] == any.fields()[4]);
                            assert(value@ == number_form(any.nix_build_group_id));
                        }
                    }
                    return None;
                },
            },
            None => {
                assert forall|any: CommonSettings| any.valid() implies window(all, from as int, 12) != Some(
                    #[trigger] any.fields(),
                ) by {
                    if window(all, from as int, 12) == Some(any.fields()) {
                        assert(all.subrange(from as int, from + 12)[4] == any.fields()[4]);
                    }
                }
                return None;
            },
        };
        let nix_build_user_prefix: String = match entry(entries, from + 5, "nix_build_user_prefix") {
            Some(value) => match read_text(value) {
                Some(found) => found,
                None => {
                    assert forall|any: CommonSettings| any.valid() implies window(all, from as int, 12) != Some(
                        #[trigger] any.fields(),
                    ) by {
                        if window(all, from as int, 12) == Some(any.fields()) {
                            assert(all.subrange(from as int, from + 12)[5] == any.fields()[5]);
                            assert(value@ == text_form(any.nix_build_user_prefix));
                        }
                    }
                    return None;
                },
            },
            None => {
                assert forall|any: CommonSettings| any.valid() implies window(all, from as int, 12) != Some(
                    #[trigger] any.fields(),
                ) by {
                    if window(all, from as int, 12) == Some(any.fields()) {
                        assert(all.subrange(from as int, from + 12)[5] == any.fields()[5]);
                    }
                }
                return None;
            },
        };
        let nix_build_user_id_base: u32 = match entry(entries, from + 6, "nix_build_user_id_base") {
            Some(value) => match read_number(value) {
                Some(found) => found,
                None => {
                    assert forall|any: CommonSettings| any.valid() implies window(all, from as int, 12) != Some(
                        #[trigger] any.fields(),
                    ) by {
                        if window(all, from as int, 12) == Some(any.fields()) {
                            assert(all.subrange(from as int, from + 12)[6] == any.fields()[6]);
                            assert(value@ == number_form(any.nix_build_user_id_base));
                        }
                    }
                    return None;
                },
            },
            None => {
                assert forall|any: CommonSettings| any.valid() implies window(all, from as int, 12) != Some(
                    #[trigger] any.fields(),
                ) by {
                    if window(all, from as int, 12) == Some(any.fields()) {
                        assert(all.subrange(from as int, from + 12)[6] == any.fields()[6]);
                    }
                }
                return None;
            },
        };
        let nix_package_url: String = match entry(entries, from + 7, "nix_package_url") {
            Some(value) => match read_text(value) {
                Some(found) => found,
                None => {
                    assert forall|any: CommonSettings| any.valid() implies window(all, from as int, 12) != Some(
                        #[trigger] any.fields(),
                    ) by {
                        if window(all, from as int, 12) == Some(any.fields()) {
                            assert(all.subrange(from as int, from + 12)[7] == any.fields()[7]);
                            assert(value@ == text_form(any.nix_package_url));
                        }
                    }
                    return None;
                },
            },
            None => {
                assert forall|any: CommonSettings| any.valid() implies window(all, from as int, 12) != Some(
                    #[trigger] any.fields(),
                ) by {
                    if window(all, from as int, 12) == Some(any.fields()) {
                        assert(all.subrange(from as int, from + 12)[7] == any.fields()[7]);
                    }
                }
                return None;
            },
        };
        let extra_conf: Vec<String> = match entry(entries, from + 8, "extra_conf") {
            Some(value) => match read_texts(value) {
                Some(found) => found,
                None => {
                    assert forall|any: CommonSettings| any.valid() implies window(all, from as int, 12) != Some(
                        #[trigger] any.fields(),
                    ) by {
                        if window(all, from as int, 12) == Some(any.fields()) {
                            assert(all.subrange(from as int, from + 12)[8] == any.fields()[8]);
                            assert(value@ == texts_form(any.extra_conf));
                        }
                    }
                    return None;
                },
            },
            None => {
                assert forall|any: CommonSettings| any.valid() implies window(all, from as int, 12) != Some(
                    #[trigger] any.fields(),
                ) by {
                    if window(all, from as int, 12) == Some(any.fields()) {
                        assert(all.subrange(from as int, from + 12)[8] == any.fields()[8]);
                    }
                }
                return None;
            },
        };
        let force: bool = match entry(entries, from + 9, "force") {
            Some(value) => match read_flag(value) {
                Some(found) => found,
                None => {
                    assert forall|any: CommonSettings| any.valid() implies window(all, from as int, 12) != Some(
                        #[trigger] any.fields(),
                    ) by {
                        if window(all, from as int, 12) == Some(any.fields()) {
                            assert(all.subrange(from as int, from + 12)[9] == any.fields()[9]);
                            assert(value@ == flag_form(any.force));
                        }
                    }
                    return None;
                },
            },
            None => {
                assert forall|any: CommonSettings| any.valid() implies window(all, from as int, 12) != Some(
                    #[trigger] any.fields(),
                ) by {
                    if window(all, from as int, 12) == Some(any.fields()) {
                        assert(all.subrange(from as int, from + 12)[9] == any.fields()[9]);
                    }
                }
                return None;
            },
        };
        let proxy: Option<String> = match entry(entries, from + 10, "proxy") {
            Some(value) => match read_optional(value) {
                Some(found) => found,
                None => {
                    assert forall|any: CommonSettings| any.valid() implies window(all, from as int, 12) != Some(
                        #[trigger] any.fields(),
                    ) by {
                        if window(all, from as int, 12) == Some(any.fields()) {
                            assert(all.subrange(from as int, from + 12)[10] == any.fields()[10]);
                            assert(value@ == optional_form(any.proxy));
                        }
                    }
                    return None;
                },
            },
            None => {
                assert forall|any: CommonSettings| any.valid() implies window(all, from as int, 12) != Some(
                    #[trigger] any.fields(),
                ) by {
                    if window(all, from as int, 12) == Some(any.fields()) {
                        assert(all.subrange(from as int, from + 12)[10] == any.fields()[10]);
                    }
                }
                return None;
            },
        };
        let ssl_cert_file: Option<String> = match entry(entries, from + 11, "ssl_cert_file") {
            Some(value) => match read_optional(value) {
                Some(found) => found,
                None => {
                    assert forall|any: CommonSettings| any.valid() implies window(all, from as int, 12) != Some(
                        #[trigger] any.fields(),
                    ) by {
                        if window(all, from as int, 12) == Some(any.fields()) {
                            assert(all.subrange(from as int, from + 12)[11] == any.fields()[11]);
                            assert(value@ == optional_form(any.ssl_cert_file));
                        }
                    }
                    return None;
                },
            },
            None => {
                assert forall|any: CommonSettings| any.valid() implies window(all, from as int, 12) != Some(
                    #[trigger] any.fields(),
                ) by {
                    if window(all, from as int, 12) == Some(any.fields()) {
                        assert(all.subrange(from as int, from + 12)[11] == any.fields()[11]);
                    }
                }
                return None;
            },
        };
        let found = CommonSettings { channels, modify_profile, nix_build_user_count, nix_build_group_name, nix_build_group_id, nix_build_user_prefix, nix_build_user_id_base, nix_package_url, extra_conf, force, proxy, ssl_cert_file };
        assert(all.subrange(from as int, from + 12) =~= found.fields());
        Some(found)
    }
}

fn read_create_directory(entries: &Vec<(String, Value)>, from: usize) -> (read: Option<Action>)
    requires
        from + 8 <= usize::MAX,
    ensures
        match read {
            Some(found) => found.tag() == ActionTag::CreateDirectory && window(
                entry_forms(entries@),
                from as int,
                6,
            ) == Some(found.fields()),
            None => forall|any: Action|
                any.tag() == ActionTag::CreateDirectory && any.valid() ==> window(
                    entry_forms(entries@),
                    from as int,
                    6,
                ) != Some(#[trigger] any.fields()),
        },
{
    match CreateDirectory::read_fields(entries, from) {
        Some(found) => Some(Action::CreateDirectory(found)),
        None => {
            assert forall|any: Action| any.tag() == ActionTag::CreateDirectory && any.valid() implies window(
                entry_forms(entries@),
                from as int,
                6,
            ) != Some(#[trigger] any.fields()) by {
                match any {
                    Action::CreateDirectory(inner) => {
                        assert(inner.valid());
                        assert(window(entry_forms(entries@), from as int, 6) != Some(
                            inner.fields(),
                        ));
                    },
                    _ => {},
                }
            }
            None
        },
    }
}

fn read_create_file(entries: &Vec<(String, Value)>, from: usize) -> (read: Option<Action>)
    requires
        from + 8 <= usize::MAX,
    ensures
        match read {
            Some(found) => found.tag() == ActionTag::CreateFile && window(
                entry_forms(entries@),
                from as int,
                6,
            ) == Some(found.fields()),
            None => forall|any: Action|
                any.tag() == ActionTag::CreateFile && any.valid() ==> window(
                    entry_forms(entries@),
                    from as int,
                    6,
                ) != Some(#[trigger] any.fields()),
        },
{
    match CreateFile::read_fields(entries, from) {
        Some(found) => Some(Action::CreateFile(found)),
        None => {
            assert forall|any: Action| any.tag() == ActionTag::CreateFile && any.valid() implies window(
                entry_forms(entries@),
                from as int,
                6,
            ) != Some(#[trigger] any.fields()) by {
                match any {
                    Action::CreateFile(inner) => {
                        assert(inner.valid());
                        assert(window(entry_forms(entries@), from as int, 6) != Some(
                            inner.fields(),
                        ));
                    },
                    _ => {},
                }
            }
            None
        },
    }
}

fn read_create_group(entries: &Vec<(String, Value)>, from: usize) -> (read: Option<Action>)
    requires
        from + 8 <= usize::MAX,
    ensures
        match read {
            Some(found) => found.tag() == ActionTag::CreateGroup && window(
                entry_forms(entries@),
                from as int,
                2,
            ) == Some(found.fields()),
            None => forall|any: Action|
                any.tag() == ActionTag::CreateGroup && any.valid() ==> window(
                    entry_forms(entries@),
                    from as int,
                    2,
                ) != Some(#[trigger] any.fields()),
        },
{
    match CreateGroup::read_fields(entries, from) {
        Some(found) => Some(Action::CreateGroup(found)),
        None => {
            assert forall|any: Action| any.tag() == ActionTag::CreateGroup && any.valid() implies window(
                entry_forms(entries@),
                from as int,
                2,
            ) != Some(#[trigger] any.fields()) by {
                match any {
                    Action::CreateGroup(inner) => {
                        assert(inner.valid());
                        assert(window(entry_forms(entries@), from as int, 2) != Some(
                            inner.fields(),
                        ));
                    },
                    _ => {},
                }
            }
            None
        },
    }
}

fn read_create_or_insert_into_file(entries: &Vec<(String, Value)>, from: usize) -> (read: Option<Action>)
    requires
        from + 8 <= usize::MAX,
    ensures
        match read {
            Some(found) => found.tag() == ActionTag::CreateOrInsertIntoFile && window(
                entry_forms(entries@),
                from as int,
                6,
            ) == Some(found.fields()),
            None => forall|any: Action|
                any.tag() == ActionTag::CreateOrInsertIntoFile && any.valid() ==> window(
                    entry_forms(entries@),
                    from as int,
                    6,
                ) != Some(#[trigger] any.fields()),
        },
{
    match CreateOrInsertIntoFile::read_fields(entries, from) {
        Some(found) => Some(Action::CreateOrInsertIntoFile(found)),
        None => {
            assert forall|any: Action| any.tag() == ActionTag::CreateOrInsertIntoFile && any.valid() implies window(
                entry_forms(entries@),
                from as int,
                6,
            ) != Some(#[trigger] any.fields()) by {
                match any {
                    Action::CreateOrInsertIntoFile(inner) => {
                        assert(inner.valid());
                        assert(window(entry_forms(entries@), from as int, 6) != Some(
                            inner.fields(),
                        ));
                    },
                    _ => {},
                }
            }
            None
        },
    }
}

fn read_create_or_merge_nix_config(entries: &Vec<(String, Value)>, from: usize) -> (read: Option<Action>)
    requires
        from + 8 <= usize::MAX,
    ensures
        match read {
            Some(found) => found.tag() == ActionTag::CreateOrMergeNixConfig && window(
                entry_forms(entries@),
                from as int,
                3,
            ) == Some(found.fields()),
            None => forall|any: Action|
                any.tag() == ActionTag::CreateOrMergeNixConfig && any.valid() ==> window(
                    entry_forms(entries@),
                    from as int,
                    3,
                ) != Some(#[trigger] any.fields()),
        },
{
    match CreateOrMergeNixConfig::read_fields(entries, from) {
        Some(found) => Some(Action::CreateOrMergeNixConfig(found)),
        None => {
            assert forall|any: Action| any.tag() == ActionTag::CreateOrMergeNixConfig && any.valid() implies window(
                entry_forms(entries@),
                from as int,
                3,
            ) != Some(#[trigger] any.fields()) by {
                match any {
                    Action::CreateOrMergeNixConfig(inner) => {
                        assert(inner.valid());
                        assert(window(entry_forms(entries@), from as int, 3) != Some(
                            inner.fields(),
                        ));
                    },
                    _ => {},
                }
            }
            None
        },
    }
}

fn read_create_user(entries: &Vec<(String, Value)>, from: usize) -> (read: Option<Action>)
    requires
        from + 8 <= usize::MAX,
    ensures
        match read {
            Some(found) => found.tag() == ActionTag::CreateUser && window(
                entry_forms(entries@),
                from as int,
                4,
            ) == Some(found.fields()),
            None => forall|any: Action|
                any.tag() == ActionTag::CreateUser && any.valid() ==> window(
                    entry_forms(entries@),
                    from as int,
                    4,
                ) != Some(#[trigger] any.fields()),
        },
{
    match CreateUser::read_fields(entries, from) {
        Some(found) => Some(Action::CreateUser(found)),
        None => {
            assert forall|any: Action| any.tag() == ActionTag::CreateUser && any.valid() implies window(
                entry_forms(entries@),
                from as int,
                4,
            ) != Some(#[trigger] any.fields()) by {
                match any {
                    Action::CreateUser(inner) => {
                        assert(inner.valid());
                        assert(window(entry_forms(entries@), from as int, 4) != Some(
                            inner.fields(),
                        ));
                    },
                    _ => {},
                }
            }
            None
        },
    }
}

fn read_fetch_and_unpack_nix(entries: &Vec<(String, Value)>, from: usize) -> (read: Option<Action>)
    requires
        from + 8 <= usize::MAX,
    ensures
        match read {
            Some(found) => found.tag() == ActionTag::FetchAndUnpackNix && window(
                entry_forms(entries@),
                from as int,
                2,
            ) == Some(found.fields()),
            None => forall|any: Action|
                any.tag() == ActionTag::FetchAndUnpackNix && any.valid() ==> window(
                    entry_forms(entries@),
                    from as int,
                    2,
                ) != Some(#[trigger] any.fields()),
        },
{
    match FetchAndUnpackNix::read_fields(entries, from) {
        Some(found) => Some(Action::FetchAndUnpackNix(found)),
        None => {
            assert forall|any: Action| any.tag() == ActionTag::FetchAndUnpackNix && any.valid() implies window(
                entry_forms(entries@),
                from as int,
                2,
            ) != Some(#[trigger] any.fields()) by {
                match any {
                    Action::FetchAndUnpackNix(inner) => {
                        assert(inner.valid());
                        assert(window(entry_forms(entries@), from as int, 2) != Some(
                            inner.fields(),
                        ));
                    },
                    _ => {},
                }
            }
            None
        },
    }
}

fn read_move_unpacked_nix(entries: &Vec<(String, Value)>, from: usize) -> (read: Option<Action>)
    requires
        from + 8 <= usize::MAX,
    ensures
        match read {
            Some(found) => found.tag() == ActionTag::MoveUnpackedNix && window(
                entry_forms(entries@),
                from as int,
                1,
            ) == Some(found.fields()),
            None => forall|any: Action|
                any.tag() == ActionTag::MoveUnpackedNix && any.valid() ==> window(
                    entry_forms(entries@),
                    from as int,
                    1,
                ) != Some(#[trigger] any.fields()),
        },
{
    match MoveUnpackedNix::read_fields(entries, from) {
        Some(found) => Some(Action::MoveUnpackedNix(found)),
        None => {
            assert forall|any: Action| any.tag() == ActionTag::MoveUnpackedNix && any.valid() implies window(
                entry_forms(entries@),
                from as int,
                1,
            ) != Some(#[trigger] any.fields()) by {
                match any {
                    Action::MoveUnpackedNix(inner) => {
                        assert(inner.valid());
                        assert(window(entry_forms(entries@), from as int, 1) != Some(
                            inner.fields(),
                        ));
                    },
                    _ => {},
                }
            }
            None
        },
    }
}

fn read_setup_default_profile(entries: &Vec<(String, Value)>, from: usize) -> (read: Option<Action>)
    requires
        from + 8 <= usize::MAX,
    ensures
        match read {
            Some(found) => found.tag() == ActionTag::SetupDefaultProfile && window(
                entry_forms(entries@),
                from as int,
                1,
            ) == Some(found.fields()),
            None => forall|any: Action|
                any.tag() == ActionTag::SetupDefaultProfile && any.valid() ==> window(
                    entry_forms(entries@),
                    from as int,
                    1,
                ) != Some(#[trigger] any.fields()),
        },
{
    match SetupDefaultProfile::read_fields(entries, from) {
        Some(found) => Some(Action::SetupDefaultProfile(found)),
        None => {
            assert forall|any: Action| any.tag() == ActionTag::SetupDefaultProfile && any.valid() implies window(
                entry_forms(entries@),
                from as int,
                1,
            ) != Some(#[trigger] any.fields()) by {
                match any {
                    Action::SetupDefaultProfile(inner) => {
                        assert(inner.valid());
                        assert(window(entry_forms(entries@), from as int, 1) != Some(
                            inner.fields(),
                        ));
                    },
                    _ => {},
                }
            }
            None
        },
    }
}

fn read_configure_nix(entries: &Vec<(String, Value)>, from: usize) -> (read: Option<Action>)
    requires
        from + 8 <= usize::MAX,
    ensures
        match read {
            Some(found) => found.tag() == ActionTag::ConfigureNix && window(
                entry_forms(entries@),
                from as int,
                0,
            ) == Some(found.fields()),
            None => forall|any: Action|
                any.tag() == ActionTag::ConfigureNix && any.valid() ==> window(
                    entry_forms(entries@),
                    from as int,
                    0,
                ) != Some(#[trigger] any.fields()),
        },
{
    match ConfigureNix::read_fields(entries, from) {
        Some(found) => Some(Action::ConfigureNix(found)),
        None => {
            assert forall|any: Action| any.tag() == ActionTag::ConfigureNix && any.valid() implies window(
                entry_forms(entries@),
                from as int,
                0,
            ) != Some(#[trigger] any.fields()) by {
                match any {
                    Action::ConfigureNix(inner) => {
                        assert(inner.valid());
                        assert(window(entry_forms(entries@), from as int, 0) != Some(
                            inner.fields(),
                        ));
                    },
                    _ => {},
                }
            }
            None
        },
    }
}

fn read_configure_nix_daemon_service(entries: &Vec<(String, Value)>, from: usize) -> (read: Option<Action>)
    requires
        from + 8 <= usize::MAX,
    ensures
        match read {
            Some(found) => found.tag() == ActionTag::ConfigureNixDaemonService && window(
                entry_forms(entries@),
                from as int,
                0,
            ) == Some(found.fields()),
            None => forall|any: Action|
                any.tag() == ActionTag::ConfigureNixDaemonService && any.valid() ==> window(
                    entry_forms(entries@),
                    from as int,
                    0,
                ) != Some(#[trigger] any.fields()),
        },
{
    match ConfigureNixDaemonService::read_fields(entries, from) {
        Some(found) => Some(Action::ConfigureNixDaemonService(found)),
        None => {
            assert forall|any: Action| any.tag() == ActionTag::ConfigureNixDaemonService && any.valid() implies window(
                entry_forms(entries@),
                from as int,
                0,
            ) != Some(#[trigger] any.fields()) by {
                match any {
                    Action::ConfigureNixDaemonService(inner) => {
                        assert(inner.valid());
                        assert(window(entry_forms(entries@), from as int, 0) != Some(
                            inner.fields(),
                        ));
                    },
                    _ => {},
                }
            }
            None
        },
    }
}

fn read_configure_shell_profile(entries: &Vec<(String, Value)>, from: usize) -> (read: Option<Action>)
    requires
        from + 8 <= usize::MAX,
    ensures
        match read {
            Some(found) => found.tag() == ActionTag::ConfigureShellProfile && window(
                entry_forms(entries@),
                from as int,
                0,
            ) == Some(found.fields()),
            None => forall|any: Action|
                any.tag() == ActionTag::ConfigureShellProfile && any.valid() ==> window(
                    entry_forms(entries@),
                    from as int,
                    0,
                ) != Some(#[trigger] any.fields()),
        },
{
    match ConfigureShellProfile::read_fields(entries, from) {
        Some(found) => Some(Action::ConfigureShellProfile(found)),
        None => {
            assert forall|any: Action| any.tag() == ActionTag::ConfigureShellProfile && any.valid() implies window(
                entry_forms(entries@),
                from as int,
                0,
            ) != Some(#[trigger] any.fields()) by {
                match any {
                    Action::ConfigureShellProfile(inner) => {
                        assert(inner.valid());
                        assert(window(entry_forms(entries@), from as int, 0) != Some(
                            inner.fields(),
                        ));
                    },
                    _ => {},
                }
            }
            None
        },
    }
}

fn read_create_users_and_groups(entries: &Vec<(String, Value)>, from: usize) -> (read: Option<Action>)
    requires
        from + 8 <= usize::MAX,
    ensures
        match read {
            Some(found) => found.tag() == ActionTag::CreateUsersAndGroups && window(
                entry_forms(entries@),
                from as int,
                5,
            ) == Some(found.fields()),
            None => forall|any: Action|
                any.tag() == ActionTag::CreateUsersAndGroups && any.valid() ==> window(
                    entry_forms(entries@),
                    from as int,
                    5,
                ) != Some(#[trigger] any.fields()),
        },
{
    match CreateUsersAndGroups::read_fields(entries, from) {
        Some(found) => Some(Action::CreateUsersAndGroups(found)),
        None => {
            assert forall|any: Action| any.tag() == ActionTag::CreateUsersAndGroups && any.valid() implies window(
                entry_forms(entries@),
                from as int,
                5,
            ) != Some(#[trigger] any.fields()) by {
                match any {
                    Action::CreateUsersAndGroups(inner) => {
                        assert(inner.valid());
                        assert(window(entry_forms(entries@), from as int, 5) != Some(
                            inner.fields(),
                        ));
                    },
                    _ => {},
                }
            }
            None
        },
    }
}

fn read_place_channel_configuration(entries: &Vec<(String, Value)>, from: usize) -> (read: Option<Action>)
    requires
        from + 8 <= usize::MAX,
    ensures
        match read {
            Some(found) => found.tag() == ActionTag::PlaceChannelConfiguration && window(
                entry_forms(entries@),
                from as int,
                1,
            ) == Some(found.fields()),
            None => forall|any: Action|
                any.tag() == ActionTag::PlaceChannelConfiguration && any.valid() ==> window(
                    entry_forms(entries@),
                    from as int,
                    1,
                ) != Some(#[trigger] any.fields()),
        },
{
    match PlaceChannelConfiguration::read_fields(entries, from) {
        Some(found) => Some(Action::PlaceChannelConfiguration(found)),
        None => {
            assert forall|any: Action| any.tag() == ActionTag::PlaceChannelConfiguration && any.valid() implies window(
                entry_forms(entries@),
                from as int,
                1,
            ) != Some(#[trigger] any.fields()) by {
                match any {
                    Action::PlaceChannelConfiguration(inner) => {
                        assert(inner.valid());
                        assert(window(entry_forms(entries@), from as int, 1) != Some(
                            inner.fields(),
                        ));
                    },
                    _ => {},
                }
            }
            None
        },
    }
}

fn read_place_nix_configuration(entries: &Vec<(String, Value)>, from: usize) -> (read: Option<Action>)
    requires
        from + 8 <= usize::MAX,
    ensures
        match read {
            Some(found) => found.tag() == ActionTag::PlaceNixConfiguration && window(
                entry_forms(entries@),
                from as int,
                0,
            ) == Some(found.fields()),
            None => forall|any: Action|
                any.tag() == ActionTag::PlaceNixConfiguration && any.valid() ==> window(
                    entry_forms(entries@),
                    from as int,
                    0,
                ) != Some(#[trigger] any.fields()),
        },
{
    match PlaceNixConfiguration::read_fields(entries, from) {
        Some(found) => Some(Action::PlaceNixConfiguration(found)),
        None => {
            assert forall|any: Action| any.tag() == ActionTag::PlaceNixConfiguration && any.valid() implies window(
                entry_forms(entries@),
                from as int,
                0,
            ) != Some(#[trigger] any.fields()) by {
                match any {
                    Action::PlaceNixConfiguration(inner) => {
                        assert(inner.valid());
                        assert(window(entry_forms(entries@), from as int, 0) != Some(
                            inner.fields(),
                        ));
                    },
                    _ => {},
                }
            }
            None
        },
    }
}

fn read_provision_nix(entries: &Vec<(String, Value)>, from: usize) -> (read: Option<Action>)
    requires
        from + 8 <= usize::MAX,
    ensures
        match read {
            Some(found) => found.tag() == ActionTag::ProvisionNix && window(
                entry_forms(entries@),
                from as int,
                0,
            ) == Some(found.fields()),
            None => forall|any: Action|
                any.tag() == ActionTag::ProvisionNix && any.valid() ==> window(
                    entry_forms(entries@),
                    from as int,
                    0,
                ) != Some(#[trigger] any.fields()),
        },
{
    match ProvisionNix::read_fields(entries, from) {
        Some(found) => Some(Action::ProvisionNix(found)),
        None => {
            assert forall|any: Action| any.tag() == ActionTag::ProvisionNix && any.valid() implies window(
                entry_forms(entries@),
                from as int,
                0,
            ) != Some(#[trigger] any.fields()) by {
                match any {
                    Action::ProvisionNix(inner) => {
                        assert(inner.valid());
                        assert(window(entry_forms(entries@), from as int, 0) != Some(
                            inner.fields(),
                        ));
                    },
                    _ => {},
                }
            }
            None
        },
    }
}

fn read_create_systemd_sysext(entries: &Vec<(String, Value)>, from: usize) -> (read: Option<Action>)
    requires
        from + 8 <= usize::MAX,
    ensures
        match read {
            Some(found) => found.tag() == ActionTag::CreateSystemdSysext && window(
                entry_forms(entries@),
                from as int,
                1,
            ) == Some(found.fields()),
            None => forall|any: Action|
                any.tag() == ActionTag::CreateSystemdSysext && any.valid() ==> window(
                    entry_forms(entries@),
                    from as int,
                    1,
                ) != Some(#[trigger] any.fields()),
        },
{
    match CreateSystemdSysext::read_fields(entries, from) {
        Some(found) => Some(Action::CreateSystemdSysext(found)),
        None => {
            assert forall|any: Action| any.tag() == ActionTag::CreateSystemdSysext && any.valid() implies window(
                entry_forms(entries@),
                from as int,
                1,
            ) != Some(#[trigger] any.fields()) by {
                match any {
                    Action::CreateSystemdSysext(inner) => {
                        assert(inner.valid());
                        assert(window(entry_forms(entries@), from as int, 1) != Some(
                            inner.fields(),
                        ));
                    },
                    _ => {},
                }
            }
            None
        },
    }
}

fn read_start_systemd_unit(entries: &Vec<(String, Value)>, from: usize) -> (read: Option<Action>)
    requires
        from + 8 <= usize::MAX,
    ensures
        match read {
            Some(found) => found.tag() == ActionTag::StartSystemdUnit && window(
                entry_forms(entries@),
                from as int,
                1,
            ) == Some(found.fields()),
            None => forall|any: Action|
                any.tag() == ActionTag::StartSystemdUnit && any.valid() ==> window(
                    entry_forms(entries@),
                    from as int,
                    1,
                ) != Some(#[trigger] any.fields()),
        },
{
    match StartSystemdUnit::read_fields(entries, from) {
        Some(found) => Some(Action::StartSystemdUnit(found)),
        None => {
            assert forall|any: Action| any.tag() == ActionTag::StartSystemdUnit && any.valid() implies window(
                entry_forms(entries@),
                from as int,
                1,
            ) != Some(#[trigger] any.fields()) by {
                match any {
                    Action::StartSystemdUnit(inner) => {
                        assert(inner.valid());
                        assert(window(entry_forms(entries@), from as int, 1) != Some(
                            inner.fields(),
                        ));
                    },
                    _ => {},
                }
            }
            None
        },
    }
}

fn read_bootstrap_launchctl_service(entries: &Vec<(String, Value)>, from: usize) -> (read: Option<Action>)
    requires
        from + 8 <= usize::MAX,
    ensures
        match read {
            Some(found) => found.tag() == ActionTag::BootstrapLaunchctlService && window(
                entry_forms(entries@),
                from as int,
                3,
            ) == Some(found.fields()),
            None => forall|any: Action|
                any.tag() == ActionTag::BootstrapLaunchctlService && any.valid() ==> window(
                    entry_forms(entries@),
                    from as int,
                    3,
                ) != Some(#[trigger] any.fields()),
        },
{
    match BootstrapLaunchctlService::read_fields(entries, from) {
        Some(found) => Some(Action::BootstrapLaunchctlService(found)),
        None => {
            assert forall|any: Action| any.tag() == ActionTag::BootstrapLaunchctlService && any.valid() implies window(
                entry_forms(entries@),
                from as int,
                3,
            ) != Some(#[trigger] any.fields()) by {
                match any {
                    Action::BootstrapLaunchctlService(inner) => {
                        assert(inner.valid());
                        assert(window(entry_forms(entries@), from as int, 3) != Some(
                            inner.fields(),
                        ));
                    },
                    _ => {},
                }
            }
            None
        },
    }
}

fn read_create_apfs_volume(entries: &Vec<(String, Value)>, from: usize) -> (read: Option<Action>)
    requires
        from + 8 <= usize::MAX,
    ensures
        match read {
            Some(found) => found.tag() == ActionTag::CreateApfsVolume && window(
                entry_forms(entries@),
                from as int,
                3,
            ) == Some(found.fields()),
            None => forall|any: Action|
                any.tag() == ActionTag::CreateApfsVolume && any.valid() ==> window(
                    entry_forms(entries@),
                    from as int,
                    3,
                ) != Some(#[trigger] any.fields()),
        },
{
    match CreateApfsVolume::read_fields(entries, from) {
        Some(found) => Some(Action::CreateApfsVolume(found)),
        None => {
            assert forall|any: Action| any.tag() == ActionTag::CreateApfsVolume && any.valid() implies window(
                entry_forms(entries@),
                from as int,
                3,
            ) != Some(#[trigger] any.fields()) by {
                match any {
                    Action::CreateApfsVolume(inner) => {
                        assert(inner.valid());
                        assert(window(entry_forms(entries@), from as int, 3) != Some(
                            inner.fields(),
                        ));
                    },
                    _ => {},
                }
            }
            None
        },
    }
}

fn read_create_fstab_entry(entries: &Vec<(String, Value)>, from: usize) -> (read: Option<Action>)
    requires
        from + 8 <= usize::MAX,
    ensures
        match read {
            Some(found) => found.tag() == ActionTag::CreateFstabEntry && window(
                entry_forms(entries@),
                from as int,
                1,
            ) == Some(found.fields()),
            None => forall|any: Action|
                any.tag() == ActionTag::CreateFstabEntry && any.valid() ==> window(
                    entry_forms(entries@),
                    from as int,
                    1,
                ) != Some(#[trigger] any.fields()),
        },
{
    match CreateFstabEntry::read_fields(entries, from) {
        Some(found) => Some(Action::CreateFstabEntry(found)),
        None => {
            assert forall|any: Action| any.tag() == ActionTag::CreateFstabEntry && any.valid() implies window(
                entry_forms(entries@),
                from as int,
                1,
            ) != Some(#[trigger] any.fields()) by {
                match any {
                    Action::CreateFstabEntry(inner) => {
                        assert(inner.valid());
                        assert(window(entry_forms(entries@), from as int, 1) != Some(
                            inner.fields(),
                        ));
                    },
                    _ => {},
                }
            }
            None
        },
    }
}

fn read_create_nix_volume(entries: &Vec<(String, Value)>, from: usize) -> (read: Option<Action>)
    requires
        from + 8 <= usize::MAX,
    ensures
        match read {
            Some(found) => found.tag() == ActionTag::CreateNixVolume && window(
                entry_forms(entries@),
                from as int,
                4,
            ) == Some(found.fields()),
            None => forall|any: Action|
                any.tag() == ActionTag::CreateNixVolume && any.valid() ==> window(
                    entry_forms(entries@),
                    from as int,
                    4,
                ) != Some(#[trigger] any.fields()),
        },
{
    match CreateNixVolume::read_fields(entries, from) {
        Some(found) => Some(Action::CreateNixVolume(found)),
        None => {
            assert forall|any: Action| any.tag() == ActionTag::CreateNixVolume && any.valid() implies window(
                entry_forms(entries@),
                from as int,
                4,
            ) != Some(#[trigger] any.fields()) by {
                match any {
                    Action::CreateNixVolume(inner) => {
                        assert(inner.valid());
                        assert(window(entry_forms(entries@), from as int, 4) != Some(
                            inner.fields(),
                        ));
                    },
                    _ => {},
                }
            }
            None
        },
    }
}

fn read_create_synthetic_objects(entries: &Vec<(String, Value)>, from: usize) -> (read: Option<Action>)
    requires
        from + 8 <= usize::MAX,
    ensures
        match read {
            Some(found) => found.tag() == ActionTag::CreateSyntheticObjects && window(
                entry_forms(entries@),
                from as int,
                0,
            ) == Some(found.fields()),
            None => forall|any: Action|
                any.tag() == ActionTag::CreateSyntheticObjects && any.valid() ==> window(
                    entry_forms(entries@),
                    from as int,
                    0,
                ) != Some(#[trigger] any.fields()),
        },
{
    match CreateSyntheticObjects::read_fields(entries, from) {
        Some(found) => Some(Action::CreateSyntheticObjects(found)),
        None => {
            assert forall|any: Action| any.tag() == ActionTag::CreateSyntheticObjects && any.valid() implies window(
                entry_forms(entries@),
                from as int,
                0,
            ) != Some(#[trigger] any.fields()) by {
                match any {
                    Action::CreateSyntheticObjects(inner) => {
                        assert(inner.valid());
                        assert(window(entry_forms(entries@), from as int, 0) != Some(
                            inner.fields(),
                        ));
                    },
                    _ => {},
                }
            }
            None
        },
    }
}

fn read_enable_ownership(entries: &Vec<(String, Value)>, from: usize) -> (read: Option<Action>)
    requires
        from + 8 <= usize::MAX,
    ensures
        match read {
            Some(found) => found.tag() == ActionTag::EnableOwnership && window(
                entry_forms(entries@),
                from as int,
                1,
            ) == Some(found.fields()),
            None => forall|any: Action|
                any.tag() == ActionTag::EnableOwnership && any.valid() ==> window(
                    entry_forms(entries@),
                    from as int,
                    1,
                ) != Some(#[trigger] any.fields()),
        },
{
    match EnableOwnership::read_fields(entries, from) {
        Some(found) => Some(Action::EnableOwnership(found)),
        None => {
            assert forall|any: Action| any.tag() == ActionTag::EnableOwnership && any.valid() implies window(
                entry_forms(entries@),
                from as int,
                1,
            ) != Some(#[trigger] any.fields()) by {
                match any {
                    Action::EnableOwnership(inner) => {
                        assert(inner.valid());
                        assert(window(entry_forms(entries@), from as int, 1) != Some(
                            inner.fields(),
                        ));
                    },
                    _ => {},
                }
            }
            None
        },
    }
}

fn read_encrypt_apfs_volume(entries: &Vec<(String, Value)>, from: usize) -> (read: Option<Action>)
    requires
        from + 8 <= usize::MAX,
    ensures
        match read {
            Some(found) => found.tag() == ActionTag::EncryptApfsVolume && window(
                entry_forms(entries@),
                from as int,
                2,
            ) == Some(found.fields()),
            None => forall|any: Action|
                any.tag() == ActionTag::EncryptApfsVolume && any.valid() ==> window(
                    entry_forms(entries@),
                    from as int,
                    2,
                ) != Some(#[trigger] any.fields()),
        },
{
    match EncryptApfsVolume::read_fields(entries, from) {
        Some(found) => Some(Action::EncryptApfsVolume(found)),
        None => {
            assert forall|any: Action| any.tag() == ActionTag::EncryptApfsVolume && any.valid() implies window(
                entry_forms(entries@),
                from as int,
                2,
            ) != Some(#[trigger] any.fields()) by {
                match any {
                    Action::EncryptApfsVolume(inner) => {
                        assert(inner.valid());
                        assert(window(entry_forms(entries@), from as int, 2) != Some(
                            inner.fields(),
                        ));
                    },
                    _ => {},
                }
            }
            None
        },
    }
}

fn read_kickstart_launchctl_service(entries: &Vec<(String, Value)>, from: usize) -> (read: Option<Action>)
    requires
        from + 8 <= usize::MAX,
    ensures
        match read {
            Some(found) => found.tag() == ActionTag::KickstartLaunchctlService && window(
                entry_forms(entries@),
                from as int,
                1,
            ) == Some(found.fields()),
            None => forall|any: Action|
                any.tag() == ActionTag::KickstartLaunchctlService && any.valid() ==> window(
                    entry_forms(entries@),
                    from as int,
                    1,
                ) != Some(#[trigger] any.fields()),
        },
{
    match KickstartLaunchctlService::read_fields(entries, from) {
        Some(found) => Some(Action::KickstartLaunchctlService(found)),
        None => {
            assert forall|any: Action| any.tag() == ActionTag::KickstartLaunchctlService && any.valid() implies window(
                entry_forms(entries@),
                from as int,
                1,
            ) != Some(#[trigger] any.fields()) by {
                match any {
                    Action::KickstartLaunchctlService(inner) => {
                        assert(inner.valid());
                        assert(window(entry_forms(entries@), from as int, 1) != Some(
                            inner.fields(),
                        ));
                    },
                    _ => {},
                }
            }
            None
        },
    }
}

fn read_unmount_apfs_volume(entries: &Vec<(String, Value)>, from: usize) -> (read: Option<Action>)
    requires
        from + 8 <= usize::MAX,
    ensures
        match read {
            Some(found) => found.tag() == ActionTag::UnmountApfsVolume && window(
                entry_forms(entries@),
                from as int,
                2,
            ) == Some(found.fields()),
            None => forall|any: Action|
                any.tag() == ActionTag::UnmountApfsVolume && any.valid() ==> window(
                    entry_forms(entries@),
                    from as int,
                    2,
                ) != Some(#[trigger] any.fields()),
        },
{
    match UnmountApfsVolume::read_fields(entries, from) {
        Some(found) => Some(Action::UnmountApfsVolume(found)),
        None => {
            assert forall|any: Action| any.tag() == ActionTag::UnmountApfsVolume && any.valid() implies window(
                entry_forms(entries@),
                from as int,
                2,
            ) != Some(#[trigger] any.fields()) by {
                match any {
                    Action::UnmountApfsVolume(inner) => {
                        assert(inner.valid());
                        assert(window(entry_forms(entries@), from as int, 2) != Some(
                            inner.fields(),
                        ));
                    },
                    _ => {},
                }
            }
            None
        },
    }
}

fn read_wait_for_volume(entries: &Vec<(String, Value)>, from: usize) -> (read: Option<Action>)
    requires
        from + 8 <= usize::MAX,
    ensures
        match read {
            Some(found) => found.tag() == ActionTag::WaitForVolume && window(
                entry_forms(entries@),
                from as int,
                3,
            ) == Some(found.fields()),
            None => forall|any: Action|
                any.tag() == ActionTag::WaitForVolume && any.valid() ==> window(
                    entry_forms(entries@),
                    from as int,
                    3,
                ) != Some(#[trigger] any.fields()),
        },
{
    match WaitForVolume::read_fields(entries, from) {
        Some(found) => Some(Action::WaitForVolume(found)),
        None => {
            assert forall|any: Action| any.tag() == ActionTag::WaitForVolume && any.valid() implies window(
                entry_forms(entries@),
                from as int,
                3,
            ) != Some(#[trigger] any.fields()) by {
                match any {
                    Action::WaitForVolume(inner) => {
                        assert(inner.valid());
                        assert(window(entry_forms(entries@), from as int, 3) != Some(
                            inner.fields(),
                        ));
                    },
                    _ => {},
                }
            }
            None
        },
    }
}

impl ActionTag {
    /// How many named values an action of this kind is written with, beside
    /// its kind, its state and its children.
    pub open spec fn arity(self) -> nat {
        match self {
            ActionTag::CreateDirectory => 6,
            ActionTag::CreateFile => 6,
            ActionTag::CreateGroup => 2,
            ActionTag::CreateOrInsertIntoFile => 6,
            ActionTag::CreateOrMergeNixConfig => 3,
            ActionTag::CreateUser => 4,
            ActionTag::FetchAndUnpackNix => 2,
            ActionTag::MoveUnpackedNix => 1,
            ActionTag::SetupDefaultProfile => 1,
            ActionTag::ConfigureNix => 0,
            ActionTag::ConfigureNixDaemonService => 0,
            ActionTag::ConfigureShellProfile => 0,
            ActionTag::CreateUsersAndGroups => 5,
            ActionTag::PlaceChannelConfiguration => 1,
            ActionTag::PlaceNixConfiguration => 0,
            ActionTag::ProvisionNix => 0,
            ActionTag::CreateSystemdSysext => 1,
            ActionTag::StartSystemdUnit => 1,
            ActionTag::BootstrapLaunchctlService => 3,
            ActionTag::CreateApfsVolume => 3,
            ActionTag::CreateFstabEntry => 1,
            ActionTag::CreateNixVolume => 4,
            ActionTag::CreateSyntheticObjects => 0,
            ActionTag::EnableOwnership => 1,
            ActionTag::EncryptApfsVolume => 2,
            ActionTag::KickstartLaunchctlService => 1,
            ActionTag::UnmountApfsVolume => 2,
            ActionTag::WaitForVolume => 3,
        }
    }

    /// How many named values an action of this kind is written with, beside
    /// its kind, its state and its children.
    pub fn field_count(&self) -> (count: usize)
        ensures
            count == self.arity(),
    {
        match self {
            ActionTag::CreateDirectory => 6,
            ActionTag::CreateFile => 6,
            ActionTag::CreateGroup => 2,
            ActionTag::CreateOrInsertIntoFile => 6,
            ActionTag::CreateOrMergeNixConfig => 3,
            ActionTag::CreateUser => 4,
            ActionTag::FetchAndUnpackNix => 2,
            ActionTag::MoveUnpackedNix => 1,
            ActionTag::SetupDefaultProfile => 1,
            ActionTag::ConfigureNix => 0,
            ActionTag::ConfigureNixDaemonService => 0,
            ActionTag::ConfigureShellProfile => 0,
            ActionTag::CreateUsersAndGroups => 5,
            ActionTag::PlaceChannelConfiguration => 1,
            ActionTag::PlaceNixConfiguration => 0,
            ActionTag::ProvisionNix => 0,
            ActionTag::CreateSystemdSysext => 1,
            ActionTag::StartSystemdUnit => 1,
            ActionTag::BootstrapLaunchctlService => 3,
            ActionTag::CreateApfsVolume => 3,
            ActionTag::CreateFstabEntry => 1,
            ActionTag::CreateNixVolume => 4,
            ActionTag::CreateSyntheticObjects => 0,
            ActionTag::EnableOwnership => 1,
            ActionTag::EncryptApfsVolume => 2,
            ActionTag::KickstartLaunchctlService => 1,
            ActionTag::UnmountApfsVolume => 2,
            ActionTag::WaitForVolume => 3,
        }
    }
}

impl Action {
    /// The named values by which the action is written, in order.
    pub open spec fn fields(self) -> Seq<(Seq<char>, Form)> {
        match self {
            Action::CreateDirectory(action) => action.fields(),
            Action::CreateFile(action) => action.fields(),
            Action::CreateGroup(action) => action.fields(),
            Action::CreateOrInsertIntoFile(action) => action.fields(),
            Action::CreateOrMergeNixConfig(action) => action.fields(),
            Action::CreateUser(action) => action.fields(),
            Action::FetchAndUnpackNix(action) => action.fields(),
            Action::MoveUnpackedNix(action) => action.fields(),
            Action::SetupDefaultProfile(action) => action.fields(),
            Action::ConfigureNix(action) => action.fields(),
            Action::ConfigureNixDaemonService(action) => action.fields(),
            Action::ConfigureShellProfile(action) => action.fields(),
            Action::CreateUsersAndGroups(action) => action.fields(),
            Action::PlaceChannelConfiguration(action) => action.fields(),
            Action::PlaceNixConfiguration(action) => action.fields(),
            Action::ProvisionNix(action) => action.fields(),
            Action::CreateSystemdSysext(action) => action.fields(),
            Action::StartSystemdUnit(action) => action.fields(),
            Action::BootstrapLaunchctlService(action) => action.fields(),
            Action::CreateApfsVolume(action) => action.fields(),
            Action::CreateFstabEntry(action) => action.fields(),
            Action::CreateNixVolume(action) => action.fields(),
            Action::CreateSyntheticObjects(action) => action.fields(),
            Action::EnableOwnership(action) => action.fields(),
            Action::EncryptApfsVolume(action) => action.fields(),
            Action::KickstartLaunchctlService(action) => action.fields(),
            Action::UnmountApfsVolume(action) => action.fields(),
            Action::WaitForVolume(action) => action.fields(),
        }
    }

    /// Whether the action can be written and read back: its settings hold
    /// each name once.
    pub open spec fn valid(self) -> bool {
        match self {
            Action::CreateDirectory(action) => action.valid(),
            Action::CreateFile(action) => action.valid(),
            Action::CreateGroup(action) => action.valid(),
            Action::CreateOrInsertIntoFile(action) => action.valid(),
            Action::CreateOrMergeNixConfig(action) => action.valid(),
            Action::CreateUser(action) => action.valid(),
            Action::FetchAndUnpackNix(action) => action.valid(),
            Action::MoveUnpackedNix(action) => action.valid(),
            Action::SetupDefaultProfile(action) => action.valid(),
            Action::ConfigureNix(action) => action.valid(),
            Action::ConfigureNixDaemonService(action) => action.valid(),
            Action::ConfigureShellProfile(action) => action.valid(),
            Action::CreateUsersAndGroups(action) => action.valid(),
            Action::PlaceChannelConfiguration(action) => action.valid(),
            Action::PlaceNixConfiguration(action) => action.valid(),
            Action::ProvisionNix(action) => action.valid(),
            Action::CreateSystemdSysext(action) => action.valid(),
            Action::StartSystemdUnit(action) => action.valid(),
            Action::BootstrapLaunchctlService(action) => action.valid(),
            Action::CreateApfsVolume(action) => action.valid(),
            Action::CreateFstabEntry(action) => action.valid(),
            Action::CreateNixVolume(action) => action.valid(),
            Action::CreateSyntheticObjects(action) => action.valid(),
            Action::EnableOwnership(action) => action.valid(),
            Action::EncryptApfsVolume(action) => action.valid(),
            Action::KickstartLaunchctlService(action) => action.valid(),
            Action::UnmountApfsVolume(action) => action.valid(),
            Action::WaitForVolume(action) => action.valid(),
        }
    }

    /// An action is written with as many named values as its kind says.
    pub proof fn lemma_arity(self)
        ensures
            self.fields().len() == self.tag().arity(),
    {
    }

    pub(crate) fn write_fields(&self) -> (entries: Vec<(String, Value)>)
        ensures
            entry_forms(entries@) == self.fields(),
            entries@.len() == self.tag().arity(),
            self.valid(),
    {
        let entries = match self {
            Action::CreateDirectory(action) => action.write_fields(),
            Action::CreateFile(action) => action.write_fields(),
            Action::CreateGroup(action) => action.write_fields(),
            Action::CreateOrInsertIntoFile(action) => action.write_fields(),
            Action::CreateOrMergeNixConfig(action) => action.write_fields(),
            Action::CreateUser(action) => action.write_fields(),
            Action::FetchAndUnpackNix(action) => action.write_fields(),
            Action::MoveUnpackedNix(action) => action.write_fields(),
            Action::SetupDefaultProfile(action) => action.write_fields(),
            Action::ConfigureNix(action) => action.write_fields(),
            Action::ConfigureNixDaemonService(action) => action.write_fields(),
            Action::ConfigureShellProfile(action) => action.write_fields(),
            Action::CreateUsersAndGroups(action) => action.write_fields(),
            Action::PlaceChannelConfiguration(action) => action.write_fields(),
            Action::PlaceNixConfiguration(action) => action.write_fields(),
            Action::ProvisionNix(action) => action.write_fields(),
            Action::CreateSystemdSysext(action) => action.write_fields(),
            Action::StartSystemdUnit(action) => action.write_fields(),
            Action::BootstrapLaunchctlService(action) => action.write_fields(),
            Action::CreateApfsVolume(action) => action.write_fields(),
            Action::CreateFstabEntry(action) => action.write_fields(),
            Action::CreateNixVolume(action) => action.write_fields(),
            Action::CreateSyntheticObjects(action) => action.write_fields(),
            Action::EnableOwnership(action) => action.write_fields(),
            Action::EncryptApfsVolume(action) => action.write_fields(),
            Action::KickstartLaunchctlService(action) => action.write_fields(),
            Action::UnmountApfsVolume(action) => action.write_fields(),
            Action::WaitForVolume(action) => action.write_fields(),
        };
        assert(entry_forms(entries@).len() == entries@.len());
        entries
    }

    pub(crate) fn read_fields(tag: ActionTag, entries: &Vec<(String, Value)>, from: usize) -> (read:
        Option<Action>)
        requires
            from + 8 <= usize::MAX,
        ensures
            match read {
                Some(found) => found.tag() == tag && window(
                    entry_forms(entries@),
                    from as int,
                    tag.arity() as int,
                ) == Some(found.fields()),
                None => forall|any: Action|
                    any.tag() == tag && any.valid() ==> window(
                        entry_forms(entries@),
                        from as int,
                        tag.arity() as int,
                    ) != Some(#[trigger] any.fields()),
            },
    {
        match tag {
            ActionTag::CreateDirectory => read_create_directory(entries, from),
            ActionTag::CreateFile => read_create_file(entries, from),
            ActionTag::CreateGroup => read_create_group(entries, from),
            ActionTag::CreateOrInsertIntoFile => read_create_or_insert_into_file(entries, from),
            ActionTag::CreateOrMergeNixConfig => read_create_or_merge_nix_config(entries, from),
            ActionTag::CreateUser => read_create_user(entries, from),
            ActionTag::FetchAndUnpackNix => read_fetch_and_unpack_nix(entries, from),
            ActionTag::MoveUnpackedNix => read_move_unpacked_nix(entries, from),
            ActionTag::SetupDefaultProfile => read_setup_default_profile(entries, from),
            ActionTag::ConfigureNix => read_configure_nix(entries, from),
            ActionTag::ConfigureNixDaemonService => read_configure_nix_daemon_service(entries, from),
            ActionTag::ConfigureShellProfile => read_configure_shell_profile(entries, from),
            ActionTag::CreateUsersAndGroups => read_create_users_and_groups(entries, from),
            ActionTag::PlaceChannelConfiguration => read_place_channel_configuration(entries, from),
            ActionTag::PlaceNixConfiguration => read_place_nix_configuration(entries, from),
            ActionTag::ProvisionNix => read_provision_nix(entries, from),
            ActionTag::CreateSystemdSysext => read_create_systemd_sysext(entries, from),
            ActionTag::StartSystemdUnit => read_start_systemd_unit(entries, from),
            ActionTag::BootstrapLaunchctlService => read_bootstrap_launchctl_service(entries, from),
            ActionTag::CreateApfsVolume => read_create_apfs_volume(entries, from),
            ActionTag::CreateFstabEntry => read_create_fstab_entry(entries, from),
            ActionTag::CreateNixVolume => read_create_nix_volume(entries, from),
            ActionTag::CreateSyntheticObjects => read_create_synthetic_objects(entries, from),
            ActionTag::EnableOwnership => read_enable_ownership(entries, from),
            ActionTag::EncryptApfsVolume => read_encrypt_apfs_volume(entries, from),
            ActionTag::KickstartLaunchctlService => read_kickstart_launchctl_service(entries, from),
            ActionTag::UnmountApfsVolume => read_unmount_apfs_volume(entries, from),
            ActionTag::WaitForVolume => read_wait_for_volume(entries, from),
        }
    }
}

} // verus!
