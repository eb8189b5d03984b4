//! How plans are written: each action with its kind, its state, its own
//! named values and its children; the planner with its kind and settings;
//! the plan with the installer's version, the planner and the actions.
use vstd::prelude::*;
use crate::action::{lemma_tag_round_trip, Action, ActionTag, StatefulAction};
use crate::plan::InstallPlan;
use crate::planner::{BuiltinPlanner, DarwinMulti, LinuxMulti, PlannerTag, SteamDeck};
use crate::receipt::actions::window;
use crate::receipt::{
    entry, entry_forms, flag_form, forms, optional_form, read_flag, read_optional, read_text, text_form,
    write_flag, write_optional, write_text, Form, ReceiptError, Value,
};
use crate::settings::CommonSettings;
use crate::state::ActionState;

verus! {

/// How the children of an action are written.
pub open spec fn receipts(children: Seq<StatefulAction>) -> Seq<Form>
    decreases children,
{
    Seq::new(
        children.len(),
        |i: int|
            if 0 <= i < children.len() {
                children[i].receipt()
            } else {
                arbitrary()
            },
    )
}

/// Whether each of the actions can be written and read back.
pub open spec fn all_well_formed(children: Seq<StatefulAction>) -> bool
    decreases children,
{
    forall|i: int| 0 <= i < children.len() ==> (#[trigger] children[i]).well_formed()
}

/// Whether none of the actions, nor any of their children, bears a mark of
/// failure.
pub open spec fn all_unmarked(children: Seq<StatefulAction>) -> bool
    decreases children,
{
    forall|i: int| 0 <= i < children.len() ==> (#[trigger] children[i]).unmarked()
}

/// The failure that names `part` as the part of a value that does not fit.
fn malformed(part: &str) -> (error: ReceiptError)
    ensures
        error matches ReceiptError::Malformed(named) && named@ == part@,
{
    ReceiptError::Malformed(String::from_str(part))
}

impl StatefulAction {
    /// The named values by which the action is written: its kind, its
    /// state, its own values, and its children.
    pub open spec fn entries(self) -> Seq<(Seq<char>, Form)>
        decreases self, 0int,
    {
        seq![
            ("action"@, Form::Text(self.action.tag().word())),
            ("state"@, Form::Text(self.state.word())),
        ] + self.action.fields() + seq![("children"@, Form::List(receipts(self.children@)))]
    }

    /// How the action is written.
    pub open spec fn receipt(self) -> Form
        decreases self, 1int,
    {
        Form::Object(self.entries())
    }

    /// Whether the action can be written and read back: the settings that
    /// it and its children hold name each setting once.
    pub open spec fn well_formed(self) -> bool
        decreases self,
    {
        self.action.valid() && all_well_formed(self.children@)
    }

    /// Whether neither the action nor any of its children bears a mark of
    /// failure.
    pub open spec fn unmarked(self) -> bool
        decreases self,
    {
        self.failure is None && all_unmarked(self.children@)
    }

    /// The places of the named values of an action.
    pub proof fn lemma_entries(self)
        ensures
            self.entries().len() == self.action.fields().len() + 3,
            self.entries()[0] == ("action"@, Form::Text(self.action.tag().word())),
            self.entries()[1] == ("state"@, Form::Text(self.state.word())),
            window(self.entries(), 2, self.action.fields().len() as int) == Some(self.action.fields()),
            self.entries()[self.entries().len() - 1] == (
                "children"@,
                Form::List(receipts(self.children@)),
            ),
    {
        let count = self.action.fields().len() as int;
        assert(self.entries().subrange(2, 2 + count) =~= self.action.fields());
    }

    /// Writes the action as a value of a receipt.
    pub fn to_receipt(&self) -> (value: Value)
        ensures
            value@ == self.receipt(),
            self.well_formed(),
        decreases self,
    {
        let mut entries: Vec<(String, Value)> = Vec::new();
        entries.push((String::from_str("action"), Value::Text(String::from_str(self.action.kind().name()))));
        entries.push((String::from_str("state"), Value::Text(String::from_str(self.state.name()))));
        let mut own = self.action.write_fields();
        let ghost head = entry_forms(entries@);
        let ghost fields = entry_forms(own@);
        entries.append(&mut own);
        assert(entry_forms(entries@) =~= head + fields);
        let mut items: Vec<Value> = Vec::new();
        let mut i: usize = 0;
        while i < self.children.len()
            invariant
                i <= self.children@.len(),
                items@.len() == i,
                forall|k: int| 0 <= k < i ==> (#[trigger] items@[k])@ == self.children@[k].receipt(),
                forall|k: int| 0 <= k < i ==> (#[trigger] self.children@[k]).well_formed(),
            decreases self.children@.len() - i,
        {
            items.push(self.children[i].to_receipt());
            i = i + 1;
        }
        proof {
            Value::lemma_list(items);
            assert(forms(items@) =~= receipts(self.children@));
        }
        entries.push((String::from_str("children"), Value::List(items)));
        proof {
            Value::lemma_object(entries);
            assert(entry_forms(entries@) =~= self.entries());
        }
        Value::Object(entries)
    }

    /// Reads an action from a value of a receipt. The value is read only
    /// where an action whose settings are in order is written as that
    /// value. What is read bears no mark of failure, nor do its children.
    pub fn from_receipt(value: &Value) -> (read: Result<StatefulAction, ReceiptError>)
        ensures
            match read {
                Ok(found) => found.receipt() == value@ && found.unmarked(),
                Err(_) => forall|any: StatefulAction|
                    any.well_formed() ==> #[trigger] any.receipt() != value@,
            },
        decreases value,
    {
        let entries = match value {
            Value::Object(entries) => entries,
            _ => {
                proof {
                    Value::lemma_kind(*value);
                }
                return Err(malformed("action"));
            },
        };
        proof {
            Value::lemma_object(*entries);
        }
        let ghost all = entry_forms(entries@);
        let count = entries.len();
        let tag = match entry(entries, 0, "action") {
            Some(Value::Text(word)) => match ActionTag::from_name(word) {
                Some(tag) => tag,
                None => {
                    assert forall|any: StatefulAction| any.well_formed() implies #[trigger] any.receipt()
                        != value@ by {
                        if any.receipt() == value@ {
                            any.lemma_entries();
                            lemma_tag_round_trip(any.action.tag());
                            assert(all[0] == any.entries()[0]);
                        }
                    }
                    return Err(malformed("action"));
                },
            },
            _ => {
                assert forall|any: StatefulAction| any.well_formed() implies #[trigger] any.receipt()
                    != value@ by {
                    if any.receipt() == value@ {
                        any.lemma_entries();
                        assert(all[0] == any.entries()[0]);
                        Value::lemma_kind(entries@[0].1);
                    }
                }
                return Err(malformed("action"));
            },
        };
        let ghost tag_word = entries@[0].1@->Text_0;
        assert(ActionTag::of_word(tag_word) == Some(tag));
        let state = match entry(entries, 1, "state") {
            Some(Value::Text(word)) => match ActionState::from_name(word) {
                Some(state) => state,
                None => {
                    assert forall|any: StatefulAction| any.well_formed() implies #[trigger] any.receipt()
                        != value@ by {
                        if any.receipt() == value@ {
                            any.lemma_entries();
                            ActionState::lemma_word_round_trip(any.state);
                            assert(all[1] == any.entries()[1]);
                        }
                    }
                    return Err(malformed("state"));
                },
            },
            _ => {
                assert forall|any: StatefulAction| any.well_formed() implies #[trigger] any.receipt()
                    != value@ by {
                    if any.receipt() == value@ {
                        any.lemma_entries();
                        assert(all[1] == any.entries()[1]);
                        Value::lemma_kind(entries@[1].1);
                    }
                }
                return Err(malformed("state"));
            },
        };
        let ghost state_word = entries@[1].1@->Text_0;
        assert(ActionState::of_word(state_word) == Some(state));
        let arity = tag.field_count();
        if count != arity + 3 {
            assert forall|any: StatefulAction| any.well_formed() implies #[trigger] any.receipt()
                != value@ by {
                if any.receipt() == value@ {
                    any.lemma_entries();
                    lemma_tag_round_trip(any.action.tag());
                    assert(all[0] == any.entries()[0]);
                    any.action.lemma_arity();
                }
            }
            return Err(malformed("fields"));
        }
        let action = match Action::read_fields(tag, entries, 2) {
            Some(action) => action,
            None => {
                assert forall|any: StatefulAction| any.well_formed() implies #[trigger] any.receipt()
                    != value@ by {
                    if any.receipt() == value@ {
                        any.lemma_entries();
                        lemma_tag_round_trip(any.action.tag());
                        assert(all[0] == any.entries()[0]);
                        any.action.lemma_arity();
                        assert(window(all, 2, tag.arity() as int) != Some(any.action.fields()));
                    }
                }
                return Err(malformed("fields"));
            },
        };
        let items = match entry(entries, count - 1, "children") {
            Some(Value::List(items)) => items,
            _ => {
                assert forall|any: StatefulAction| any.well_formed() implies #[trigger] any.receipt()
                    != value@ by {
                    if any.receipt() == value@ {
                        any.lemma_entries();
                        assert(all[count - 1] == any.entries()[count - 1]);
                        Value::lemma_kind(entries@[count - 1].1);
                    }
                }
                return Err(malformed("children"));
            },
        };
        proof {
            Value::lemma_list(*items);
        }
        let mut children: Vec<StatefulAction> = Vec::new();
        let mut i: usize = 0;
        while i < items.len()
            invariant
                i <= items@.len(),
                children@.len() == i,
                value@ == Form::Object(all),
                all == entry_forms(entries@),
                count == entries@.len(),
                count >= 3,
                all[count - 1] == ("children"@, Form::List(forms(items@))),
                *value == Value::Object(*entries),
                entries@[count - 1].1 == Value::List(*items),
                forall|k: int| 0 <= k < i ==> (#[trigger] children@[k]).receipt() == items@[k]@,
                forall|k: int| 0 <= k < i ==> (#[trigger] children@[k]).unmarked(),
            decreases items@.len() - i,
        {
            match Self::from_receipt(&items[i]) {
                Ok(child) => {
                    children.push(child);
                },
                Err(error) => {
                    assert forall|any: StatefulAction| any.well_formed() implies #[trigger] any.receipt()
                        != value@ by {
                        if any.receipt() == value@ {
                            any.lemma_entries();
                            assert(all[count - 1] == any.entries()[count - 1]);
                            let wanted = receipts(any.children@);
                            assert(wanted == forms(items@));
                            assert(wanted.len() == any.children@.len());
                            assert(forms(items@).len() == items@.len());
                            assert(wanted[i as int] == any.children@[i as int].receipt());
                            assert(any.children@[i as int].well_formed());
                            assert(forms(items@)[i as int] == items@[i as int]@);
                        }
                    }
                    return Err(error);
                },
            }
            i = i + 1;
        }
        let found = StatefulAction { action, state, children, failure: None };
        proof {
            found.lemma_entries();
            found.action.lemma_arity();
            assert(receipts(found.children@) =~= forms(items@));
            ActionTag::lemma_word_unique(tag_word, tag);
            ActionState::lemma_word_unique(state_word, state);
            assert forall|k: int| 0 <= k < count implies all[k] == found.entries()[k] by {
                if 2 <= k < count - 1 {
                    assert(all.subrange(2, 2 + arity)[k - 2] == all[k]);
                    assert(found.entries().subrange(2, 2 + arity)[k - 2] == found.entries()[k]);
                }
            }
            assert(all =~= found.entries());
        }
        Ok(found)
    }
}

impl CommonSettings {
    /// How the settings are written.
    pub open spec fn receipt(self) -> Form {
        Form::Object(self.fields())
    }

    /// Writes the settings as a value of a receipt.
    pub fn to_receipt(&self) -> (value: Value)
        ensures
            value@ == self.receipt(),
    {
        let entries = self.write_fields();
        proof {
            Value::lemma_object(entries);
        }
        Value::Object(entries)
    }

    /// Reads settings from a value of a receipt. The value is read only
    /// where settings are written as that value.
    pub fn from_receipt(value: &Value) -> (read: Result<CommonSettings, ReceiptError>)
        ensures
            match read {
                Ok(found) => found.receipt() == value@,
                Err(_) => forall|any: CommonSettings| #[trigger] any.receipt() != value@,
            },
    {
        match value {
            Value::Object(entries) => {
                proof {
                    Value::lemma_object(*entries);
                }
                let ghost all = entry_forms(entries@);
                if entries.len() != 12 {
                    assert forall|any: CommonSettings| #[trigger] any.receipt() != value@ by {
                        assert(any.fields().len() == 12);
                    }
                    return Err(malformed("settings"));
                }
                match CommonSettings::read_fields(entries, 0) {
                    Some(found) => {
                        assert(all.subrange(0, 12) =~= all);
                        Ok(found)
                    },
                    None => {
                        assert forall|any: CommonSettings| #[trigger] any.receipt() != value@ by {
                            if any.receipt() == value@ {
                                assert(all.subrange(0, 12) =~= all);
                                assert(window(all, 0, 12) == Some(any.fields()));
                            }
                        }
                        Err(malformed("settings"))
                    },
                }
            },
            _ => {
                proof {
                    Value::lemma_kind(*value);
                }
                Err(malformed("settings"))
            },
        }
    }
}

impl BuiltinPlanner {
    /// The named values by which the planner is written: its kind, its
    /// settings, and what else it holds.
    pub open spec fn entries(self) -> Seq<(Seq<char>, Form)> {
        match self {
            BuiltinPlanner::LinuxMulti(planner) => seq![
                ("planner"@, Form::Text(PlannerTag::LinuxMulti.word())),
                ("settings"@, planner.settings.receipt()),
            ],
            BuiltinPlanner::SteamDeck(planner) => seq![
                ("planner"@, Form::Text(PlannerTag::SteamDeck.word())),
                ("settings"@, planner.settings.receipt()),
            ],
            BuiltinPlanner::DarwinMulti(planner) => seq![
                ("planner"@, Form::Text(PlannerTag::DarwinMulti.word())),
                ("settings"@, planner.settings.receipt()),
                ("volume_encrypt"@, flag_form(planner.volume_encrypt)),
                ("volume_label"@, text_form(planner.volume_label)),
                ("root_disk"@, optional_form(planner.root_disk)),
            ],
        }
    }

    /// How the planner is written.
    pub open spec fn receipt(self) -> Form {
        Form::Object(self.entries())
    }

    /// Writes the planner as a value of a receipt.
    pub fn to_receipt(&self) -> (value: Value)
        ensures
            value@ == self.receipt(),
    {
        let mut entries: Vec<(String, Value)> = Vec::new();
        entries.push((String::from_str("planner"), Value::Text(String::from_str(self.kind().name()))));
        match self {
            BuiltinPlanner::LinuxMulti(planner) => {
                entries.push((String::from_str("settings"), planner.settings.to_receipt()));
            },
            BuiltinPlanner::SteamDeck(planner) => {
                entries.push((String::from_str("settings"), planner.settings.to_receipt()));
            },
            BuiltinPlanner::DarwinMulti(planner) => {
                entries.push((String::from_str("settings"), planner.settings.to_receipt()));
                entries.push((String::from_str("volume_encrypt"), write_flag(planner.volume_encrypt)));
                entries.push((String::from_str("volume_label"), write_text(&planner.volume_label)));
                entries.push((String::from_str("root_disk"), write_optional(&planner.root_disk)));
            },
        }
        proof {
            Value::lemma_object(entries);
            assert(entry_forms(entries@) =~= self.entries());
        }
        Value::Object(entries)
    }

    /// The places of the named values of a planner.
    pub proof fn lemma_entries(self)
        ensures
            self.entries().len() == (if self is DarwinMulti {
                5int
            } else {
                2int
            }),
            self.entries()[0] == ("planner"@, Form::Text(self.tag().word())),
            self.entries()[1].0 == "settings"@,
    {
    }

    fn read_head(entries: &Vec<(String, Value)>) -> (head: Option<(PlannerTag, CommonSettings)>)
        ensures
            match head {
                Some((tag, settings)) => {
                    &&& entries@.len() >= 2
                    &&& entry_forms(entries@)[0] == ("planner"@, Form::Text(tag.word()))
                    &&& entry_forms(entries@)[1] == ("settings"@, settings.receipt())
                },
                None => forall|any: BuiltinPlanner| #[trigger] any.entries() != entry_forms(entries@),
            },
    {
        let ghost all = entry_forms(entries@);
        let tag = match entry(entries, 0, "planner") {
            Some(Value::Text(word)) => match PlannerTag::from_name(word) {
                Some(tag) => {
                    proof {
                        PlannerTag::lemma_word_unique(word@, tag);
                    }
                    tag
                },
                None => {
                    assert forall|any: BuiltinPlanner| #[trigger] any.entries() != all by {
                        if any.entries() == all {
                            any.lemma_entries();
                            PlannerTag::lemma_word_round_trip(any.tag());
                            assert(all[0] == any.entries()[0]);
                        }
                    }
                    return None;
                },
            },
            _ => {
                assert forall|any: BuiltinPlanner| #[trigger] any.entries() != all by {
                    if any.entries() == all {
                        any.lemma_entries();
                        assert(all[0] == any.entries()[0]);
                        Value::lemma_kind(entries@[0].1);
                    }
                }
                return None;
            },
        };
        match entry(entries, 1, "settings") {
            Some(found) => match CommonSettings::from_receipt(found) {
                Ok(settings) => Some((tag, settings)),
                Err(_) => {
                    assert forall|any: BuiltinPlanner| #[trigger] any.entries() != all by {
                        if any.entries() == all {
                            any.lemma_entries();
                            assert(all[1] == any.entries()[1]);
                            match any {
                                BuiltinPlanner::LinuxMulti(planner) => {
                                    assert(planner.settings.receipt() != found@);
                                },
                                BuiltinPlanner::SteamDeck(planner) => {
                                    assert(planner.settings.receipt() != found@);
                                },
                                BuiltinPlanner::DarwinMulti(planner) => {
                                    assert(planner.settings.receipt() != found@);
                                },
                            }
                        }
                    }
                    None
                },
            },
            None => {
                assert forall|any: BuiltinPlanner| #[trigger] any.entries() != all by {
                    if any.entries() == all {
                        any.lemma_entries();
                        assert(all[1] == any.entries()[1]);
                    }
                }
                None
            },
        }
    }

    fn read_volume(entries: &Vec<(String, Value)>) -> (volume: Option<(bool, String, Option<String>)>)
        ensures
            match volume {
                Some((encrypt, label, disk)) => {
                    &&& entries@.len() == 5
                    &&& entry_forms(entries@)[2] == ("volume_encrypt"@, flag_form(encrypt))
                    &&& entry_forms(entries@)[3] == ("volume_label"@, text_form(label))
                    &&& entry_forms(entries@)[4] == ("root_disk"@, optional_form(disk))
                },
                None => forall|any: DarwinMulti|
                    #[trigger] BuiltinPlanner::DarwinMulti(any).entries() != entry_forms(entries@),
            },
    {
        let ghost all = entry_forms(entries@);
        if entries.len() != 5 {
            assert forall|any: DarwinMulti|
                #[trigger] BuiltinPlanner::DarwinMulti(any).entries() != all by {
                BuiltinPlanner::DarwinMulti(any).lemma_entries();
            }
            return None;
        }
        let volume_encrypt = match entry(entries, 2, "volume_encrypt") {
            Some(found) => read_flag(found),
            None => None,
        };
        let volume_label = match entry(entries, 3, "volume_label") {
            Some(found) => read_text(found),
            None => None,
        };
        let root_disk = match entry(entries, 4, "root_disk") {
            Some(found) => read_optional(found),
            None => None,
        };
        match (volume_encrypt, volume_label, root_disk) {
            (Some(volume_encrypt), Some(volume_label), Some(root_disk)) => Some(
                (volume_encrypt, volume_label, root_disk),
            ),
            _ => {
                assert forall|any: DarwinMulti|
                    #[trigger] BuiltinPlanner::DarwinMulti(any).entries() != all by {
                    let wanted = BuiltinPlanner::DarwinMulti(any).entries();
                    if wanted == all {
                        assert(all[2] == wanted[2]);
                        assert(all[3] == wanted[3]);
                        assert(all[4] == wanted[4]);
                        assert(entries@[2].1@ == flag_form(any.volume_encrypt));
                        assert(entries@[3].1@ == text_form(any.volume_label));
                        assert(entries@[4].1@ == optional_form(any.root_disk));
                    }
                }
                None
            },
        }
    }

    /// Reads a planner from a value of a receipt. The value is read only
    /// where a planner is written as that value.
    pub fn from_receipt(value: &Value) -> (read: Result<BuiltinPlanner, ReceiptError>)
        ensures
            match read {
                Ok(found) => found.receipt() == value@,
                Err(_) => forall|any: BuiltinPlanner| #[trigger] any.receipt() != value@,
            },
    {
        let entries = match value {
            Value::Object(entries) => entries,
            _ => {
                proof {
                    Value::lemma_kind(*value);
                }
                return Err(malformed("planner"));
            },
        };
        proof {
            Value::lemma_object(*entries);
        }
        let ghost all = entry_forms(entries@);
        let (tag, settings) = match Self::read_head(entries) {
            Some(head) => head,
            None => {
                assert forall|any: BuiltinPlanner| #[trigger] any.receipt() != value@ by {
                    assert(any.entries() != all);
                }
                return Err(malformed("planner"));
            },
        };
        match tag {
            PlannerTag::LinuxMulti => {
                if entries.len() != 2 {
                    assert forall|any: BuiltinPlanner| #[trigger] any.receipt() != value@ by {
                        if any.receipt() == value@ {
                            any.lemma_entries();
                            PlannerTag::lemma_word_round_trip(any.tag());
                            PlannerTag::lemma_word_round_trip(tag);
                            assert(all[0] == any.entries()[0]);
                        }
                    }
                    return Err(malformed("planner"));
                }
                let found = BuiltinPlanner::LinuxMulti(LinuxMulti { settings });
                assert(all =~= found.entries());
                Ok(found)
            },
            PlannerTag::SteamDeck => {
                if entries.len() != 2 {
                    assert forall|any: BuiltinPlanner| #[trigger] any.receipt() != value@ by {
                        if any.receipt() == value@ {
                            any.lemma_entries();
                            PlannerTag::lemma_word_round_trip(any.tag());
                            PlannerTag::lemma_word_round_trip(tag);
                            assert(all[0] == any.entries()[0]);
                        }
                    }
                    return Err(malformed("planner"));
                }
                let found = BuiltinPlanner::SteamDeck(SteamDeck { settings });
                assert(all =~= found.entries());
                Ok(found)
            },
            PlannerTag::DarwinMulti => match Self::read_volume(entries) {
                Some((volume_encrypt, volume_label, root_disk)) => {
                    let found = BuiltinPlanner::DarwinMulti(
                        DarwinMulti { settings, volume_encrypt, volume_label, root_disk },
                    );
                    assert(all =~= found.entries());
                    Ok(found)
                },
                None => {
                    assert forall|any: BuiltinPlanner| #[trigger] any.receipt() != value@ by {
                        if any.receipt() == value@ {
                            any.lemma_entries();
                            PlannerTag::lemma_word_round_trip(any.tag());
                            PlannerTag::lemma_word_round_trip(tag);
                            assert(all[0] == any.entries()[0]);
                            let planner = any->DarwinMulti_0;
                            assert(BuiltinPlanner::DarwinMulti(planner).entries() != all);
                        }
                    }
                    Err(malformed("planner"))
                },
            },
        }
    }
}

impl InstallPlan {
    /// The named values by which the plan is written: the version of the
    /// installer, the planner, and the actions in their order.
    pub open spec fn entries(self) -> Seq<(Seq<char>, Form)> {
        seq![
            ("version"@, Form::Text(self.version@)),
            ("planner"@, self.planner.receipt()),
            ("actions"@, Form::List(receipts(self.actions@))),
        ]
    }

    /// How the plan is written.
    pub open spec fn receipt(self) -> Form {
        Form::Object(self.entries())
    }

    /// Whether the plan can be written and read back: the settings that its
    /// actions hold name each setting once.
    pub open spec fn well_formed(self) -> bool {
        all_well_formed(self.actions@)
    }

    /// Writes the plan as a value of a receipt.
    pub fn to_receipt(&self) -> (value: Value)
        ensures
            value@ == self.receipt(),
            self.well_formed(),
    {
        let mut items: Vec<Value> = Vec::new();
        let mut i: usize = 0;
        while i < self.actions.len()
            invariant
                i <= self.actions@.len(),
                items@.len() == i,
                forall|k: int| 0 <= k < i ==> (#[trigger] items@[k])@ == self.actions@[k].receipt(),
                forall|k: int| 0 <= k < i ==> (#[trigger] self.actions@[k]).well_formed(),
            decreases self.actions@.len() - i,
        {
            items.push(self.actions[i].to_receipt());
            i = i + 1;
        }
        let mut entries: Vec<(String, Value)> = Vec::new();
        entries.push((String::from_str("version"), Value::Text(self.version.clone())));
        entries.push((String::from_str("planner"), self.planner.to_receipt()));
        proof {
            Value::lemma_list(items);
            assert(forms(items@) =~= receipts(self.actions@));
        }
        entries.push((String::from_str("actions"), Value::List(items)));
        proof {
            Value::lemma_object(entries);
            assert(entry_forms(entries@) =~= self.entries());
        }
        Value::Object(entries)
    }

    /// Reads a plan from a value of a receipt. The value is read only where
    /// a plan whose settings are in order is written as that value. No
    /// action that is read bears a mark of failure.
    pub fn from_receipt(value: &Value) -> (read: Result<InstallPlan, ReceiptError>)
        ensures
            match read {
                Ok(found) => found.receipt() == value@ && all_unmarked(found.actions@),
                Err(_) => forall|any: InstallPlan| any.well_formed() ==> #[trigger] any.receipt() != value@,
            },
    {
        let entries = match value {
            Value::Object(entries) => entries,
            _ => {
                proof {
                    Value::lemma_kind(*value);
                }
                return Err(malformed("plan"));
            },
        };
        proof {
            Value::lemma_object(*entries);
        }
        let ghost all = entry_forms(entries@);
        if entries.len() != 3 {
            assert forall|any: InstallPlan| any.well_formed() implies #[trigger] any.receipt() != value@ by {
                assert(any.entries().len() == 3);
            }
            return Err(malformed("plan"));
        }
        let version = match entry(entries, 0, "version") {
            Some(Value::Text(version)) => version.clone(),
            _ => {
                assert forall|any: InstallPlan| any.well_formed() implies #[trigger] any.receipt()
                    != value@ by {
                    if any.receipt() == value@ {
                        assert(all[0] == any.entries()[0]);
                        Value::lemma_kind(entries@[0].1);
                    }
                }
                return Err(malformed("version"));
            },
        };
        let planner = match entry(entries, 1, "planner") {
            Some(found) => match BuiltinPlanner::from_receipt(found) {
                Ok(planner) => planner,
                Err(error) => {
                    assert forall|any: InstallPlan| any.well_formed() implies #[trigger] any.receipt()
                        != value@ by {
                        if any.receipt() == value@ {
                            assert(all[1] == any.entries()[1]);
                            assert(any.planner.receipt() != found@);
                        }
                    }
                    return Err(error);
                },
            },
            None => {
                assert forall|any: InstallPlan| any.well_formed() implies #[trigger] any.receipt()
                    != value@ by {
                    if any.receipt() == value@ {
                        assert(all[1] == any.entries()[1]);
                    }
                }
                return Err(malformed("planner"));
            },
        };
        let items = match entry(entries, 2, "actions") {
            Some(Value::List(items)) => items,
            _ => {
                assert forall|any: InstallPlan| any.well_formed() implies #[trigger] any.receipt()
                    != value@ by {
                    if any.receipt() == value@ {
                        assert(all[2] == any.entries()[2]);
                        Value::lemma_kind(entries@[2].1);
                    }
                }
                return Err(malformed("actions"));
            },
        };
        proof {
            Value::lemma_list(*items);
        }
        let mut actions: Vec<StatefulAction> = Vec::new();
        let mut i: usize = 0;
        while i < items.len()
            invariant
                i <= items@.len(),
                actions@.len() == i,
                value@ == Form::Object(all),
                all.len() == 3,
                all[2] == ("actions"@, Form::List(forms(items@))),
                forall|k: int| 0 <= k < i ==> (#[trigger] actions@[k]).receipt() == items@[k]@,
                forall|k: int| 0 <= k < i ==> (#[trigger] actions@[k]).unmarked(),
            decreases items@.len() - i,
        {
            match StatefulAction::from_receipt(&items[i]) {
                Ok(action) => {
                    actions.push(action);
                },
                Err(error) => {
                    assert forall|any: InstallPlan| any.well_formed() implies #[trigger] any.receipt()
                        != value@ by {
                        if any.receipt() == value@ {
                            assert(all[2] == any.entries()[2]);
                            let wanted = receipts(any.actions@);
                            assert(wanted == forms(items@));
                            assert(wanted.len() == any.actions@.len());
                            assert(forms(items@).len() == items@.len());
                            assert(wanted[i as int] == any.actions@[i as int].receipt());
                            assert(any.actions@[i as int].well_formed());
                            assert(forms(items@)[i as int] == items@[i as int]@);
                        }
                    }
                    return Err(error);
                },
            }
            i = i + 1;
        }
        let found = InstallPlan { version, planner, actions };
        proof {
            assert(receipts(found.actions@) =~= forms(items@));
            assert(all =~= found.entries());
        }
        Ok(found)
    }

    /// A copy of the plan, made by writing the plan as a receipt and
    /// reading the receipt back.
    ///
    /// Reading back what was written never fails, and gives a plan that is
    /// written exactly as the plan was: with the same version and planner,
    /// and the same actions in the same order, each with its state, its
    /// settings and its children. The copy bears no mark of failure.
    pub fn duplicate(&self) -> (copy: Result<InstallPlan, ReceiptError>)
        ensures
            copy matches Ok(found) && found.receipt() == self.receipt() && all_unmarked(
                found.actions@,
            ),
    {
        let written = self.to_receipt();
        InstallPlan::from_receipt(&written)
    }
}

} // verus!
