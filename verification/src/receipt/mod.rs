//! Receipts: what is written down of a plan, so that a later run can take
//! it up again or undo it. The library turns plans into values of the
//! receipt's form and back; the program around it writes the values as text.
pub mod actions;
pub mod determined;
pub mod plans;

use vstd::prelude::*;
use crate::nix_config::{distinct_names, plain, NixSettings, Settings};

verus! {

/// A value of a receipt.
#[derive(Debug, PartialEq, Eq)]
pub enum Value {
    Null,
    Bool(bool),
    Number(u64),
    Text(String),
    List(Vec<Value>),
    /// Named values, in the order in which they are written.
    Object(Vec<(String, Value)>),
}

/// A value of a receipt as a plain value.
pub enum Form {
    Null,
    Bool(bool),
    Number(nat),
    Text(Seq<char>),
    List(Seq<Form>),
    Object(Seq<(Seq<char>, Form)>),
}

/// Why a value is no receipt: no plan is written as that value.
#[derive(Debug, PartialEq, Eq)]
pub enum ReceiptError {
    /// The value does not have the form of a receipt; the text names the
    /// part that does not fit.
    Malformed(String),
}

/// The values of a list as plain values.
pub open spec fn forms(items: Seq<Value>) -> Seq<Form> {
    Seq::new(items.len(), |i: int| items[i]@)
}

/// Named values as plain values.
pub open spec fn entry_forms(entries: Seq<(String, Value)>) -> Seq<(Seq<char>, Form)> {
    Seq::new(entries.len(), |i: int| (entries[i].0@, entries[i].1@))
}

impl Value {
    /// The value as a plain value.
    pub open spec fn view(&self) -> Form
        decreases self,
    {
        match self {
            Value::Null => Form::Null,
            Value::Bool(on) => Form::Bool(*on),
            Value::Number(n) => Form::Number(*n as nat),
            Value::Text(text) => Form::Text(text@),
            Value::List(items) => Form::List(
                Seq::new(
                    items@.len(),
                    |i: int|
                        if 0 <= i < items@.len() {
                            items@[i].view()
                        } else {
                            arbitrary()
                        },
                ),
            ),
            Value::Object(entries) => Form::Object(
                Seq::new(
                    entries@.len(),
                    |i: int|
                        if 0 <= i < entries@.len() {
                            (entries@[i].0@, entries@[i].1.view())
                        } else {
                            arbitrary()
                        },
                ),
            ),
        }
    }

    /// A value is written as a plain value of its own kind.
    pub proof fn lemma_kind(value: Value)
        ensures
            value is Null <==> value@ is Null,
            value is Bool <==> value@ is Bool,
            value is Number <==> value@ is Number,
            value is Text <==> value@ is Text,
            value is List <==> value@ is List,
            value is Object <==> value@ is Object,
    {
    }

    /// A list is written as the list of what its items are written as.
    pub proof fn lemma_list(items: Vec<Value>)
        ensures
            Value::List(items)@ == Form::List(forms(items@)),
    {
        assert(Value::List(items)@->List_0 =~= forms(items@));
    }

    /// An object is written as what its named values are written as.
    pub proof fn lemma_object(entries: Vec<(String, Value)>)
        ensures
            Value::Object(entries)@ == Form::Object(entry_forms(entries@)),
    {
        assert(Value::Object(entries)@->Object_0 =~= entry_forms(entries@));
    }
}

/// How a text is written.
pub open spec fn text_form(text: String) -> Form {
    Form::Text(text@)
}

/// How a number is written.
pub open spec fn number_form(n: u32) -> Form {
    Form::Number(n as nat)
}

/// How a large number is written.
pub open spec fn long_form(n: u64) -> Form {
    Form::Number(n as nat)
}

/// How a switch is written.
pub open spec fn flag_form(on: bool) -> Form {
    Form::Bool(on)
}

/// How a text that may be absent is written.
pub open spec fn optional_form(text: Option<String>) -> Form {
    match text {
        Some(found) => Form::Text(found@),
        None => Form::Null,
    }
}

/// How a number that may be absent is written.
pub open spec fn optional_number_form(n: Option<u32>) -> Form {
    match n {
        Some(found) => Form::Number(found as nat),
        None => Form::Null,
    }
}

/// How texts are written.
pub open spec fn texts_form(texts: Vec<String>) -> Form {
    Form::List(Seq::new(texts@.len(), |i: int| Form::Text(texts@[i]@)))
}

/// How pairs of texts are written: each as a list of two.
pub open spec fn pairs_form(pairs: Settings) -> Form {
    Form::List(
        Seq::new(pairs.len(), |i: int| Form::List(seq![Form::Text(pairs[i].0), Form::Text(pairs[i].1)])),
    )
}

/// How settings are written.
pub open spec fn settings_form(settings: NixSettings) -> Form {
    pairs_form(settings@)
}

/// How settings that may be absent are written.
pub open spec fn optional_settings_form(settings: Option<NixSettings>) -> Form {
    match settings {
        Some(found) => pairs_form(found@),
        None => Form::Null,
    }
}

/// Writes a text.
pub fn write_text(text: &String) -> (value: Value)
    ensures
        value@ == text_form(*text),
{
    Value::Text(text.clone())
}

/// Reads a text.
pub fn read_text(value: &Value) -> (text: Option<String>)
    ensures
        match text {
            Some(found) => value@ == text_form(found),
            None => forall|any: String| value@ != text_form(any),
        },
{
    match value {
        Value::Text(text) => Some(text.clone()),
        _ => None,
    }
}

/// Writes a number.
pub fn write_number(n: u32) -> (value: Value)
    ensures
        value@ == number_form(n),
{
    Value::Number(n as u64)
}

/// Reads a number.
pub fn read_number(value: &Value) -> (n: Option<u32>)
    ensures
        match n {
            Some(found) => value@ == number_form(found),
            None => forall|any: u32| value@ != number_form(any),
        },
{
    match value {
        Value::Number(n) => {
            if *n <= 0xffff_ffffu64 {
                Some(*n as u32)
            } else {
                None
            }
        },
        _ => None,
    }
}

/// Writes a large number.
pub fn write_long(n: u64) -> (value: Value)
    ensures
        value@ == long_form(n),
{
    Value::Number(n)
}

/// Reads a large number.
pub fn read_long(value: &Value) -> (n: Option<u64>)
    ensures
        match n {
            Some(found) => value@ == long_form(found),
            None => forall|any: u64| value@ != long_form(any),
        },
{
    match value {
        Value::Number(n) => Some(*n),
        _ => None,
    }
}

/// Writes a switch.
pub fn write_flag(on: bool) -> (value: Value)
    ensures
        value@ == flag_form(on),
{
    Value::Bool(on)
}

/// Reads a switch.
pub fn read_flag(value: &Value) -> (on: Option<bool>)
    ensures
        match on {
            Some(found) => value@ == flag_form(found),
            None => forall|any: bool| value@ != flag_form(any),
        },
{
    match value {
        Value::Bool(on) => Some(*on),
        _ => None,
    }
}

/// Writes a text that may be absent.
pub fn write_optional(text: &Option<String>) -> (value: Value)
    ensures
        value@ == optional_form(*text),
{
    match text {
        Some(found) => Value::Text(found.clone()),
        None => Value::Null,
    }
}

/// Reads a text that may be absent.
pub fn read_optional(value: &Value) -> (text: Option<Option<String>>)
    ensures
        match text {
            Some(found) => value@ == optional_form(found),
            None => forall|any: Option<String>| value@ != optional_form(any),
        },
{
    match value {
        Value::Text(text) => Some(Some(text.clone())),
        Value::Null => Some(None),
        _ => None,
    }
}

/// Writes a number that may be absent.
pub fn write_optional_number(n: &Option<u32>) -> (value: Value)
    ensures
        value@ == optional_number_form(*n),
{
    match n {
        Some(found) => Value::Number(*found as u64),
        None => Value::Null,
    }
}

/// Reads a number that may be absent.
pub fn read_optional_number(value: &Value) -> (n: Option<Option<u32>>)
    ensures
        match n {
            Some(found) => value@ == optional_number_form(found),
            None => forall|any: Option<u32>| value@ != optional_number_form(any),
        },
{
    match value {
        Value::Number(n) => {
            if *n <= 0xffff_ffffu64 {
                Some(Some(*n as u32))
            } else {
                None
            }
        },
        Value::Null => Some(None),
        _ => None,
    }
}

/// Writes texts.
pub fn write_texts(texts: &Vec<String>) -> (value: Value)
    ensures
        value@ == texts_form(*texts),
{
    let mut items: Vec<Value> = Vec::new();
    let mut i: usize = 0;
    while i < texts.len()
        invariant
            i <= texts@.len(),
            items@.len() == i,
            forall|k: int| 0 <= k < i ==> (#[trigger] items@[k])@ == Form::Text(texts@[k]@),
        decreases texts@.len() - i,
    {
        items.push(Value::Text(texts[i].clone()));
        i = i + 1;
    }
    proof {
        Value::lemma_list(items);
        assert(forms(items@) =~= texts_form(*texts)->List_0);
    }
    Value::List(items)
}

/// Reads texts.
pub fn read_texts(value: &Value) -> (texts: Option<Vec<String>>)
    ensures
        match texts {
            Some(found) => value@ == texts_form(found),
            None => forall|any: Vec<String>| value@ != texts_form(any),
        },
{
    match value {
        Value::List(items) => {
            proof {
                Value::lemma_list(*items);
            }
            let mut texts: Vec<String> = Vec::new();
            let mut i: usize = 0;
            while i < items.len()
                invariant
                    i <= items@.len(),
                    value@ == Form::List(forms(items@)),
                    texts@.len() == i,
                    forall|k: int| 0 <= k < i ==> (#[trigger] items@[k])@ == Form::Text(texts@[k]@),
                decreases items@.len() - i,
            {
                match &items[i] {
                    Value::Text(text) => {
                        texts.push(text.clone());
                    },
                    _ => {
                        assert forall|any: Vec<String>| value@ != texts_form(any) by {
                            if value@ == texts_form(any) {
                                let wanted = texts_form(any)->List_0;
                                assert(wanted.len() == items@.len());
                                assert(forms(items@)[i as int] == wanted[i as int]);
                                assert(wanted[i as int] is Text);
                                Value::lemma_kind(items@[i as int]);
                            }
                        }
                        return None;
                    },
                }
                i = i + 1;
            }
            assert(forms(items@) =~= texts_form(texts)->List_0);
            Some(texts)
        },
        _ => None,
    }
}

/// Writes pairs of texts.
pub fn write_pairs(config: &NixSettings) -> (value: Value)
    ensures
        value@ == settings_form(*config),
        distinct_names(config@),
{
    let mut items: Vec<Value> = Vec::new();
    let count = config.len();
    let mut i: usize = 0;
    while i < count
        invariant
            i <= count,
            count == config@.len(),
            items@.len() == i,
            forall|k: int|
                0 <= k < i ==> (#[trigger] items@[k])@ == Form::List(
                    seq![Form::Text(config@[k].0), Form::Text(config@[k].1)],
                ),
        decreases count - i,
    {
        let (name, value) = config.get_index(i).unwrap();
        let mut pair: Vec<Value> = Vec::new();
        pair.push(Value::Text(name.clone()));
        pair.push(Value::Text(value.clone()));
        proof {
            Value::lemma_list(pair);
            assert(forms(pair@) =~= seq![Form::Text(config@[i as int].0), Form::Text(config@[i as int].1)]);
        }
        items.push(Value::List(pair));
        i = i + 1;
    }
    proof {
        Value::lemma_list(items);
        assert(forms(items@) =~= settings_form(*config)->List_0);
    }
    Value::List(items)
}

/// Reads pairs of texts.
pub fn read_names(value: &Value) -> (pairs: Option<Vec<(String, String)>>)
    ensures
        match pairs {
            Some(found) => value@ == pairs_form(plain(found@)),
            None => forall|any: Settings| value@ != pairs_form(any),
        },
{
    match value {
        Value::List(items) => {
            proof {
                Value::lemma_list(*items);
            }
            let mut pairs: Vec<(String, String)> = Vec::new();
            let mut i: usize = 0;
            while i < items.len()
                invariant
                    i <= items@.len(),
                    value@ == Form::List(forms(items@)),
                    pairs@.len() == i,
                    forall|k: int|
                        0 <= k < i ==> (#[trigger] items@[k])@ == Form::List(
                            seq![Form::Text(plain(pairs@)[k].0), Form::Text(plain(pairs@)[k].1)],
                        ),
                decreases items@.len() - i,
            {
                let ghost before = plain(pairs@);
                let mut read: Option<(String, String)> = None;
                match &items[i] {
                    Value::List(pair) => {
                        proof {
                            Value::lemma_list(*pair);
                        }
                        if pair.len() == 2 {
                            match (&pair[0], &pair[1]) {
                                (Value::Text(name), Value::Text(text)) => {
                                    read = Some((name.clone(), text.clone()));
                                    assert(forms(pair@) =~= seq![Form::Text(name@), Form::Text(text@)]);
                                },
                                _ => {},
                            }
                        }
                    },
                    _ => {},
                }
                match read {
                    Some(pair) => {
                        pairs.push(pair);
                        assert forall|k: int| 0 <= k < i + 1 implies (#[trigger] items@[k])@ == Form::List(
                            seq![Form::Text(plain(pairs@)[k].0), Form::Text(plain(pairs@)[k].1)],
                        ) by {
                            if k < i {
                                assert(plain(pairs@)[k] == before[k]);
                            }
                        }
                    },
                    None => {
                        assert forall|any: Settings| value@ != pairs_form(any) by {
                            if value@ == pairs_form(any) {
                                assert(pairs_form(any)->List_0.len() == items@.len());
                                let wanted = pairs_form(any)->List_0[i as int];
                                assert(forms(items@)[i as int] == wanted);
                                Value::lemma_kind(items@[i as int]);
                                assert(wanted->List_0.len() == 2);
                                assert(wanted->List_0[0] is Text);
                                assert(wanted->List_0[1] is Text);
                                match items@[i as int] {
                                    Value::List(pair) => {
                                        Value::lemma_list(pair);
                                        assert(forms(pair@).len() == 2);
                                        assert(forms(pair@)[0] == wanted->List_0[0]);
                                        assert(forms(pair@)[1] == wanted->List_0[1]);
                                        Value::lemma_kind(pair@[0]);
                                        Value::lemma_kind(pair@[1]);
                                    },
                                    _ => {},
                                }
                            }
                        }
                        return None;
                    },
                }
                i = i + 1;
            }
            assert(forms(items@) =~= pairs_form(plain(pairs@))->List_0);
            Some(pairs)
        },
        _ => None,
    }
}

/// Reads settings. Pairs in which a name occurs twice are no settings.
pub fn read_settings(value: &Value) -> (settings: Option<NixSettings>)
    ensures
        match settings {
            Some(found) => value@ == settings_form(found),
            None => forall|any: NixSettings| distinct_names(any@) ==> value@ != settings_form(any),
        },
{
    match read_names(value) {
        Some(pairs) => {
            let ghost wanted = plain(pairs@);
            match NixSettings::from_distinct_pairs(pairs) {
                Some(config) => Some(config),
                None => {
                    assert forall|any: NixSettings| distinct_names(any@) implies value@ != settings_form(
                        any,
                    ) by {
                        if value@ == settings_form(any) {
                            lemma_pairs_form_injective(any@, wanted);
                        }
                    }
                    None
                },
            }
        },
        None => None,
    }
}

/// Pairs that are written the same are the same.
pub proof fn lemma_pairs_form_injective(a: Settings, b: Settings)
    requires
        pairs_form(a) == pairs_form(b),
    ensures
        a == b,
{
    let x = pairs_form(a)->List_0;
    let y = pairs_form(b)->List_0;
    assert(x.len() == a.len());
    assert(y.len() == b.len());
    assert forall|i: int| 0 <= i < a.len() implies a[i] == b[i] by {
        assert(x[i] == y[i]);
        assert(x[i]->List_0[0] == Form::Text(a[i].0));
        assert(y[i]->List_0[0] == Form::Text(b[i].0));
        assert(x[i]->List_0[1] == Form::Text(a[i].1));
        assert(y[i]->List_0[1] == Form::Text(b[i].1));
    }
    assert(a =~= b);
}

/// Writes settings that may be absent.
pub fn write_optional_settings(settings: &Option<NixSettings>) -> (value: Value)
    ensures
        value@ == optional_settings_form(*settings),
        settings matches Some(found) ==> distinct_names(found@),
{
    match settings {
        Some(found) => write_pairs(found),
        None => Value::Null,
    }
}

/// Reads settings that may be absent.
pub fn read_optional_settings(value: &Value) -> (settings: Option<Option<NixSettings>>)
    ensures
        match settings {
            Some(found) => value@ == optional_settings_form(found),
            None => forall|any: Option<NixSettings>|
                (any matches Some(config) ==> distinct_names(config@)) ==> value@
                    != optional_settings_form(any),
        },
{
    match value {
        Value::Null => Some(None),
        _ => match read_settings(value) {
            Some(found) => Some(Some(found)),
            None => {
                assert forall|any: Option<NixSettings>|
                    (any matches Some(config) ==> distinct_names(config@)) implies value@
                    != optional_settings_form(any) by {
                    match any {
                        Some(config) => {
                            assert(value@ != settings_form(config));
                        },
                        None => {},
                    }
                }
                None
            },
        },
    }
}

/// The named value at place `i`, if it bears the name `key`.
pub fn entry<'a>(entries: &'a Vec<(String, Value)>, i: usize, key: &str) -> (value: Option<&'a Value>)
    ensures
        match value {
            Some(found) => i < entries@.len() && entries@[i as int].0@ == key@ && *found
                == entries@[i as int].1,
            None => !(i < entries@.len() && entries@[i as int].0@ == key@),
        },
{
    if i < entries.len() {
        let named = &entries[i];
        if crate::text::text_is(&named.0, key) {
            Some(&named.1)
        } else {
            None
        }
    } else {
        None
    }
}

} // verus!
