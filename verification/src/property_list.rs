//! Reading single values out of a property list, as `diskutil info -plist`
//! writes it.
use vstd::prelude::*;

verus! {

/// A value of a property list that the installer reads.
#[derive(Debug, PartialEq, Eq)]
pub enum Entry {
    Boolean(bool),
    Text(String),
}

/// A value of a property list as a plain value.
pub enum EntryView {
    Boolean(bool),
    Text(Seq<char>),
}

impl Entry {
    /// The value as a plain value.
    pub open spec fn view(&self) -> EntryView {
        match self {
            Entry::Boolean(on) => EntryView::Boolean(*on),
            Entry::Text(text) => EntryView::Text(text@),
        }
    }
}

/// What `plist` finds under `key` in the property list `bytes`: the boolean
/// or the string there, or nothing where the bytes are no property list,
/// the list is no dictionary, or the dictionary holds neither of the two
/// under `key`.
pub uninterp spec fn plist_entry(bytes: Seq<u8>, key: Seq<char>) -> Option<EntryView>;

/// Reads `bytes` with `plist::Value::from_reader` and hands out the boolean
/// or the string that the dictionary holds under `key`, if all of that is
/// there.
#[verifier::external_body]
pub(crate) fn read_entry(bytes: &Vec<u8>, key: &str) -> (found: Option<Entry>)
    ensures
        match found {
            Some(entry) => plist_entry(bytes@, key@) == Some(entry@),
            None => plist_entry(bytes@, key@) is None,
        },
{
    let value = plist::Value::from_reader(std::io::Cursor::new(bytes.as_slice())).ok()?;
    match value.as_dictionary()?.get(key)? {
        plist::Value::Boolean(on) => Some(Entry::Boolean(*on)),
        plist::Value::String(text) => Some(Entry::Text(text.clone())),
        _ => None,
    }
}

} // verus!
