//! Inserting text into a file that may exist already.
use vstd::prelude::*;
use crate::action::run::leaf;
use crate::action::{Action, StatefulAction};
use crate::command::{temporary_beside, temporary_sibling, Operation};
use crate::error::PlanningError;
use crate::state::ActionState;
use crate::text::{chars_of, find_chars, first_at, occurs, occurs_at, push_chars};

verus! {

/// Where the text goes in a file that exists already.
#[derive(Debug, PartialEq, Eq)]
pub enum Position {
    /// Before everything else.
    Start,
    /// After everything else.
    End,
    /// Directly beneath the first line that holds the marker; at the end
    /// where no line holds it.
    Beneath(String),
}

/// Create a file with the text, or insert the text into the file that is
/// there, keeping what it holds.
#[derive(Debug, PartialEq, Eq)]
pub struct CreateOrInsertIntoFile {
    pub path: String,
    pub user: Option<String>,
    pub group: Option<String>,
    pub mode: Option<u32>,
    pub buf: String,
    pub position: Position,
}

/// The first place at which `needle` stands in `hay`.
pub open spec fn first_place(hay: Seq<char>, needle: Seq<char>) -> int {
    choose|i: int| first_at(hay, needle, i)
}

/// The place behind the end of the line that holds the place `from`: behind
/// the first line feed at or after `from`, or the end of the text.
pub open spec fn line_end(text: Seq<char>, from: int) -> int
    decreases text.len() - from,
{
    if from < 0 || from >= text.len() {
        text.len() as int
    } else if text[from] == '\n' {
        from + 1
    } else {
        line_end(text, from + 1)
    }
}

/// The place in `existing` at which text is inserted.
pub open spec fn insertion_point(existing: Seq<char>, position: Position) -> int {
    match position {
        Position::Start => 0,
        Position::End => existing.len() as int,
        Position::Beneath(marker) => if occurs(existing, marker@) {
            line_end(existing, first_place(existing, marker@) + marker@.len())
        } else {
            existing.len() as int
        },
    }
}

/// The text `existing` with `buf` inserted at `position`.
pub open spec fn inserted(existing: Seq<char>, buf: Seq<char>, position: Position) -> Seq<char> {
    let at = insertion_point(existing, position);
    existing.take(at) + buf + existing.skip(at)
}

/// The text `current` without the first occurrence of `buf`, if it has one.
pub open spec fn removed(current: Seq<char>, buf: Seq<char>) -> Seq<char> {
    if occurs(current, buf) {
        let at = first_place(current, buf);
        current.take(at) + current.skip(at + buf.len())
    } else {
        current
    }
}

/// The first place of an occurrence is the one place that no occurrence
/// precedes.
pub proof fn lemma_first_place(hay: Seq<char>, needle: Seq<char>, i: int)
    requires
        first_at(hay, needle, i),
    ensures
        occurs(hay, needle),
        first_place(hay, needle) == i,
{
    let c = first_place(hay, needle);
    assert(first_at(hay, needle, c));
    if c < i {
        assert(!occurs_at(hay, needle, c));
    } else if i < c {
        assert(!occurs_at(hay, needle, i));
    }
}

fn end_of_line(text: &Vec<char>, from: usize) -> (end: usize)
    requires
        from <= text@.len(),
    ensures
        end == line_end(text@, from as int),
        from <= end <= text@.len(),
{
    let mut i: usize = from;
    while i < text.len()
        invariant
            from <= i <= text@.len(),
            line_end(text@, from as int) == line_end(text@, i as int),
        decreases text@.len() - i,
    {
        if text[i] == '\n' {
            return i + 1;
        }
        i = i + 1;
    }
    i
}

impl CreateOrInsertIntoFile {
    /// Plans to insert `buf` into the file at `path`, or to create the file
    /// with it.
    pub fn plan(
        path: String,
        user: Option<String>,
        group: Option<String>,
        mode: Option<u32>,
        buf: String,
        position: Position,
    ) -> (plan: Result<StatefulAction, PlanningError>)
        ensures
            plan matches Ok(node) && node@ == leaf(
                Action::CreateOrInsertIntoFile(
                    CreateOrInsertIntoFile { path, user, group, mode, buf, position },
                ),
                ActionState::Uncompleted,
            ),
    {
        Ok(
            StatefulAction::uncompleted(
                Action::CreateOrInsertIntoFile(
                    CreateOrInsertIntoFile { path, user, group, mode, buf, position },
                ),
            ),
        )
    }

    /// The text of the file once the action has been carried out: the text
    /// alone where there was no file, and inserted into what the file held
    /// otherwise.
    pub open spec fn text_after(self, existing: Option<Seq<char>>) -> Seq<char> {
        match existing {
            Some(found) => inserted(found, self.buf@, self.position),
            None => self.buf@,
        }
    }

    /// The text of the file once the action has been carried out.
    pub fn insert_into(&self, existing: Option<&str>) -> (text: String)
        ensures
            text@ == self.text_after(
                match existing {
                    Some(found) => Some(found@),
                    None => None,
                },
            ),
    {
        match existing {
            None => self.buf.clone(),
            Some(found) => {
                let chars = chars_of(found);
                let at: usize = match &self.position {
                    Position::Start => 0,
                    Position::End => chars.len(),
                    Position::Beneath(marker) => {
                        let needle = chars_of(marker.as_str());
                        match find_chars(&chars, &needle) {
                            Some(i) => {
                                proof {
                                    lemma_first_place(chars@, needle@, i as int);
                                }
                                let size = chars.len();
                                assert(i + needle@.len() <= size);
                                end_of_line(&chars, i + needle.len())
                            },
                            None => chars.len(),
                        }
                    },
                };
                let mut text = String::new();
                push_chars(&mut text, &chars, 0, at);
                text.append(self.buf.as_str());
                push_chars(&mut text, &chars, at, chars.len());
                assert(text@ =~= inserted(found@, self.buf@, self.position));
                text
            },
        }
    }

    /// The text `current` without the first occurrence of what the action
    /// inserted.
    pub fn remove_from(&self, current: &str) -> (text: String)
        ensures
            text@ == removed(current@, self.buf@),
    {
        let chars = chars_of(current);
        let needle = chars_of(self.buf.as_str());
        match find_chars(&chars, &needle) {
            Some(i) => {
                proof {
                    lemma_first_place(chars@, needle@, i as int);
                }
                let size = chars.len();
                assert(i + needle@.len() <= size);
                let mut text = String::new();
                push_chars(&mut text, &chars, 0, i);
                push_chars(&mut text, &chars, i + needle.len(), size);
                assert(text@ =~= removed(current@, self.buf@));
                text
            },
            None => {
                let mut text = String::new();
                push_chars(&mut text, &chars, 0, chars.len());
                assert(text@ =~= current@);
                text
            },
        }
    }

    /// Whether `operations` write `text` to the file in one step, by way of
    /// the temporary file with the number `number`.
    pub open spec fn writes(self, operations: Seq<Operation>, text: Seq<char>, number: nat) -> bool {
        &&& operations.len() == 1
        &&& operations[0] matches Operation::WriteFile { path, temporary, contents, mode, user, group }
        &&& path@ == self.path@
        &&& temporary@ == temporary_beside(self.path@, number)
        &&& contents@ == text
        &&& mode == self.mode
        &&& user == self.user
        &&& group == self.group
    }

    fn write(&self, text: String, number: u32) -> (operations: Vec<Operation>)
        ensures
            self.writes(operations@, text@, number as nat),
    {
        let mut operations: Vec<Operation> = Vec::new();
        operations.push(
            Operation::WriteFile {
                path: self.path.clone(),
                temporary: temporary_sibling(self.path.as_str(), number),
                contents: text,
                mode: self.mode,
                user: self.user.clone(),
                group: self.group.clone(),
            },
        );
        operations
    }

    /// What is to be done to carry the action out, given the text that the
    /// file holds, where there is a file: the file is written anew with the
    /// text inserted.
    pub fn execute_operations(&self, existing: Option<&str>, number: u32) -> (operations: Vec<
        Operation,
    >)
        ensures
            self.writes(
                operations@,
                self.text_after(
                    match existing {
                        Some(found) => Some(found@),
                        None => None,
                    },
                ),
                number as nat,
            ),
    {
        let text = self.insert_into(existing);
        self.write(text, number)
    }

    /// What is to be done to undo the action, given the text that the file
    /// holds now: the file is written anew without the first occurrence of
    /// what was inserted. Where the file is gone, nothing is done.
    pub fn revert_operations(&self, current: Option<&str>, number: u32) -> (operations: Vec<
        Operation,
    >)
        ensures
            match current {
                Some(found) => self.writes(operations@, removed(found@, self.buf@), number as nat),
                None => operations@.len() == 0,
            },
    {
        match current {
            Some(found) => {
                let text = self.remove_from(found);
                self.write(text, number)
            },
            None => Vec::new(),
        }
    }
}

/// Text that was put before everything else is taken away again without a
/// trace.
pub proof fn lemma_remove_inserted_at_start(existing: Seq<char>, buf: Seq<char>)
    ensures
        removed(inserted(existing, buf, Position::Start), buf) == existing,
{
    let text = inserted(existing, buf, Position::Start);
    assert(text =~= buf + existing);
    assert(text.subrange(0, buf.len() as int) =~= buf);
    assert(first_at(text, buf, 0));
    lemma_first_place(text, buf, 0);
    assert(text.take(0) + text.skip(buf.len() as int) =~= existing);
}

/// Text that was put after everything else is taken away again without a
/// trace, where it does not occur earlier in the result.
pub proof fn lemma_remove_inserted_at_end(existing: Seq<char>, buf: Seq<char>)
    requires
        forall|j: int| 0 <= j < existing.len() ==> !occurs_at(existing + buf, buf, j),
    ensures
        removed(inserted(existing, buf, Position::End), buf) == existing,
{
    let text = inserted(existing, buf, Position::End);
    let at = existing.len() as int;
    assert(existing.take(at) =~= existing);
    assert(text =~= existing + buf);
    assert(text.subrange(at, at + buf.len()) =~= buf);
    assert(first_at(text, buf, at));
    lemma_first_place(text, buf, at);
    assert(text.take(at) + text.skip(at + buf.len()) =~= existing);
}

} // verus!
