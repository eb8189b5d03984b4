//! The life cycle of an action and the direction in which a plan is driven.
use vstd::prelude::*;
use crate::text::text_is;

verus! {

/// Where an action stands between "not done" and "done".
///
/// Forward work takes an action from `Uncompleted` through `Progress` to
/// `Completed`; reversal takes it back the same way. A failure leaves it in
/// `Progress`.
#[derive(Clone, Copy, PartialEq, Eq, Structural, Debug)]
pub enum ActionState {
    Uncompleted,
    Progress,
    Completed,
}

/// Whether a plan is being carried out or undone.
#[derive(Clone, Copy, PartialEq, Eq, Structural, Debug)]
pub enum Direction {
    Forward,
    Reverse,
}

impl Direction {
    /// The state in which an action needs no more work in this direction.
    pub open spec fn goal(self) -> ActionState {
        match self {
            Direction::Forward => ActionState::Completed,
            Direction::Reverse => ActionState::Uncompleted,
        }
    }

    /// The state in which an action needs no more work in this direction.
    pub fn goal_state(self) -> (state: ActionState)
        ensures
            state == self.goal(),
    {
        match self {
            Direction::Forward => ActionState::Completed,
            Direction::Reverse => ActionState::Uncompleted,
        }
    }
}

impl ActionState {
    /// The word that stands for this state in a receipt.
    pub open spec fn word(self) -> Seq<char> {
        match self {
            ActionState::Uncompleted => "Uncompleted"@,
            ActionState::Progress => "Progress"@,
            ActionState::Completed => "Completed"@,
        }
    }

    /// The state that a receipt word stands for, if it is one of the three.
    pub open spec fn of_word(word: Seq<char>) -> Option<ActionState> {
        if word == "Uncompleted"@ {
            Some(ActionState::Uncompleted)
        } else if word == "Progress"@ {
            Some(ActionState::Progress)
        } else if word == "Completed"@ {
            Some(ActionState::Completed)
        } else {
            None
        }
    }

    /// The word that stands for this state in a receipt.
    pub fn name(&self) -> (word: &'static str)
        ensures
            word@ == self.word(),
    {
        match self {
            ActionState::Uncompleted => "Uncompleted",
            ActionState::Progress => "Progress",
            ActionState::Completed => "Completed",
        }
    }

    /// Reads a state back from its receipt word.
    pub fn from_name(word: &String) -> (state: Option<ActionState>)
        ensures
            state == Self::of_word(word@),
    {
        if text_is(word, "Uncompleted") {
            Some(ActionState::Uncompleted)
        } else if text_is(word, "Progress") {
            Some(ActionState::Progress)
        } else if text_is(word, "Completed") {
            Some(ActionState::Completed)
        } else {
            None
        }
    }

    /// A word stands for the state that is written as that word.
    pub proof fn lemma_word_unique(word: Seq<char>, state: ActionState)
        requires
            Self::of_word(word) == Some(state),
        ensures
            state.word() == word,
    {
    }

    /// Writing a state as its word and reading the word back gives the state.
    pub proof fn lemma_word_round_trip(state: ActionState)
        ensures
            Self::of_word(state.word()) == Some(state),
    {
        reveal_strlit("Uncompleted");
        reveal_strlit("Progress");
        reveal_strlit("Completed");
        assert("Uncompleted"@.len() == 11);
        assert("Progress"@.len() == 8);
        assert("Completed"@.len() == 9);
    }
}

} // verus!
