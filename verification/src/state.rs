use vstd::prelude::*;

use crate::history::HistoryEntry;
use crate::text::{
    drop_last_word, join_with_spaces, join_words, string_pop, string_push, views_of,
    without_last_word,
};

verus! {

/// How many entries one query asks for.
pub const RESULT_LIMIT: usize = 200;

/// The state of an interactive search: the query typed so far, the entries
/// that match it (the most recent first) and which of them is selected.
pub struct State {
    pub input: String,
    pub results: Vec<HistoryEntry>,
    pub selected: Option<usize>,
}

/// What to ask the history for the current query.
pub enum QueryRequest {
    /// The latest `max` commands, each command once (`unique`).
    List { max: usize, unique: bool },
    /// At most `limit` entries that match `query`.
    Search { limit: i64, query: String },
}

/// A key, as far as the search tells keys apart.
#[derive(Clone, Copy, Debug, PartialEq, Eq)]
pub enum KeyCode {
    Esc,
    Enter,
    Up,
    Down,
    Backspace,
    Char(char),
    Other,
}

/// A key press: the key and whether Control and Alt were held.
#[derive(Clone, Copy, Debug, PartialEq, Eq)]
pub struct KeyInput {
    pub code: KeyCode,
    pub control: bool,
    pub alt: bool,
}

/// What a key press asks for.
#[derive(Clone, Copy, Debug, PartialEq, Eq)]
pub enum KeyAction {
    /// Leave without choosing anything.
    Cancel,
    /// Choose the selected entry (the first when none is selected).
    Accept,
    /// Move the selection towards the first entry.
    SelectDown,
    /// Move the selection towards the last entry.
    SelectUp,
    /// Choose the entry this many places after the selected one.
    AcceptAbove(usize),
    /// Delete the last character of the query.
    DeleteChar,
    /// Delete the last word of the query.
    DeleteWord,
    /// Clear the query.
    ClearInput,
    /// Add a character to the query.
    InsertChar(char),
    /// Nothing.
    Ignore,
}

/// What the search does after a key press.
pub enum KeyOutcome {
    /// The search ends with this text as the chosen command (empty when
    /// nothing was chosen).
    Finish(String),
    /// The query changed: the history must be asked again (see
    /// [`State::query_request`]) and the answer handed to
    /// [`State::set_results`].
    Requery,
    /// The search goes on.
    Continue,
}

/// What a key press asks for: Escape, and Control with `c`, `d` or `g`,
/// cancel; Enter accepts; Down and Control-`n` move down; Up and Control-`p`
/// move up; Alt with a digit from 1 to 9 accepts that many places above the
/// selection; Backspace deletes a character, Alt-Backspace (sent as DEL) a
/// word; Control-`u` clears the query; any other character is typed.
pub open spec fn key_action(k: KeyInput) -> KeyAction {
    match k.code {
        KeyCode::Esc => KeyAction::Cancel,
        KeyCode::Enter => KeyAction::Accept,
        KeyCode::Down => KeyAction::SelectDown,
        KeyCode::Up => KeyAction::SelectUp,
        KeyCode::Backspace => KeyAction::DeleteChar,
        KeyCode::Char(c) => {
            if k.control && (c == 'c' || c == 'd' || c == 'g') {
                KeyAction::Cancel
            } else if k.control && c == 'n' {
                KeyAction::SelectDown
            } else if k.control && c == 'p' {
                KeyAction::SelectUp
            } else if k.alt && '1' <= c && c <= '9' {
                KeyAction::AcceptAbove((c as int - '0' as int) as usize)
            } else if k.alt && c == '\u{7f}' {
                KeyAction::DeleteWord
            } else if k.control && c == 'u' {
                KeyAction::ClearInput
            } else {
                KeyAction::InsertChar(c)
            }
        },
        KeyCode::Other => KeyAction::Ignore,
    }
}

/// What a key press asks for.
pub fn classify_key(k: &KeyInput) -> (a: KeyAction)
    ensures
        a == key_action(*k),
{
    match k.code {
        KeyCode::Esc => KeyAction::Cancel,
        KeyCode::Enter => KeyAction::Accept,
        KeyCode::Down => KeyAction::SelectDown,
        KeyCode::Up => KeyAction::SelectUp,
        KeyCode::Backspace => KeyAction::DeleteChar,
        KeyCode::Char(c) => {
            if k.control && (c == 'c' || c == 'd' || c == 'g') {
                KeyAction::Cancel
            } else if k.control && c == 'n' {
                KeyAction::SelectDown
            } else if k.control && c == 'p' {
                KeyAction::SelectUp
            } else if k.alt && '1' <= c && c <= '9' {
                KeyAction::AcceptAbove((c as u32 - '0' as u32) as usize)
            } else if k.alt && c == '\u{7f}' {
                KeyAction::DeleteWord
            } else if k.control && c == 'u' {
                KeyAction::ClearInput
            } else {
                KeyAction::InsertChar(c)
            }
        },
        KeyCode::Other => KeyAction::Ignore,
    }
}

/// The selection after moving down: one place towards the first entry,
/// staying on it; the first entry when nothing was selected.
pub open spec fn moved_down(selected: Option<usize>) -> Option<usize> {
    match selected {
        Some(i) => Some(
            if i > 0 {
                (i - 1) as usize
            } else {
                0
            },
        ),
        None => Some(0),
    }
}

/// The selection after moving up among `len` entries: one place towards the
/// last entry, staying on it; the first entry when nothing was selected.
pub open spec fn moved_up(selected: Option<usize>, len: nat) -> Option<usize> {
    match selected {
        Some(i) => Some(
            if i + 1 < len - 1 {
                (i + 1) as usize
            } else {
                (len - 1) as usize
            },
        ),
        None => Some(0),
    }
}

/// Moving up is defined: with a selection there is an entry to move to, and
/// the next index exists.
pub open spec fn can_move_up(selected: Option<usize>, len: nat) -> bool {
    selected matches Some(i) ==> (i < usize::MAX && len >= 1)
}

/// The selection after new results came in: the first entry, or nothing when
/// there are none.
pub open spec fn selection_for(len: nat) -> Option<usize> {
    if len == 0 {
        None
    } else {
        Some(0)
    }
}

/// What choosing entry `i` gives: its command, or the query itself when
/// there is no such entry.
pub open spec fn chosen_text(st: State, i: int) -> Seq<char> {
    if 0 <= i < st.results@.len() {
        st.results@[i].command@
    } else {
        st.input@
    }
}

/// The selection stays within the results (the first index may be selected
/// while there are none).
pub open spec fn selection_in_range(st: State) -> bool {
    st.selected matches Some(i) ==> (i == 0 || i < st.results@.len())
}

/// A key press is defined: moving up needs `can_move_up`, and choosing an
/// entry above the selection needs its index to exist.
pub open spec fn key_defined(st: State, k: KeyInput) -> bool {
    &&& (key_action(k) is SelectUp ==> can_move_up(st.selected, st.results@.len()))
    &&& (key_action(k) matches KeyAction::AcceptAbove(d) ==> (st.selected matches Some(s) ==> s
        + d <= usize::MAX))
}

/// What a key press does: how the state `old` becomes `new`, and the
/// outcome `r`.
pub open spec fn key_effect(old: State, new: State, k: KeyInput, r: KeyOutcome) -> bool {
    match key_action(k) {
        KeyAction::Cancel => r matches KeyOutcome::Finish(s) && s@.len() == 0 && new == old,
        KeyAction::Accept => r matches KeyOutcome::Finish(s) && s@ == chosen_text(
            old,
            match old.selected {
                Some(i) => i as int,
                None => 0,
            },
        ) && new == old,
        KeyAction::SelectDown => r is Continue && new.input == old.input && new.results
            == old.results && new.selected == moved_down(old.selected),
        KeyAction::SelectUp => r is Continue && new.input == old.input && new.results
            == old.results && new.selected == moved_up(old.selected, old.results@.len()),
        KeyAction::AcceptAbove(d) => match old.selected {
            Some(s) => r matches KeyOutcome::Finish(t) && t@ == chosen_text(old, s + d) && new
                == old,
            None => r is Continue && new == old,
        },
        KeyAction::DeleteChar => r is Requery && new.input@ == (if old.input@.len() == 0 {
            old.input@
        } else {
            old.input@.drop_last()
        }) && new.results == old.results && new.selected == old.selected,
        KeyAction::DeleteWord => r is Requery && new.input@ == without_last_word(old.input@)
            && new.results == old.results && new.selected == old.selected,
        KeyAction::ClearInput => r is Requery && new.input@.len() == 0 && new.results
            == old.results && new.selected == old.selected,
        KeyAction::InsertChar(c) => r is Requery && new.input@ == old.input@.push(c)
            && new.results == old.results && new.selected == old.selected,
        KeyAction::Ignore => r is Continue && new == old,
    }
}

impl State {
    /// A search that starts from the given words, joined with spaces, with
    /// no results yet.
    pub fn new(query: &Vec<String>) -> (st: State)
        ensures
            st.input@ == join_words(views_of(query@)),
            st.results@.len() == 0,
            st.selected is None,
    {
        State { input: join_with_spaces(query), results: Vec::new(), selected: None }
    }

    /// Moves the selection one place towards the first entry.
    pub fn down(&mut self)
        ensures
            final(self).selected == moved_down(old(self).selected),
            final(self).input == old(self).input,
            final(self).results == old(self).results,
    {
        let i = match self.selected {
            Some(i) => i.saturating_sub(1),
            None => 0,
        };
        self.selected = Some(i);
    }

    /// Moves the selection one place towards the last entry.
    pub fn up(&mut self)
        requires
            can_move_up(old(self).selected, old(self).results@.len()),
        ensures
            final(self).selected == moved_up(old(self).selected, old(self).results@.len()),
            final(self).input == old(self).input,
            final(self).results == old(self).results,
    {
        let i = match self.selected {
            Some(i) => {
                let last = self.results.len() - 1;
                if i + 1 < last {
                    i + 1
                } else {
                    last
                }
            },
            None => 0,
        };
        self.selected = Some(i);
    }

    /// What to ask the history for: the latest commands when the query is
    /// empty, else the entries matching it.
    pub fn query_request(&self) -> (q: QueryRequest)
        ensures
            self.input@.len() == 0 ==> (q matches QueryRequest::List { max, unique } && max
                == RESULT_LIMIT && unique),
            self.input@.len() != 0 ==> (q matches QueryRequest::Search { limit, query } && limit
                == RESULT_LIMIT && query@ == self.input@),
    {
        if self.input.as_str().is_empty() {
            QueryRequest::List { max: RESULT_LIMIT, unique: true }
        } else {
            QueryRequest::Search { limit: RESULT_LIMIT as i64, query: self.input.clone() }
        }
    }

    /// Takes the entries the history gave for the query, and selects the
    /// first.
    pub fn set_results(&mut self, results: Vec<HistoryEntry>)
        ensures
            final(self).results@ == results@,
            final(self).input == old(self).input,
            final(self).selected == selection_for(results@.len()),
    {
        self.results = results;
        if self.results.len() == 0 {
            self.selected = None;
        } else {
            self.selected = Some(0);
        }
    }

    /// The text that choosing entry `i` gives.
    fn chosen(&self, i: usize) -> (r: String)
        ensures
            r@ == chosen_text(*self, i as int),
    {
        if i < self.results.len() {
            self.results[i].command.clone()
        } else {
            self.input.clone()
        }
    }

    /// Handles a key press (see [`key_action`] for what each key asks for).
    pub fn handle_key(&mut self, key: &KeyInput) -> (r: KeyOutcome)
        requires
            key_defined(*old(self), *key),
        ensures
            key_effect(*old(self), *final(self), *key, r),
    {
        match classify_key(key) {
            KeyAction::Cancel => KeyOutcome::Finish(String::new()),
            KeyAction::Accept => {
                let i = match self.selected {
                    Some(i) => i,
                    None => 0,
                };
                KeyOutcome::Finish(self.chosen(i))
            },
            KeyAction::SelectDown => {
                self.down();
                KeyOutcome::Continue
            },
            KeyAction::SelectUp => {
                self.up();
                KeyOutcome::Continue
            },
            KeyAction::AcceptAbove(d) => match self.selected {
                Some(s) => KeyOutcome::Finish(self.chosen(s + d)),
                None => KeyOutcome::Continue,
            },
            KeyAction::DeleteChar => {
                let _ = string_pop(&mut self.input);
                KeyOutcome::Requery
            },
            KeyAction::DeleteWord => {
                self.input = drop_last_word(self.input.as_str());
                KeyOutcome::Requery
            },
            KeyAction::ClearInput => {
                self.input = String::new();
                KeyOutcome::Requery
            },
            KeyAction::InsertChar(c) => {
                string_push(&mut self.input, c);
                KeyOutcome::Requery
            },
            KeyAction::Ignore => KeyOutcome::Continue,
        }
    }
}

} // verus!
