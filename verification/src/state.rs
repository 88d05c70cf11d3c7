//! The state of a session: the three panes and which of them has the focus.

use vstd::prelude::*;
use crate::input::{InputModel, InputState};
use crate::search::{filter_notes, first_index, Note, NoteView, SearchState};

verus! {

/// The pane that receives key input.
#[derive(Clone, Copy, Debug, PartialEq, Eq, Structural)]
pub enum Focus {
    Search,
    Input,
    History,
}

/// The whole session state. `all_history` is what storage last returned,
/// newest first; `history` is what the query lets through of it;
/// `history_index` is the selected entry of `history`.
pub struct TuiState {
    pub search: SearchState,
    pub input: InputState,
    pub history: Vec<Note>,
    pub all_history: Vec<Note>,
    pub focus: Focus,
    pub history_index: Option<usize>,
}

/// The session state as a mathematical value.
pub struct TuiModel {
    pub search: Seq<char>,
    pub input: InputModel,
    pub history: Seq<NoteView>,
    pub all_history: Seq<NoteView>,
    pub focus: Focus,
    pub history_index: Option<nat>,
}

/// Where Tab leads from each pane: the input and the history pane swap, and
/// the search pane gives way to the history pane.
pub open spec fn next_focus(focus: Focus) -> Focus {
    match focus {
        Focus::Search => Focus::History,
        Focus::History => Focus::Input,
        Focus::Input => Focus::History,
    }
}

impl TuiModel {
    /// The session invariant: the shown history is the filtered full history,
    /// an entry is selected exactly when there is one to select, and the
    /// draft is within its bounds.
    pub open spec fn wf(self) -> bool {
        &&& self.history == filter_notes(self.search, self.all_history)
        &&& match self.history_index {
            Some(i) => i < self.history.len(),
            None => self.history.len() == 0,
        }
        &&& self.input.wf()
    }

    /// The filter applied afresh; the selection goes back to the first entry.
    pub open spec fn apply_search(self) -> TuiModel {
        let history = filter_notes(self.search, self.all_history);
        TuiModel { history, history_index: first_index(history), ..self }
    }

    /// A session that starts with the given history: nothing typed, nothing
    /// searched, the focus on the input pane.
    pub open spec fn initial(history: Seq<NoteView>) -> TuiModel {
        TuiModel {
            search: Seq::empty(),
            input: InputModel::cleared(),
            history: history,
            all_history: history,
            focus: Focus::Input,
            history_index: first_index(history),
        }
    }

    /// The focus moved on by Tab.
    pub open spec fn toggle_focus(self) -> TuiModel {
        TuiModel { focus: next_focus(self.focus), ..self }
    }

    /// The search pane entered with an empty query.
    pub open spec fn activate_search(self) -> TuiModel {
        TuiModel { focus: Focus::Search, search: Seq::empty(), ..self }.apply_search()
    }

    /// The full history replaced by what storage returned.
    pub open spec fn set_history(self, history: Seq<NoteView>) -> TuiModel {
        TuiModel { all_history: history, ..self }.apply_search()
    }

    /// The selection one entry up, stopping at the first; with nothing
    /// selected, the first entry if there is one.
    pub open spec fn select_up(self) -> TuiModel {
        match self.history_index {
            None => TuiModel { history_index: first_index(self.history), ..self },
            Some(i) => if i > 0 {
                TuiModel { history_index: Some((i - 1) as nat), ..self }
            } else {
                self
            },
        }
    }

    /// The selection one entry down, stopping at the last; with nothing
    /// selected, the first entry if there is one.
    pub open spec fn select_down(self) -> TuiModel {
        match self.history_index {
            None => TuiModel { history_index: first_index(self.history), ..self },
            Some(i) => if i + 1 < self.history.len() {
                TuiModel { history_index: Some(i + 1), ..self }
            } else {
                self
            },
        }
    }

    /// Whether the search pane is shown: while it has the focus or holds a
    /// query.
    pub open spec fn is_search_visible(self) -> bool {
        self.focus == Focus::Search || self.search.len() > 0
    }
}

impl View for TuiState {
    type V = TuiModel;

    open spec fn view(&self) -> TuiModel {
        TuiModel {
            search: self.search@,
            input: self.input@,
            history: self.history.deep_view(),
            all_history: self.all_history.deep_view(),
            focus: self.focus,
            history_index: match self.history_index {
                Some(i) => Some(i as nat),
                None => None,
            },
        }
    }
}

impl TuiState {
    /// A session over the given history, newest note first.
    pub fn new(history: Vec<Note>) -> (state: Self)
        ensures
            state@ == TuiModel::initial(history.deep_view()),
            state@.wf(),
    {
        let mut state = TuiState {
            search: SearchState::new(),
            input: InputState::new(),
            history: Vec::new(),
            all_history: history,
            focus: Focus::Input,
            history_index: None,
        };
        state.apply_search();
        state
    }

    /// Moves the focus as Tab does.
    pub fn toggle_focus(&mut self)
        ensures
            final(self)@ == old(self)@.toggle_focus(),
            old(self)@.wf() ==> final(self)@.wf(),
    {
        self.focus = match self.focus {
            Focus::Search => Focus::History,
            Focus::History => Focus::Input,
            Focus::Input => Focus::History,
        };
    }

    /// Enters the search pane with an empty query.
    pub fn activate_search(&mut self)
        ensures
            final(self)@ == old(self)@.activate_search(),
            old(self)@.input.wf() ==> final(self)@.wf(),
    {
        self.focus = Focus::Search;
        self.search.clear();
        self.apply_search();
    }

    /// Replaces the full history and filters it afresh.
    pub fn set_history(&mut self, history: Vec<Note>)
        ensures
            final(self)@ == old(self)@.set_history(history.deep_view()),
            old(self)@.input.wf() ==> final(self)@.wf(),
    {
        self.all_history = history;
        self.apply_search();
    }

    /// Filters the full history by the query and selects the first entry of
    /// what is left.
    pub fn apply_search(&mut self)
        ensures
            final(self)@ == old(self)@.apply_search(),
            final(self)@.history_index == first_index(final(self)@.history),
            old(self)@.input.wf() ==> final(self)@.wf(),
    {
        self.history = self.search.apply(&self.all_history);
        self.history_index = self.first_history_index();
    }

    /// Moves the selection one entry up.
    pub fn move_history_selection_up(&mut self)
        ensures
            final(self)@ == old(self)@.select_up(),
            old(self)@.wf() ==> final(self)@.wf(),
    {
        match self.history_index {
            None => {
                self.history_index = self.first_history_index();
            },
            Some(current) => {
                if current > 0 {
                    self.history_index = Some(current - 1);
                }
            },
        }
    }

    /// Moves the selection one entry down.
    pub fn move_history_selection_down(&mut self)
        ensures
            final(self)@ == old(self)@.select_down(),
            old(self)@.wf() ==> final(self)@.wf(),
    {
        match self.history_index {
            None => {
                self.history_index = self.first_history_index();
            },
            Some(current) => {
                let len: usize = self.history.len();
                if len > 0 && current < len - 1 {
                    self.history_index = Some(current + 1);
                }
            },
        }
    }

    /// Whether the search pane is to be shown.
    pub fn is_search_visible(&self) -> (visible: bool)
        ensures
            visible == self@.is_search_visible(),
    {
        self.focus == Focus::Search || !self.search.query.as_str().is_empty()
    }

    /// The index of the first shown entry, none where nothing is shown.
    pub fn first_history_index(&self) -> (first: Option<usize>)
        ensures
            first == if self.history.len() == 0 {
                None
            } else {
                Some(0usize)
            },
    {
        if self.history.len() == 0 {
            None
        } else {
            Some(0)
        }
    }
}

} // verus!
