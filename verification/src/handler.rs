//! From key events to actions, and from actions to the next session state.
//!
//! The session never touches storage. Where a submission is due, applying the
//! action leaves the state as it is and reports the text to store; the caller
//! stores it and hands back what storage answered, one event at a time.

use vstd::prelude::*;
use crate::input::InputModel;
use crate::keys::{KeyCode, KeyEvent, KeyEventKind, KeyModifiers, CONTROL};
use crate::search::{Note, NoteView};
use crate::state::{Focus, TuiModel, TuiState};

verus! {

/// What a key means to the session.
#[derive(Clone, Copy, Debug, PartialEq, Eq, Structural)]
pub enum Action {
    Quit,
    ToggleFocus,
    ActivateSearch,
    SubmitInput,
    InsertNewline,
    MoveUp,
    MoveDown,
    MoveLeft,
    MoveRight,
    Backspace,
    Delete,
    InsertChar(char),
}

/// What the session loop is to do once an event has been handled.
#[derive(Debug)]
pub enum Effect {
    /// Nothing but going on.
    Continue,
    /// End the session.
    Quit,
    /// Store a note with this text, then report how that went.
    StoreNote(String),
    /// Fetch the history anew, then report what came.
    FetchHistory,
    /// End the session with the error that storage reported.
    Fail,
}

/// An effect as a mathematical value.
pub enum EffectModel {
    Continue,
    Quit,
    StoreNote(Seq<char>),
    FetchHistory,
    Fail,
}

impl View for Effect {
    type V = EffectModel;

    open spec fn view(&self) -> EffectModel {
        match self {
            Effect::Continue => EffectModel::Continue,
            Effect::Quit => EffectModel::Quit,
            Effect::StoreNote(text) => EffectModel::StoreNote(text@),
            Effect::FetchHistory => EffectModel::FetchHistory,
            Effect::Fail => EffectModel::Fail,
        }
    }
}

/// What storage answered to a request of the session.
#[derive(Debug)]
pub enum StorageEvent {
    /// The note was stored.
    NoteStored,
    /// The note could not be stored.
    StoreFailed,
    /// The history as storage now has it, newest note first.
    HistoryFetched(Vec<Note>),
    /// The history could not be fetched.
    FetchFailed,
}

/// Whether the key ends the session: Control-C with no other modifier, Escape,
/// or `q` in either case while the history pane has the focus.
pub open spec fn is_quit(code: KeyCode, modifiers: KeyModifiers, focus: Focus) -> bool {
    ||| code == KeyCode::Char('c') && modifiers.bits == CONTROL
    ||| code == KeyCode::Esc
    ||| focus == Focus::History && (code == KeyCode::Char('q') || code == KeyCode::Char('Q'))
}

/// Whether the key submits the draft: Enter with Control held, in any of the
/// forms in which terminals report that chord.
pub open spec fn is_submit(code: KeyCode, modifiers: KeyModifiers) -> bool {
    &&& modifiers.has(CONTROL)
    &&& (code == KeyCode::Enter || code == KeyCode::Char('\n') || code == KeyCode::Char('\r')
        || code == KeyCode::Char('m') || code == KeyCode::Char('j'))
}

/// Whether the key is a plain Enter, as a key or as the character it sends.
pub open spec fn is_newline(code: KeyCode) -> bool {
    code == KeyCode::Enter || code == KeyCode::Char('\n') || code == KeyCode::Char('\r')
}

/// What a key that is none of quit, Tab, search, submit and Enter means: cursor
/// and selection moves, deletions, and typed characters. The history pane
/// takes `k` and `j` as moves and no other character; the Delete key counts in
/// the input pane only.
pub open spec fn editing_action(code: KeyCode, focus: Focus) -> Option<Action> {
    match code {
        KeyCode::Up => Some(Action::MoveUp),
        KeyCode::Down => Some(Action::MoveDown),
        KeyCode::Left => Some(Action::MoveLeft),
        KeyCode::Right => Some(Action::MoveRight),
        KeyCode::Backspace => Some(Action::Backspace),
        KeyCode::Delete => if focus == Focus::Input {
            Some(Action::Delete)
        } else {
            None
        },
        KeyCode::Char(ch) => if focus == Focus::History {
            if ch == 'k' {
                Some(Action::MoveUp)
            } else if ch == 'j' {
                Some(Action::MoveDown)
            } else {
                None
            }
        } else {
            Some(Action::InsertChar(ch))
        },
        _ => None,
    }
}

/// The action of a key under a focus. The first rule that applies decides:
/// quit keys, Tab, `/` in the history pane, the submit chord, plain Enter, and
/// then the editing keys.
pub open spec fn action_for(code: KeyCode, modifiers: KeyModifiers, focus: Focus) -> Option<
    Action,
> {
    if is_quit(code, modifiers, focus) {
        Some(Action::Quit)
    } else if code == KeyCode::Tab {
        Some(Action::ToggleFocus)
    } else if focus == Focus::History && code == KeyCode::Char('/') {
        Some(Action::ActivateSearch)
    } else if is_submit(code, modifiers) {
        Some(Action::SubmitInput)
    } else if is_newline(code) {
        Some(Action::InsertNewline)
    } else {
        editing_action(code, focus)
    }
}

impl TuiModel {
    /// The state with another draft.
    pub open spec fn with_input(self, input: InputModel) -> TuiModel {
        TuiModel { input, ..self }
    }

    /// The state with another query, filtered afresh.
    pub open spec fn with_query(self, search: Seq<char>) -> TuiModel {
        TuiModel { search, ..self }.apply_search()
    }

    /// Whether a submission would go through: the input pane has the focus
    /// and the draft is not empty.
    pub open spec fn ready_to_submit(self) -> bool {
        self.focus == Focus::Input && !self.input.is_empty()
    }

    /// The state after an action. Typed characters and backspace go to the
    /// pane that has the focus, and to none in the history pane; cursor keys
    /// move the draft's cursor or the selection; quitting and submitting
    /// change nothing.
    pub open spec fn after(self, action: Action) -> TuiModel {
        match action {
            Action::Quit => self,
            Action::ToggleFocus => self.toggle_focus(),
            Action::ActivateSearch => self.activate_search(),
            Action::SubmitInput => self,
            Action::InsertNewline => match self.focus {
                Focus::Input => self.with_input(self.input.newline()),
                _ => self,
            },
            Action::MoveUp => match self.focus {
                Focus::History => self.select_up(),
                Focus::Input => self.with_input(self.input.move_up()),
                Focus::Search => self,
            },
            Action::MoveDown => match self.focus {
                Focus::History => self.select_down(),
                Focus::Input => self.with_input(self.input.move_down()),
                Focus::Search => self,
            },
            Action::MoveLeft => match self.focus {
                Focus::Input => self.with_input(self.input.move_left()),
                _ => self,
            },
            Action::MoveRight => match self.focus {
                Focus::Input => self.with_input(self.input.move_right()),
                _ => self,
            },
            Action::Backspace => match self.focus {
                Focus::Input => self.with_input(self.input.backspace()),
                Focus::Search => self.with_query(
                    if self.search.len() == 0 {
                        self.search
                    } else {
                        self.search.drop_last()
                    },
                ),
                Focus::History => self,
            },
            Action::Delete => match self.focus {
                Focus::Input => self.with_input(self.input.delete_char()),
                _ => self,
            },
            Action::InsertChar(ch) => match self.focus {
                Focus::Input => self.with_input(self.input.insert_char(ch)),
                Focus::Search => self.with_query(self.search.push(ch)),
                Focus::History => self,
            },
        }
    }

    /// What the session loop is to do after an action: quit, store the draft
    /// where a submission goes through, and nothing otherwise.
    pub open spec fn effect_of(self, action: Action) -> EffectModel {
        match action {
            Action::Quit => EffectModel::Quit,
            Action::SubmitInput => if self.ready_to_submit() {
                EffectModel::StoreNote(self.input.text())
            } else {
                EffectModel::Continue
            },
            _ => EffectModel::Continue,
        }
    }

    /// The state once a stored note has been followed by a fresh history: the
    /// history replaced and filtered, the draft empty.
    pub open spec fn submitted(self, history: Seq<NoteView>) -> TuiModel {
        self.set_history(history).with_input(InputModel::cleared())
    }
}

/// Whether the key submits the draft.
pub fn is_submit_key(code: KeyCode, modifiers: KeyModifiers) -> (submit: bool)
    ensures
        submit == is_submit(code, modifiers),
{
    if !modifiers.contains(CONTROL) {
        return false;
    }
    match code {
        KeyCode::Enter => true,
        KeyCode::Char(ch) => ch == '\n' || ch == '\r' || ch == 'm' || ch == 'j',
        _ => false,
    }
}

/// Whether the key is a plain Enter.
pub fn is_newline_key(code: KeyCode) -> (newline: bool)
    ensures
        newline == is_newline(code),
{
    match code {
        KeyCode::Enter => true,
        KeyCode::Char(ch) => ch == '\n' || ch == '\r',
        _ => false,
    }
}

/// The action that a key stands for while `focus` has the focus, if any.
pub fn key_to_action(key: &KeyEvent, focus: Focus) -> (action: Option<Action>)
    ensures
        action == action_for(key.code, key.modifiers, focus),
{
    let code = key.code;
    let modifiers = key.modifiers;
    let in_history = focus == Focus::History;
    match code {
        KeyCode::Esc => {
            return Some(Action::Quit);
        },
        KeyCode::Char(ch) => {
            if ch == 'c' && modifiers.bits == CONTROL {
                return Some(Action::Quit);
            }
            if in_history && (ch == 'q' || ch == 'Q') {
                return Some(Action::Quit);
            }
        },
        _ => {},
    }
    match code {
        KeyCode::Tab => {
            return Some(Action::ToggleFocus);
        },
        KeyCode::Char(ch) => {
            if in_history && ch == '/' {
                return Some(Action::ActivateSearch);
            }
        },
        _ => {},
    }
    if is_submit_key(code, modifiers) {
        return Some(Action::SubmitInput);
    }
    if is_newline_key(code) {
        return Some(Action::InsertNewline);
    }
    match code {
        KeyCode::Up => Some(Action::MoveUp),
        KeyCode::Down => Some(Action::MoveDown),
        KeyCode::Left => Some(Action::MoveLeft),
        KeyCode::Right => Some(Action::MoveRight),
        KeyCode::Backspace => Some(Action::Backspace),
        KeyCode::Delete => if focus == Focus::Input {
            Some(Action::Delete)
        } else {
            None
        },
        KeyCode::Char(ch) => if in_history {
            if ch == 'k' {
                Some(Action::MoveUp)
            } else if ch == 'j' {
                Some(Action::MoveDown)
            } else {
                None
            }
        } else {
            Some(Action::InsertChar(ch))
        },
        _ => None,
    }
}

/// The text to store, where the input pane has the focus and the draft is not
/// empty; nothing otherwise.
pub fn submit_input_if_ready(state: &TuiState) -> (text: Option<String>)
    ensures
        text is Some <==> state@.ready_to_submit(),
        text matches Some(t) ==> t@ == state@.input.text(),
{
    if state.focus != Focus::Input {
        return None;
    }
    if state.input.is_empty() {
        return None;
    }
    Some(state.input.text())
}

/// Starts a new line in the draft while the input pane has the focus.
pub fn insert_newline_if_input_focus(state: &mut TuiState)
    ensures
        final(state)@ == old(state)@.after(Action::InsertNewline),
        old(state)@.wf() ==> final(state)@.wf(),
{
    if state.focus == Focus::Input {
        state.input.newline();
    }
}

/// Takes over the history that storage returned.
pub fn refresh_history(state: &mut TuiState, history: Vec<Note>)
    ensures
        final(state)@ == old(state)@.set_history(history.deep_view()),
        old(state)@.input.wf() ==> final(state)@.wf(),
{
    state.set_history(history);
}

/// Applies an action to the session and says what the session loop is to do
/// next. A submission that goes through changes nothing yet: it asks for the
/// draft to be stored.
pub fn apply_action(state: &mut TuiState, action: Action) -> (effect: Effect)
    ensures
        final(state)@ == old(state)@.after(action),
        effect@ == old(state)@.effect_of(action),
        old(state)@.wf() ==> final(state)@.wf(),
{
    match action {
        Action::Quit => Effect::Quit,
        Action::ToggleFocus => {
            state.toggle_focus();
            Effect::Continue
        },
        Action::ActivateSearch => {
            state.activate_search();
            Effect::Continue
        },
        Action::SubmitInput => match submit_input_if_ready(state) {
            Some(text) => Effect::StoreNote(text),
            None => Effect::Continue,
        },
        Action::InsertNewline => {
            insert_newline_if_input_focus(state);
            Effect::Continue
        },
        Action::MoveUp => {
            match state.focus {
                Focus::History => state.move_history_selection_up(),
                Focus::Input => state.input.move_up(),
                Focus::Search => {},
            }
            Effect::Continue
        },
        Action::MoveDown => {
            match state.focus {
                Focus::History => state.move_history_selection_down(),
                Focus::Input => state.input.move_down(),
                Focus::Search => {},
            }
            Effect::Continue
        },
        Action::MoveLeft => {
            if state.focus == Focus::Input {
                state.input.move_left();
            }
            Effect::Continue
        },
        Action::MoveRight => {
            if state.focus == Focus::Input {
                state.input.move_right();
            }
            Effect::Continue
        },
        Action::Backspace => {
            match state.focus {
                Focus::Input => state.input.backspace(),
                Focus::Search => {
                    state.search.backspace();
                    state.apply_search();
                },
                Focus::History => {},
            }
            Effect::Continue
        },
        Action::Delete => {
            if state.focus == Focus::Input {
                state.input.delete_char();
            }
            Effect::Continue
        },
        Action::InsertChar(ch) => {
            match state.focus {
                Focus::Input => state.input.insert_char(ch),
                Focus::Search => {
                    state.search.insert_char(ch);
                    state.apply_search();
                },
                Focus::History => {},
            }
            Effect::Continue
        },
    }
}

/// Handles one key event: a key coming up means nothing, any other key is
/// mapped to its action under the current focus and the action applied.
pub fn handle_tui_key(state: &mut TuiState, key: KeyEvent) -> (effect: Effect)
    ensures
        key.kind == KeyEventKind::Release ==> final(state)@ == old(state)@ && effect@
            == EffectModel::Continue,
        key.kind != KeyEventKind::Release ==> match action_for(
            key.code,
            key.modifiers,
            old(state)@.focus,
        ) {
            Some(action) => final(state)@ == old(state)@.after(action) && effect@ == old(
                state,
            )@.effect_of(action),
            None => final(state)@ == old(state)@ && effect@ == EffectModel::Continue,
        },
        old(state)@.wf() ==> final(state)@.wf(),
{
    if key.kind == KeyEventKind::Release {
        return Effect::Continue;
    }
    match key_to_action(&key, state.focus) {
        Some(action) => apply_action(state, action),
        None => Effect::Continue,
    }
}

/// Takes in what storage answered. A stored note asks for a fresh history; a
/// fetched history replaces the old one and empties the draft; a failure of
/// either ends the session with the state as it was, the draft kept.
pub fn apply_storage_event(state: &mut TuiState, event: StorageEvent) -> (effect: Effect)
    ensures
        match event {
            StorageEvent::NoteStored => final(state)@ == old(state)@ && effect@
                == EffectModel::FetchHistory,
            StorageEvent::StoreFailed => final(state)@ == old(state)@ && effect@
                == EffectModel::Fail,
            StorageEvent::HistoryFetched(history) => final(state)@ == old(state)@.submitted(
                history.deep_view(),
            ) && effect@ == EffectModel::Continue,
            StorageEvent::FetchFailed => final(state)@ == old(state)@ && effect@
                == EffectModel::Fail,
        },
        old(state)@.wf() ==> final(state)@.wf(),
{
    match event {
        StorageEvent::NoteStored => Effect::FetchHistory,
        StorageEvent::StoreFailed => Effect::Fail,
        StorageEvent::HistoryFetched(history) => {
            refresh_history(state, history);
            state.input.clear();
            Effect::Continue
        },
        StorageEvent::FetchFailed => Effect::Fail,
    }
}

} // verus!
