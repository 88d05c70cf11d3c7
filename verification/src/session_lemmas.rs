//! What holds of the session over its actions.

use vstd::prelude::*;
use crate::handler::{action_for, Action, EffectModel};
use crate::keys::{KeyCode, KeyModifiers, CONTROL};
use crate::search::{filter_notes, first_index, note_matches, NoteView};
use crate::text::lowercase;
use crate::state::{Focus, TuiModel};

verus! {

/// The empty query lets every note through, in the order they came.
pub proof fn lemma_empty_query_keeps_history(notes: Seq<NoteView>)
    ensures
        filter_notes(Seq::empty(), notes) == notes,
{
}

/// Under a query that is not empty, every shown note matches it, and every
/// note of the history that matches it is shown.
pub proof fn lemma_filter_shows_the_matches(query: Seq<char>, notes: Seq<NoteView>)
    requires
        query.len() > 0,
    ensures
        filter_notes(query, notes).len() <= notes.len(),
        forall|i: int|
            0 <= i < filter_notes(query, notes).len() ==> note_matches(
                lowercase(query),
                #[trigger] filter_notes(query, notes)[i],
            ),
        forall|i: int|
            0 <= i < notes.len() && note_matches(lowercase(query), notes[i]) ==> filter_notes(
                query,
                notes,
            ).contains(#[trigger] notes[i]),
{
    let keep = |note: NoteView| note_matches(lowercase(query), note);
    notes.lemma_filter_len(keep);
    assert forall|i: int| 0 <= i < notes.filter(keep).len() implies note_matches(
        lowercase(query),
        #[trigger] notes.filter(keep)[i],
    ) by {
        notes.lemma_filter_pred(keep, i);
    }
    assert forall|i: int|
        0 <= i < notes.len() && note_matches(lowercase(query), notes[i]) implies notes.filter(
        keep,
    ).contains(#[trigger] notes[i]) by {
        notes.lemma_filter_contains(keep, i);
    }
}

/// Every action leaves a session that was within its invariant within it:
/// the shown history is the filtered full history, an entry is selected
/// exactly when one is shown, and the draft is within its bounds.
pub proof fn lemma_action_keeps_invariant(s: TuiModel, action: Action)
    requires
        s.wf(),
    ensures
        s.after(action).wf(),
{
}

/// Taking in a fresh history after a stored note keeps the invariant too.
pub proof fn lemma_submission_keeps_invariant(s: TuiModel, history: Seq<NoteView>)
    requires
        s.wf(),
    ensures
        s.submitted(history).wf(),
{
}

/// From the input pane, Tab pressed twice comes back to the input pane.
pub proof fn lemma_tab_twice_returns_to_input(s: TuiModel)
    requires
        s.focus == Focus::Input,
    ensures
        s.after(Action::ToggleFocus).focus == Focus::History,
        s.after(Action::ToggleFocus).after(Action::ToggleFocus).focus == Focus::Input,
{
}

/// From the history pane, the search key leads to the search pane with an
/// empty query, and Tab from there back to the history pane, not on to the
/// input pane.
pub proof fn lemma_search_then_tab_returns_to_history(s: TuiModel)
    requires
        s.focus == Focus::History,
    ensures
        s.after(Action::ActivateSearch).focus == Focus::Search,
        s.after(Action::ActivateSearch).search == Seq::<char>::empty(),
        s.after(Action::ActivateSearch).after(Action::ToggleFocus).focus == Focus::History,
{
}

/// A submission from the input pane with a draft asks for exactly the
/// draft's text to be stored and changes nothing; anywhere else, or with an
/// empty draft, it asks for nothing and changes nothing.
pub proof fn lemma_submit_asks_to_store_the_draft(s: TuiModel)
    ensures
        s.after(Action::SubmitInput) == s,
        s.ready_to_submit() ==> s.effect_of(Action::SubmitInput) == EffectModel::StoreNote(
            s.input.text(),
        ),
        !s.ready_to_submit() ==> s.effect_of(Action::SubmitInput) == EffectModel::Continue,
{
}

/// Once the note is stored and the history fetched, the draft is empty, the
/// full history is what storage returned, and nothing else of the session
/// moved: neither the query nor the focus.
pub proof fn lemma_submission_empties_the_draft(s: TuiModel, history: Seq<NoteView>)
    ensures
        s.submitted(history).input.is_empty(),
        s.submitted(history).all_history == history,
        s.submitted(history).history == filter_notes(s.search, history),
        s.submitted(history).search == s.search,
        s.submitted(history).focus == s.focus,
{
}

/// Every edit of the query puts the selection back on the first shown entry,
/// or on none where nothing is shown, wherever it was before.
pub proof fn lemma_query_edit_resets_selection(s: TuiModel, ch: char)
    requires
        s.focus == Focus::Search,
    ensures
        s.after(Action::InsertChar(ch)).history_index == first_index(
            s.after(Action::InsertChar(ch)).history,
        ),
        s.after(Action::InsertChar(ch)).search == s.search.push(ch),
        s.after(Action::InsertChar(ch)).history == filter_notes(s.search.push(ch), s.all_history),
        s.after(Action::Backspace).history_index == first_index(s.after(Action::Backspace).history),
{
}

/// A fresh history puts the selection back on the first shown entry as well.
pub proof fn lemma_refresh_resets_selection(s: TuiModel, history: Seq<NoteView>)
    ensures
        s.set_history(history).history_index == first_index(s.set_history(history).history),
{
}

/// The history pane takes no typed text: a typed character or a backspace
/// changes nothing while it has the focus.
pub proof fn lemma_history_pane_ignores_typing(s: TuiModel, ch: char)
    requires
        s.focus == Focus::History,
    ensures
        s.after(Action::InsertChar(ch)) == s,
        s.after(Action::Backspace) == s,
{
}

/// Control with Enter submits under every focus, whatever else is held.
pub proof fn lemma_control_enter_submits_everywhere(modifiers: KeyModifiers, focus: Focus)
    requires
        modifiers.has(CONTROL),
    ensures
        action_for(KeyCode::Enter, modifiers, focus) == Some(Action::SubmitInput),
{
}

/// No key types a character into the history pane.
pub proof fn lemma_no_key_types_into_history(code: KeyCode, modifiers: KeyModifiers)
    ensures
        !(action_for(code, modifiers, Focus::History) is Some && action_for(
            code,
            modifiers,
            Focus::History,
        )->0 is InsertChar),
{
}

/// Escape quits under every focus and with every modifier.
pub proof fn lemma_escape_always_quits(modifiers: KeyModifiers, focus: Focus)
    ensures
        action_for(KeyCode::Esc, modifiers, focus) == Some(Action::Quit),
{
}

} // verus!
