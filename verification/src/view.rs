//! The texts that the panes show: titles, history rows and the search prompt.
//!
//! Drawing is not done here. These functions say what is to be drawn.

use vstd::prelude::*;
use crate::search::{Note, NoteView};
use crate::state::{Focus, TuiState};
use crate::text::concat_str;

verus! {

/// The title of the input pane: its name, a mark while it has the focus, the
/// key help, and the status message behind a dash if there is one.
pub open spec fn input_title(focus: Focus, status: Option<Seq<char>>) -> Seq<char> {
    let label = if focus == Focus::Input {
        " [active]"@
    } else {
        Seq::empty()
    };
    let head = "Memo Input"@ + label + " (Cmd/Ctrl+Enter submit, Tab switch, Esc exit)"@;
    match status {
        Some(message) => head + " - "@ + message,
        None => head,
    }
}

/// The row of one note in the history pane: timestamp, two spaces, content.
pub open spec fn history_row(note: NoteView) -> Seq<char> {
    note.0 + "  "@ + note.1
}

/// The title of the input pane.
pub fn format_input_title(state: &TuiState) -> (title: String)
    ensures
        title@ == input_title(state@.focus, state@.input.status),
{
    let mut title = String::from_str("Memo Input");
    if state.focus == Focus::Input {
        title.append(" [active]");
    }
    title.append(" (Cmd/Ctrl+Enter submit, Tab switch, Esc exit)");
    proof {
        assert("Memo Input"@ + Seq::<char>::empty() =~= "Memo Input"@);
    }
    match &state.input.status {
        Some(message) => {
            title.append(" - ");
            title.append(message.as_str());
        },
        None => {},
    }
    title
}

/// The title of the history pane, with its key help while it has the focus.
pub fn history_title(state: &TuiState) -> (title: String)
    ensures
        title@ == if state@.focus == Focus::History {
            "Recent Memos [active] (Tab switch, / search, q quit)"@
        } else {
            "Recent Memos (Tab switch)"@
        },
{
    if state.focus == Focus::History {
        String::from_str("Recent Memos [active] (Tab switch, / search, q quit)")
    } else {
        String::from_str("Recent Memos (Tab switch)")
    }
}

/// The rows of the history pane, one for each shown note, in their order.
pub fn history_rows(history: &Vec<Note>) -> (rows: Vec<String>)
    ensures
        rows.len() == history.len(),
        forall|i: int|
            0 <= i < rows.len() ==> (#[trigger] rows[i])@ == history_row(history.deep_view()[i]),
{
    let mut rows: Vec<String> = Vec::new();
    let mut i: usize = 0;
    while i < history.len()
        invariant
            i <= history.len(),
            rows.len() == i,
            forall|j: int|
                0 <= j < i ==> (#[trigger] rows[j])@ == history_row(history.deep_view()[j]),
        decreases history.len() - i,
    {
        let mut row = concat_str(history[i].0.as_str(), "  ");
        row.append(history[i].1.as_str());
        rows.push(row);
        i += 1;
    }
    rows
}

/// The text of the search pane: a slash and the query.
pub fn search_line(state: &TuiState) -> (line: String)
    ensures
        line@ == "/"@ + state@.search,
{
    concat_str("/", state.search.query.as_str())
}

} // verus!
