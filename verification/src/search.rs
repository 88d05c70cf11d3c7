//! The search query and the filter it puts on the note history.
//!
//! A note is a pair of its timestamp and its content. The filtered history is
//! a function of the query and the full history alone: it is computed afresh
//! each time and never patched.

use vstd::prelude::*;
use crate::layout::Rect;
use crate::text::{contains_str, drop_last_char, is_substring, lowercase};
use crate::width::{str_width, unicode_str_width};

verus! {

/// A note as the session holds it: timestamp first, content second.
pub type Note = (String, String);

/// A note as a mathematical value.
pub type NoteView = (Seq<char>, Seq<char>);

/// The query typed into the search pane.
pub struct SearchState {
    pub query: String,
}

impl View for SearchState {
    type V = Seq<char>;

    open spec fn view(&self) -> Seq<char> {
        self.query@
    }
}

/// Whether a note matches a needle that is already in lower case: the needle
/// occurs in the lower-case content or in the lower-case timestamp.
pub open spec fn note_matches(needle: Seq<char>, note: NoteView) -> bool {
    is_substring(needle, lowercase(note.1)) || is_substring(needle, lowercase(note.0))
}

/// The notes that a query lets through, in their order: all of them for the
/// empty query, else those that match the query without regard to case.
pub open spec fn filter_notes(query: Seq<char>, notes: Seq<NoteView>) -> Seq<NoteView> {
    if query.len() == 0 {
        notes
    } else {
        notes.filter(|note: NoteView| note_matches(lowercase(query), note))
    }
}

/// The index of the first note of a history, none for an empty one.
pub open spec fn first_index(notes: Seq<NoteView>) -> Option<nat> {
    if notes.len() == 0 {
        None
    } else {
        Some(0nat)
    }
}

/// Whether a needle occurs in the content or in the timestamp of a note, all
/// three given in lower case already.
pub fn matches_lowered(needle: &str, content: &str, timestamp: &str) -> (hit: bool)
    ensures
        hit == (is_substring(needle@, content@) || is_substring(needle@, timestamp@)),
{
    contains_str(content, needle) || contains_str(timestamp, needle)
}

/// A copy of the notes.
pub fn copy_notes(notes: &Vec<Note>) -> (copy: Vec<Note>)
    ensures
        copy.deep_view() == notes.deep_view(),
{
    let mut copy: Vec<Note> = Vec::new();
    let mut i: usize = 0;
    while i < notes.len()
        invariant
            i <= notes.len(),
            copy.deep_view() == notes.deep_view().take(i as int),
        decreases notes.len() - i,
    {
        let ghost before = copy.deep_view();
        copy.push((notes[i].0.clone(), notes[i].1.clone()));
        proof {
            assert(copy.deep_view() =~= before.push(notes.deep_view()[i as int]));
            assert(copy.deep_view() =~= notes.deep_view().take(i + 1));
        }
        i += 1;
    }
    proof {
        assert(notes.deep_view().take(notes.len() as int) =~= notes.deep_view());
    }
    copy
}

impl SearchState {
    /// The empty query.
    pub fn new() -> (search: Self)
        ensures
            search@ == Seq::<char>::empty(),
    {
        SearchState { query: String::new() }
    }

    /// Appends `ch` to the query.
    pub fn insert_char(&mut self, ch: char)
        ensures
            final(self)@ == old(self)@.push(ch),
    {
        self.query.push(ch);
    }

    /// Removes the last character of the query, if there is one.
    pub fn backspace(&mut self)
        ensures
            final(self)@ == if old(self)@.len() == 0 {
                old(self)@
            } else {
                old(self)@.drop_last()
            },
    {
        self.query = drop_last_char(self.query.as_str());
    }

    /// Empties the query.
    pub fn clear(&mut self)
        ensures
            final(self)@ == Seq::<char>::empty(),
    {
        self.query = String::new();
    }

    /// The notes of `full` that the query lets through, in their order.
    pub fn apply(&self, full: &Vec<Note>) -> (filtered: Vec<Note>)
        ensures
            filtered.deep_view() == filter_notes(self@, full.deep_view()),
            self@.len() == 0 ==> filtered.deep_view() == full.deep_view(),
    {
        if self.query.as_str().is_empty() {
            return copy_notes(full);
        }
        let needle = self.query.as_str().to_lowercase();
        let ghost keep = |note: NoteView| note_matches(lowercase(self@), note);
        let mut filtered: Vec<Note> = Vec::new();
        let mut i: usize = 0;
        proof {
            reveal(Seq::filter);
        }
        while i < full.len()
            invariant
                i <= full.len(),
                needle@ == lowercase(self@),
                keep == |note: NoteView| note_matches(lowercase(self@), note),
                filtered.deep_view() == full.deep_view().take(i as int).filter(keep),
            decreases full.len() - i,
        {
            let content = full[i].1.as_str().to_lowercase();
            let timestamp = full[i].0.as_str().to_lowercase();
            let hit = matches_lowered(needle.as_str(), content.as_str(), timestamp.as_str());
            proof {
                reveal(Seq::filter);
                let before = full.deep_view().take(i as int);
                let after = full.deep_view().take(i + 1);
                assert(after.drop_last() =~= before);
                assert(after.last() == full.deep_view()[i as int]);
                assert(hit == keep(after.last()));
            }
            if hit {
                filtered.push((full[i].0.clone(), full[i].1.clone()));
                proof {
                    assert(filtered.deep_view() =~= full.deep_view().take(i + 1).filter(keep));
                }
            }
            i += 1;
        }
        proof {
            assert(full.deep_view().take(full.len() as int) =~= full.deep_view());
        }
        filtered
    }

    /// The terminal cell of the cursor in the one-row search pane `area`:
    /// behind the prompt character and the query, as wide as the query
    /// displays. Nothing where that cell lies beyond the last addressable
    /// column.
    pub fn cursor_position_inline(&self, area: Rect) -> (cell: Option<(u16, u16)>)
        ensures
            cell == inline_cell(area, str_width(self@) as nat),
    {
        inline_cursor_cell(area, unicode_str_width(self.query.as_str()))
    }
}

/// The cell behind a prompt character and a query that displays `width`
/// cells wide, at the start of the one-row pane `area`; none where that cell
/// lies beyond the last addressable column.
pub open spec fn inline_cell(area: Rect, width: nat) -> Option<(u16, u16)> {
    if area.x + width + 1 <= u16::MAX {
        Some(((area.x + width + 1) as u16, area.y))
    } else {
        None
    }
}

/// The cursor cell of the search pane for a query of the given display
/// width.
pub fn inline_cursor_cell(area: Rect, width: usize) -> (cell: Option<(u16, u16)>)
    ensures
        cell == inline_cell(area, width as nat),
{
    if width < u16::MAX as usize - area.x as usize {
        Some(((area.x as usize + width + 1) as u16, area.y))
    } else {
        None
    }
}

} // verus!
