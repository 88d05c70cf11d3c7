//! The multi-line draft buffer and its cursor.
//!
//! [`InputState`] is the executable buffer. Its view, [`InputModel`], is the
//! buffer as mathematics: lines as character sequences and a cursor counted in
//! characters. Each operation is specified as a function on the model, and each
//! first repairs an out-of-range cursor or an empty line list, so every
//! operation is total.

use vstd::prelude::*;
use crate::text::{
    char_count, concat_str, insert_char_at, join_lines, join_with_newlines, remove_char_at,
    split_at_char,
};

verus! {

/// Where the cursor stands: a line, a column counted in characters, and the
/// column that a run of vertical moves tries to keep.
pub struct InputCursor {
    pub line: usize,
    pub col: usize,
    pub preferred_col: Option<usize>,
}

/// The draft: its lines, a transient status message, and the cursor.
pub struct InputState {
    pub lines: Vec<String>,
    pub status: Option<String>,
    pub cursor: InputCursor,
}

/// The draft as a mathematical value.
pub struct InputModel {
    pub lines: Seq<Seq<char>>,
    pub line: nat,
    pub col: nat,
    pub preferred_col: Option<nat>,
    pub status: Option<Seq<char>>,
}

/// The smaller of two numbers.
pub open spec fn min_nat(a: nat, b: nat) -> nat {
    if a <= b {
        a
    } else {
        b
    }
}

impl InputModel {
    /// The buffer invariant: at least one line, the cursor on an existing
    /// line, and its column no further than the end of that line.
    pub open spec fn wf(self) -> bool {
        &&& self.lines.len() >= 1
        &&& self.line < self.lines.len()
        &&& self.col <= self.lines[self.line as int].len()
    }

    /// The line the cursor is on.
    pub open spec fn current(self) -> Seq<char> {
        self.lines[self.line as int]
    }

    /// The length of the line the cursor is on, 0 where there is no such line.
    pub open spec fn current_len(self) -> nat {
        if self.line < self.lines.len() {
            self.current().len()
        } else {
            0
        }
    }

    /// The state brought back inside the invariant: an empty line list gets
    /// one empty line, the cursor is pulled back to the last line and then to
    /// the end of its line.
    pub open spec fn repair(self) -> InputModel {
        let lines = if self.lines.len() == 0 {
            seq![Seq::<char>::empty()]
        } else {
            self.lines
        };
        let line = if self.line >= lines.len() {
            (lines.len() - 1) as nat
        } else {
            self.line
        };
        let col = min_nat(self.col, lines[line as int].len());
        InputModel { lines, line, col, ..self }
    }

    /// The edit state after a change of text: no preferred column, no status.
    pub open spec fn reset_edit_state(self) -> InputModel {
        InputModel { preferred_col: None, status: None, ..self }
    }

    /// `c` inserted at the cursor, which moves one column right.
    pub open spec fn insert_char(self, c: char) -> InputModel {
        let s = self.repair();
        InputModel {
            lines: s.lines.update(s.line as int, s.current().insert(s.col as int, c)),
            col: s.col + 1,
            ..s
        }.reset_edit_state()
    }

    /// The character before the cursor removed; at the start of a line that is
    /// not the first, the line joined to the one above, with the cursor at the
    /// seam; at the very start, nothing.
    pub open spec fn backspace(self) -> InputModel {
        let s = self.repair();
        if s.col > 0 {
            InputModel {
                lines: s.lines.update(s.line as int, s.current().remove(s.col - 1)),
                col: (s.col - 1) as nat,
                ..s
            }.reset_edit_state()
        } else if s.line > 0 {
            let above = s.lines[s.line - 1];
            InputModel {
                lines: s.lines.remove(s.line as int).update(s.line - 1, above + s.current()),
                line: (s.line - 1) as nat,
                col: above.len(),
                ..s
            }.reset_edit_state()
        } else {
            s
        }
    }

    /// The character under the cursor removed; at the end of a line that is
    /// not the last, the next line joined to this one; at the very end,
    /// nothing. The cursor stays.
    pub open spec fn delete_char(self) -> InputModel {
        let s = self.repair();
        if s.col < s.current().len() {
            InputModel {
                lines: s.lines.update(s.line as int, s.current().remove(s.col as int)),
                ..s
            }.reset_edit_state()
        } else if s.line + 1 < s.lines.len() {
            let below = s.lines[s.line as int + 1];
            InputModel {
                lines: s.lines.remove(s.line as int + 1).update(s.line as int, s.current() + below),
                ..s
            }.reset_edit_state()
        } else {
            s
        }
    }

    /// The current line split at the cursor, which moves to the start of the
    /// new second line.
    pub open spec fn newline(self) -> InputModel {
        let s = self.repair();
        InputModel {
            lines: s.lines.update(s.line as int, s.current().take(s.col as int)).insert(
                s.line as int + 1,
                s.current().skip(s.col as int),
            ),
            line: s.line + 1,
            col: 0,
            ..s
        }.reset_edit_state()
    }

    /// The empty buffer: one empty line, cursor at its start.
    pub open spec fn cleared() -> InputModel {
        InputModel {
            lines: seq![Seq::<char>::empty()],
            line: 0,
            col: 0,
            preferred_col: None,
            status: None,
        }
    }

    /// One column left, wrapping to the end of the line above.
    pub open spec fn move_left(self) -> InputModel {
        let s = self.repair();
        if s.col > 0 {
            InputModel { col: (s.col - 1) as nat, preferred_col: None, ..s }
        } else if s.line > 0 {
            InputModel {
                line: (s.line - 1) as nat,
                col: s.lines[s.line - 1].len(),
                preferred_col: None,
                ..s
            }
        } else {
            InputModel { preferred_col: None, ..s }
        }
    }

    /// One column right, wrapping to the start of the line below.
    pub open spec fn move_right(self) -> InputModel {
        let s = self.repair();
        if s.col < s.current().len() {
            InputModel { col: s.col + 1, preferred_col: None, ..s }
        } else if s.line + 1 < s.lines.len() {
            InputModel { line: s.line + 1, col: 0, preferred_col: None, ..s }
        } else {
            InputModel { preferred_col: None, ..s }
        }
    }

    /// The column a vertical move aims at: the remembered one, else the
    /// current one.
    pub open spec fn target_col(self) -> nat {
        match self.preferred_col {
            Some(c) => c,
            None => self.col,
        }
    }

    /// One line up, at the target column or the end of that line if it is
    /// shorter; the target column is remembered. On the first line, nothing.
    pub open spec fn move_up(self) -> InputModel {
        let s = self.repair();
        if s.line == 0 {
            s
        } else {
            InputModel {
                line: (s.line - 1) as nat,
                col: min_nat(s.target_col(), s.lines[s.line - 1].len()),
                preferred_col: Some(s.target_col()),
                ..s
            }
        }
    }

    /// One line down, at the target column or the end of that line if it is
    /// shorter; the target column is remembered. On the last line, nothing.
    pub open spec fn move_down(self) -> InputModel {
        let s = self.repair();
        if s.line + 1 >= s.lines.len() {
            s
        } else {
            InputModel {
                line: s.line + 1,
                col: min_nat(s.target_col(), s.lines[s.line as int + 1].len()),
                preferred_col: Some(s.target_col()),
                ..s
            }
        }
    }

    /// The whole draft as one text.
    pub open spec fn text(self) -> Seq<char> {
        join_lines(self.lines)
    }

    /// Whether the draft is a single empty line.
    pub open spec fn is_empty(self) -> bool {
        self.lines.len() == 1 && self.lines[0].len() == 0
    }
}

impl View for InputState {
    type V = InputModel;

    open spec fn view(&self) -> InputModel {
        InputModel {
            lines: self.lines.deep_view(),
            line: self.cursor.line as nat,
            col: self.cursor.col as nat,
            preferred_col: match self.cursor.preferred_col {
                Some(c) => Some(c as nat),
                None => None,
            },
            status: match self.status {
                Some(s) => Some(s@),
                None => None,
            },
        }
    }
}

impl InputCursor {
    /// The cursor at the start of the first line.
    pub fn new() -> (cursor: Self)
        ensures
            cursor.line == 0,
            cursor.col == 0,
            cursor.preferred_col is None,
    {
        InputCursor { line: 0, col: 0, preferred_col: None }
    }
}

impl InputState {
    /// The empty draft.
    pub fn new() -> (state: Self)
        ensures
            state@ == InputModel::cleared(),
            state@.wf(),
    {
        let mut lines: Vec<String> = Vec::new();
        lines.push(String::new());
        let state = InputState { lines, status: None, cursor: InputCursor::new() };
        proof {
            assert(state@.lines =~= InputModel::cleared().lines);
        }
        state
    }

    /// Brings the state back inside the invariant, whatever it was.
    pub fn ensure_invariants(&mut self)
        ensures
            final(self)@ == old(self)@.repair(),
            final(self)@.wf(),
            final(self).cursor.line < final(self).lines.len(),
    {
        if self.lines.len() == 0 {
            self.lines.push(String::new());
        }
        if self.cursor.line >= self.lines.len() {
            self.cursor.line = self.lines.len() - 1;
        }
        let line_len: usize = self.current_line_len();
        if self.cursor.col > line_len {
            self.cursor.col = line_len;
        }
        proof {
            assert(self@.lines =~= old(self)@.repair().lines);
        }
    }

    /// The number of characters of the line the cursor is on, 0 where the
    /// cursor is on no line.
    pub fn current_line_len(&self) -> (len: usize)
        ensures
            len == self@.current_len(),
    {
        if self.cursor.line < self.lines.len() {
            char_count(self.lines[self.cursor.line].as_str())
        } else {
            0
        }
    }

    /// Forgets the preferred column and the status message.
    pub fn reset_edit_state(&mut self)
        ensures
            final(self)@ == old(self)@.reset_edit_state(),
    {
        self.cursor.preferred_col = None;
        self.status = None;
    }

    /// Inserts `ch` at the cursor and moves the cursor past it.
    pub fn insert_char(&mut self, ch: char)
        ensures
            final(self)@ == old(self)@.insert_char(ch),
            final(self)@.wf(),
    {
        self.ensure_invariants();
        let line: usize = self.cursor.line;
        let col: usize = self.cursor.col;
        let edited = insert_char_at(self.lines[line].as_str(), col, ch);
        self.lines[line] = edited;
        self.cursor.col = col + 1;
        self.reset_edit_state();
        proof {
            assert(self@.lines =~= old(self)@.insert_char(ch).lines);
        }
    }

    /// Deletes the character before the cursor, or joins the line to the one
    /// above when the cursor is at the start of a line.
    pub fn backspace(&mut self)
        ensures
            final(self)@ == old(self)@.backspace(),
            final(self)@.wf(),
    {
        self.ensure_invariants();
        let line: usize = self.cursor.line;
        let col: usize = self.cursor.col;
        if col > 0 {
            let edited = remove_char_at(self.lines[line].as_str(), col - 1);
            self.lines[line] = edited;
            self.cursor.col = col - 1;
            self.reset_edit_state();
            proof {
                assert(self@.lines =~= old(self)@.backspace().lines);
            }
        } else if line > 0 {
            let current = self.lines.remove(line);
            let above_len: usize = char_count(self.lines[line - 1].as_str());
            let merged = concat_str(self.lines[line - 1].as_str(), current.as_str());
            self.lines[line - 1] = merged;
            self.cursor.line = line - 1;
            self.cursor.col = above_len;
            self.reset_edit_state();
            proof {
                assert(self@.lines =~= old(self)@.backspace().lines);
            }
        }
    }

    /// Deletes the character under the cursor, or joins the next line to this
    /// one when the cursor is at the end of a line.
    pub fn delete_char(&mut self)
        ensures
            final(self)@ == old(self)@.delete_char(),
            final(self)@.wf(),
    {
        self.ensure_invariants();
        let line: usize = self.cursor.line;
        let col: usize = self.cursor.col;
        let line_len: usize = self.current_line_len();
        if col < line_len {
            let edited = remove_char_at(self.lines[line].as_str(), col);
            self.lines[line] = edited;
            self.reset_edit_state();
            proof {
                assert(self@.lines =~= old(self)@.delete_char().lines);
            }
        } else if line + 1 < self.lines.len() {
            let below = self.lines.remove(line + 1);
            let merged = concat_str(self.lines[line].as_str(), below.as_str());
            self.lines[line] = merged;
            self.reset_edit_state();
            proof {
                assert(self@.lines =~= old(self)@.delete_char().lines);
            }
        }
    }

    /// Splits the current line at the cursor and moves the cursor to the start
    /// of the new line.
    pub fn newline(&mut self)
        ensures
            final(self)@ == old(self)@.newline(),
            final(self)@.wf(),
    {
        self.ensure_invariants();
        let line: usize = self.cursor.line;
        let (head, tail) = split_at_char(self.lines[line].as_str(), self.cursor.col);
        self.lines[line] = head;
        self.lines.insert(line + 1, tail);
        self.cursor.line = line + 1;
        self.cursor.col = 0;
        self.reset_edit_state();
        proof {
            assert(self@.lines =~= old(self)@.newline().lines);
        }
    }

    /// Empties the draft.
    pub fn clear(&mut self)
        ensures
            final(self)@ == InputModel::cleared(),
            final(self)@.wf(),
    {
        self.lines.clear();
        self.lines.push(String::new());
        self.cursor = InputCursor::new();
        self.status = None;
        proof {
            assert(self@.lines =~= InputModel::cleared().lines);
        }
    }

    /// The draft as one text, its lines joined by line feeds.
    pub fn text(&self) -> (text: String)
        ensures
            text@ == self@.text(),
    {
        join_with_newlines(&self.lines)
    }

    /// Whether the draft is a single empty line.
    pub fn is_empty(&self) -> (empty: bool)
        ensures
            empty == self@.is_empty(),
    {
        self.lines.len() == 1 && self.lines[0].as_str().is_empty()
    }

    /// Moves the cursor one character left, to the end of the line above from
    /// the start of a line.
    pub fn move_left(&mut self)
        ensures
            final(self)@ == old(self)@.move_left(),
            final(self)@.wf(),
    {
        self.ensure_invariants();
        if self.cursor.col > 0 {
            self.cursor.col = self.cursor.col - 1;
        } else if self.cursor.line > 0 {
            self.cursor.line = self.cursor.line - 1;
            self.cursor.col = self.current_line_len();
        }
        self.cursor.preferred_col = None;
    }

    /// Moves the cursor one character right, to the start of the line below
    /// from the end of a line.
    pub fn move_right(&mut self)
        ensures
            final(self)@ == old(self)@.move_right(),
            final(self)@.wf(),
    {
        self.ensure_invariants();
        let line_len: usize = self.current_line_len();
        if self.cursor.col < line_len {
            self.cursor.col = self.cursor.col + 1;
        } else if self.cursor.line + 1 < self.lines.len() {
            self.cursor.line = self.cursor.line + 1;
            self.cursor.col = 0;
        }
        self.cursor.preferred_col = None;
    }

    /// Moves the cursor one line up, keeping to the preferred column.
    pub fn move_up(&mut self)
        ensures
            final(self)@ == old(self)@.move_up(),
            final(self)@.wf(),
    {
        self.ensure_invariants();
        if self.cursor.line == 0 {
            return ;
        }
        let target_col: usize = match self.cursor.preferred_col {
            Some(c) => c,
            None => self.cursor.col,
        };
        self.cursor.line = self.cursor.line - 1;
        let line_len: usize = self.current_line_len();
        self.cursor.col = if target_col < line_len {
            target_col
        } else {
            line_len
        };
        self.cursor.preferred_col = Some(target_col);
    }

    /// Moves the cursor one line down, keeping to the preferred column.
    pub fn move_down(&mut self)
        ensures
            final(self)@ == old(self)@.move_down(),
            final(self)@.wf(),
    {
        self.ensure_invariants();
        if self.cursor.line + 1 >= self.lines.len() {
            return ;
        }
        let target_col: usize = match self.cursor.preferred_col {
            Some(c) => c,
            None => self.cursor.col,
        };
        self.cursor.line = self.cursor.line + 1;
        let line_len: usize = self.current_line_len();
        self.cursor.col = if target_col < line_len {
            target_col
        } else {
            line_len
        };
        self.cursor.preferred_col = Some(target_col);
    }
}

} // verus!
