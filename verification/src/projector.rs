//! Where the cursor of the draft lands on the screen once long lines wrap.
//!
//! Each line takes as many visual rows as its display width needs at the wrap
//! width, and at least one. The cursor's row is the number of rows taken by
//! the lines above it plus the full rows of text before it on its own line;
//! its column is what is left of that text.

use vstd::prelude::*;
use vstd::arithmetic::div_mod::{lemma_fundamental_div_mod, lemma_fundamental_div_mod_converse};
use crate::input::{min_nat, InputCursor, InputModel, InputState};
use crate::layout::{content_width, content_width_of, Rect};
use crate::text::char_count;
use crate::width::{all_printable_ascii, as_nats, checked_text_width, text_width};

verus! {

/// The visual rows that a line of display width `width` takes at wrap width
/// `wrap`: the width divided by the wrap width, rounded up, and one row for an
/// empty line.
pub open spec fn rows_for(width: nat, wrap: nat) -> nat {
    let rounded_up = if width % wrap == 0 {
        width / wrap
    } else {
        width / wrap + 1
    };
    if rounded_up < 1 {
        1
    } else {
        rounded_up
    }
}

/// The visual rows taken together by lines of the given display widths.
pub open spec fn total_rows(widths: Seq<nat>, wrap: nat) -> nat
    decreases widths.len(),
{
    if widths.len() == 0 {
        0
    } else {
        total_rows(widths.drop_last(), wrap) + rows_for(widths.last(), wrap)
    }
}

/// The visual row and column of a cursor that has lines of the given display
/// widths above it and text of display width `prefix` before it on its line.
pub open spec fn position_of(widths_above: Seq<nat>, prefix: nat, wrap: nat) -> (nat, nat) {
    (total_rows(widths_above, wrap) + prefix / wrap, prefix % wrap)
}

/// The line that counts as the cursor's: its own, or the last one where the
/// cursor stands below the text.
pub open spec fn cursor_line(lines: Seq<Seq<char>>, line: nat) -> nat {
    if lines.len() == 0 {
        0
    } else {
        min_nat(line, (lines.len() - 1) as nat)
    }
}

/// The text before the cursor on its line; the cursor is pulled back to the
/// end of the line where it stands beyond it.
pub open spec fn text_before_cursor(lines: Seq<Seq<char>>, line: nat, col: nat) -> Seq<char> {
    let at = cursor_line(lines, line);
    if at < lines.len() {
        lines[at as int].take(min_nat(col, lines[at as int].len()) as int)
    } else {
        Seq::empty()
    }
}

/// The display widths of the lines above the cursor.
pub open spec fn widths_above(lines: Seq<Seq<char>>, line: nat) -> Seq<nat> {
    Seq::new(cursor_line(lines, line), |i: int| text_width(lines[i]))
}

/// The lengths of the lines above the cursor.
pub open spec fn lengths_above(lines: Seq<Seq<char>>, line: nat) -> Seq<nat> {
    Seq::new(cursor_line(lines, line), |i: int| lines[i].len())
}

/// The zero-based visual row and column of the cursor at wrap width `wrap`.
pub open spec fn visual_position(lines: Seq<Seq<char>>, line: nat, col: nat, wrap: nat) -> (
    nat,
    nat,
) {
    position_of(widths_above(lines, line), text_width(text_before_cursor(lines, line, col)), wrap)
}

/// The visual row and column of the cursor when every character takes one
/// cell, as printable ASCII does.
pub open spec fn plain_position(lines: Seq<Seq<char>>, line: nat, col: nat, wrap: nat) -> (
    nat,
    nat,
) {
    position_of(lengths_above(lines, line), text_before_cursor(lines, line, col).len(), wrap)
}

/// Whether the lines above the cursor and the text before it hold printable
/// ASCII only.
pub open spec fn plain_up_to_cursor(lines: Seq<Seq<char>>, line: nat, col: nat) -> bool {
    &&& forall|i: int|
        0 <= i < cursor_line(lines, line) ==> all_printable_ascii(#[trigger] lines[i])
    &&& all_printable_ascii(text_before_cursor(lines, line, col))
}

/// Whether every number met on the way to the cursor's position fits the
/// machine word: the width of each line above the cursor, the width of the
/// text before it, and its row.
pub open spec fn projection_fits(lines: Seq<Seq<char>>, line: nat, col: nat, wrap: nat) -> bool {
    &&& forall|i: int|
        0 <= i < cursor_line(lines, line) ==> text_width(#[trigger] lines[i]) <= usize::MAX
    &&& text_width(text_before_cursor(lines, line, col)) <= usize::MAX
    &&& visual_position(lines, line, col, wrap).0 <= usize::MAX
}

/// More lines take at least as many rows.
pub proof fn lemma_total_rows_grows(widths: Seq<nat>, count: int, wrap: nat)
    requires
        0 <= count <= widths.len(),
    ensures
        total_rows(widths.take(count), wrap) <= total_rows(widths, wrap),
    decreases widths.len() - count,
{
    if count < widths.len() {
        lemma_total_rows_grows(widths.drop_last(), count, wrap);
        assert(widths.drop_last().take(count) =~= widths.take(count));
    } else {
        assert(widths.take(count) =~= widths);
    }
}

/// Every line takes at least one row.
pub proof fn lemma_total_rows_counts_every_line(widths: Seq<nat>, wrap: nat)
    requires
        wrap > 0,
    ensures
        total_rows(widths, wrap) >= widths.len(),
    decreases widths.len(),
{
    if widths.len() > 0 {
        lemma_total_rows_counts_every_line(widths.drop_last(), wrap);
    }
}

/// The cursor's column is always inside the wrap width, and its row is at
/// least the number of lines above it.
pub proof fn lemma_visual_position_bounds(lines: Seq<Seq<char>>, line: nat, col: nat, wrap: nat)
    requires
        wrap > 0,
    ensures
        visual_position(lines, line, col, wrap).1 < wrap,
        visual_position(lines, line, col, wrap).0 >= cursor_line(lines, line),
{
    lemma_total_rows_counts_every_line(widths_above(lines, line), wrap);
}

/// A cursor outside the text is shown where the repaired buffer has it: the
/// projection of any state is the projection of the state brought back
/// inside its bounds.
pub proof fn lemma_projection_sees_repaired_state(s: InputModel, wrap: nat)
    ensures
        visual_position(s.lines, s.line, s.col, wrap) == visual_position(
            s.repair().lines,
            s.repair().line,
            s.repair().col,
            wrap,
        ),
{
    let r = s.repair();
    assert(widths_above(s.lines, s.line) =~= widths_above(r.lines, r.line));
    if s.lines.len() == 0 {
        assert(r.lines[0].take(0) =~= Seq::<char>::empty());
    }
}

/// The rows of one line of display width `width`.
pub fn line_rows(width: usize, wrap: usize) -> (rows: usize)
    requires
        wrap > 0,
    ensures
        rows == rows_for(width as nat, wrap as nat),
        rows >= 1,
{
    if width == 0 {
        proof {
            lemma_fundamental_div_mod_converse(0, wrap as int, 0, 0);
        }
        1
    } else {
        let rows: usize = (width - 1) / wrap + 1;
        proof {
            let w = width as int;
            let d = wrap as int;
            let q = (w - 1) / d;
            let r = (w - 1) % d;
            lemma_fundamental_div_mod(w - 1, d);
            if r + 1 < d {
                lemma_fundamental_div_mod_converse(w, d, q, r + 1);
            } else {
                assert(w == d * (q + 1) + 0) by (nonlinear_arith)
                    requires
                        w - 1 == d * q + r,
                        r + 1 == d,
                ;
                lemma_fundamental_div_mod_converse(w, d, q + 1, 0);
            }
        }
        rows
    }
}

/// The visual row and column of a cursor that has lines of the given display
/// widths above it and text of display width `prefix_width` before it; nothing
/// where the row does not fit the machine word.
pub fn position_from_widths(widths_above: &Vec<usize>, prefix_width: usize, wrap: usize) -> (pos:
    Option<(usize, usize)>)
    requires
        wrap > 0,
    ensures
        match pos {
            Some(p) => (p.0 as nat, p.1 as nat) == position_of(
                as_nats(widths_above@),
                prefix_width as nat,
                wrap as nat,
            ),
            None => position_of(as_nats(widths_above@), prefix_width as nat, wrap as nat).0
                > usize::MAX,
        },
{
    let ghost all = as_nats(widths_above@);
    let mut rows_above: usize = 0;
    let mut i: usize = 0;
    while i < widths_above.len()
        invariant
            i <= widths_above.len(),
            wrap > 0,
            all == as_nats(widths_above@),
            rows_above == total_rows(all.take(i as int), wrap as nat),
        decreases widths_above.len() - i,
    {
        let rows: usize = line_rows(widths_above[i], wrap);
        proof {
            assert(all.take(i + 1).drop_last() =~= all.take(i as int));
            assert(all.take(i + 1).last() == widths_above[i as int] as nat);
        }
        match rows_above.checked_add(rows) {
            Some(sum) => {
                rows_above = sum;
            },
            None => {
                proof {
                    lemma_total_rows_grows(all, i + 1, wrap as nat);
                }
                return None;
            },
        }
        i += 1;
    }
    proof {
        assert(all.take(all.len() as int) =~= all);
    }
    match rows_above.checked_add(prefix_width / wrap) {
        Some(row) => Some((row, prefix_width % wrap)),
        None => None,
    }
}

/// The display width of the first `char_index` characters of `value`, each
/// counted by itself, or of all of `value` where it is shorter; nothing where
/// the width does not fit the machine word. Printable ASCII is as wide as it
/// is long.
pub fn width_up_to_char(value: &str, char_index: usize) -> (width: Option<usize>)
    ensures
        match width {
            Some(w) => w == text_width(value@.take(min_nat(char_index as nat, value@.len()) as int)),
            None => text_width(value@.take(min_nat(char_index as nat, value@.len()) as int))
                > usize::MAX,
        },
        all_printable_ascii(value@.take(min_nat(char_index as nat, value@.len()) as int))
            ==> width is Some && width->0 == min_nat(char_index as nat, value@.len()),
{
    let count: usize = char_count(value);
    let upto: usize = if char_index < count {
        char_index
    } else {
        count
    };
    checked_text_width(value.substring_char(0, upto))
}

/// The visual row and column of the cursor when `lines` are wrapped at
/// `content_width` cells, or nothing where a width or the row does not fit
/// the machine word. Where the text up to the cursor is printable ASCII, the
/// position is that of plain text, one cell to the character.
pub fn wrapped_cursor_position(lines: &Vec<String>, cursor: &InputCursor, content_width: usize) -> (pos:
    Option<(usize, usize)>)
    requires
        content_width > 0,
    ensures
        pos is Some <==> projection_fits(
            lines.deep_view(),
            cursor.line as nat,
            cursor.col as nat,
            content_width as nat,
        ),
        pos matches Some(p) ==> (p.0 as nat, p.1 as nat) == visual_position(
            lines.deep_view(),
            cursor.line as nat,
            cursor.col as nat,
            content_width as nat,
        ),
        plain_up_to_cursor(lines.deep_view(), cursor.line as nat, cursor.col as nat) ==> match pos {
            Some(p) => (p.0 as nat, p.1 as nat) == plain_position(
                lines.deep_view(),
                cursor.line as nat,
                cursor.col as nat,
                content_width as nat,
            ),
            None => plain_position(
                lines.deep_view(),
                cursor.line as nat,
                cursor.col as nat,
                content_width as nat,
            ).0 > usize::MAX,
        },
{
    let ghost all = lines.deep_view();
    let ghost plain = plain_up_to_cursor(all, cursor.line as nat, cursor.col as nat);
    let at: usize = if lines.len() == 0 {
        0
    } else if cursor.line < lines.len() - 1 {
        cursor.line
    } else {
        lines.len() - 1
    };
    assert(at == cursor_line(all, cursor.line as nat));
    let mut widths: Vec<usize> = Vec::new();
    let mut i: usize = 0;
    while i < at
        invariant
            i <= at,
            at == cursor_line(all, cursor.line as nat),
            at < lines.len() || at == 0,
            all == lines.deep_view(),
            plain == plain_up_to_cursor(all, cursor.line as nat, cursor.col as nat),
            widths.len() == i,
            forall|j: int| 0 <= j < i ==> widths[j] == text_width(#[trigger] all[j]),
            plain ==> forall|j: int| 0 <= j < i ==> text_width(#[trigger] all[j]) == all[j].len(),
        decreases at - i,
    {
        match checked_text_width(lines[i].as_str()) {
            Some(w) => {
                proof {
                    if plain {
                        assert(all_printable_ascii(all[i as int]));
                    }
                }
                widths.push(w);
            },
            None => {
                assert(text_width(all[i as int]) > usize::MAX);
                return None;
            },
        }
        i += 1;
    }
    let prefix: usize = if at < lines.len() {
        match width_up_to_char(lines[at].as_str(), cursor.col) {
            Some(w) => w,
            None => {
                return None;
            },
        }
    } else {
        0
    };
    proof {
        assert(prefix == text_width(text_before_cursor(all, cursor.line as nat, cursor.col as nat)));
        assert(as_nats(widths@) =~= widths_above(all, cursor.line as nat));
        if plain {
            assert(as_nats(widths@) =~= lengths_above(all, cursor.line as nat));
        }
    }
    position_from_widths(&widths, prefix, content_width)
}

/// The terminal cell of a visual position inside the bordered pane `area`:
/// one cell right and one down from the pane's corner, then the position.
/// None where that lies beyond the last addressable cell.
pub open spec fn cell_of(area: Rect, position: (nat, nat)) -> Option<(u16, u16)> {
    if area.x + position.1 + 1 <= u16::MAX && area.y + position.0 + 1 <= u16::MAX {
        Some(((area.x + position.1 + 1) as u16, (area.y + position.0 + 1) as u16))
    } else {
        None
    }
}

/// The terminal cell of the visual position `(row, col)` inside the bordered
/// pane `area`, or nothing where it lies beyond the last addressable cell.
pub fn cell_inside_border(area: Rect, row: usize, col: usize) -> (cell: Option<(u16, u16)>)
    ensures
        cell == cell_of(area, (row as nat, col as nat)),
{
    if col < u16::MAX as usize - area.x as usize && row < u16::MAX as usize - area.y as usize {
        Some(((area.x as usize + col + 1) as u16, (area.y as usize + row + 1) as u16))
    } else {
        None
    }
}

impl InputState {
    /// The visual row and column of the cursor at the wrap width of `area`.
    pub open spec fn visual_position(&self, area: Rect) -> (nat, nat) {
        visual_position(self@.lines, self@.line, self@.col, content_width_of(area))
    }

    /// The terminal cell of the cursor inside the bordered pane `area`: the
    /// visual position at the pane's wrap width, moved past the border.
    /// Nothing where the position cannot be computed or lies beyond the last
    /// addressable cell. Where the text up to the cursor is printable ASCII,
    /// the cell is that of plain text.
    pub fn cursor_position(&self, area: Rect) -> (cell: Option<(u16, u16)>)
        ensures
            cell == if projection_fits(
                self@.lines,
                self@.line,
                self@.col,
                content_width_of(area),
            ) {
                cell_of(area, self.visual_position(area))
            } else {
                None
            },
            plain_up_to_cursor(self@.lines, self@.line, self@.col) ==> cell == cell_of(
                area,
                plain_position(self@.lines, self@.line, self@.col, content_width_of(area)),
            ),
    {
        let wrap: usize = content_width(area);
        match wrapped_cursor_position(&self.lines, &self.cursor, wrap) {
            Some((row, col)) => cell_inside_border(area, row, col),
            None => None,
        }
    }
}

} // verus!
