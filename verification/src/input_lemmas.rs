//! What holds of the draft buffer over whole runs of operations.

use vstd::prelude::*;
use crate::input::{min_nat, InputModel};

verus! {

/// One operation on the draft buffer.
pub enum InputOp {
    InsertChar(char),
    Backspace,
    DeleteChar,
    Newline,
    MoveLeft,
    MoveRight,
    MoveUp,
    MoveDown,
    Clear,
}

impl InputModel {
    /// The buffer after one operation.
    #[verifier::opaque]
    pub open spec fn apply(self, op: InputOp) -> InputModel {
        match op {
            InputOp::InsertChar(c) => self.insert_char(c),
            InputOp::Backspace => self.backspace(),
            InputOp::DeleteChar => self.delete_char(),
            InputOp::Newline => self.newline(),
            InputOp::MoveLeft => self.move_left(),
            InputOp::MoveRight => self.move_right(),
            InputOp::MoveUp => self.move_up(),
            InputOp::MoveDown => self.move_down(),
            InputOp::Clear => InputModel::cleared(),
        }
    }

    /// The buffer after the operations of `ops`, first to last.
    pub open spec fn apply_all(self, ops: Seq<InputOp>) -> InputModel
        decreases ops.len(),
    {
        if ops.len() == 0 {
            self
        } else {
            self.apply_all(ops.drop_last()).apply(ops.last())
        }
    }

    /// The buffer after the characters of `chars` were inserted one after the
    /// other.
    pub open spec fn type_all(self, chars: Seq<char>) -> InputModel
        decreases chars.len(),
    {
        if chars.len() == 0 {
            self
        } else {
            self.type_all(chars.drop_last()).insert_char(chars.last())
        }
    }

    /// The buffer after `n` backspaces.
    pub open spec fn backspace_times(self, n: nat) -> InputModel
        decreases n,
    {
        if n == 0 {
            self
        } else {
            self.backspace_times((n - 1) as nat).backspace()
        }
    }

    /// The buffer after `n` moves down.
    pub open spec fn move_down_times(self, n: nat) -> InputModel
        decreases n,
    {
        if n == 0 {
            self
        } else {
            self.move_down_times((n - 1) as nat).move_down()
        }
    }

    /// The buffer after `n` moves up.
    pub open spec fn move_up_times(self, n: nat) -> InputModel
        decreases n,
    {
        if n == 0 {
            self
        } else {
            self.move_up_times((n - 1) as nat).move_up()
        }
    }

    /// Whether two buffers hold the same lines with the cursor at the same
    /// place.
    pub open spec fn same_text_and_cursor(self, other: InputModel) -> bool {
        &&& self.lines == other.lines
        &&& self.line == other.line
        &&& self.col == other.col
    }
}

/// Whatever state a buffer is in, one operation leaves it with at least one
/// line and the cursor inside the text.
pub proof fn lemma_op_restores_bounds(s: InputModel, op: InputOp)
    ensures
        s.apply(op).wf(),
{
    reveal(InputModel::apply);
}

/// After every single operation of any run of operations, from any starting
/// state, the buffer has at least one line and the cursor lies inside the
/// text.
pub proof fn lemma_bounds_hold_after_every_op(s: InputModel, ops: Seq<InputOp>)
    ensures
        forall|k: int| 0 < k <= ops.len() ==> (#[trigger] s.apply_all(ops.take(k))).wf(),
{
    assert forall|k: int| 0 < k <= ops.len() implies (#[trigger] s.apply_all(ops.take(k))).wf() by {
        let prefix = ops.take(k);
        lemma_op_restores_bounds(s.apply_all(prefix.drop_last()), prefix.last());
    }
}

/// Inserting a character and deleting it again with backspace leaves text and
/// cursor as they were.
pub proof fn lemma_backspace_undoes_insert(s: InputModel, c: char)
    requires
        s.wf(),
    ensures
        s.insert_char(c).backspace().same_text_and_cursor(s),
{
    let typed = s.insert_char(c);
    assert(typed.repair() == typed);
    assert(typed.current().remove(s.col as int) =~= s.current());
    assert(typed.backspace().lines =~= s.lines);
}

/// Backspace looks at nothing but the lines and the cursor.
pub proof fn lemma_backspace_respects_text_and_cursor(a: InputModel, b: InputModel)
    requires
        a.same_text_and_cursor(b),
    ensures
        a.backspace().same_text_and_cursor(b.backspace()),
{
}

/// Typing `chars` and then pressing backspace once for each of them brings
/// the buffer back to the text and the cursor position it started from.
pub proof fn lemma_typing_then_backspacing_round_trips(s: InputModel, chars: Seq<char>)
    requires
        s.wf(),
    ensures
        s.type_all(chars).backspace_times(chars.len()).same_text_and_cursor(s),
        s.type_all(chars).backspace_times(chars.len()).text() == s.text(),
{
    lemma_partial_backspacing(s, chars, chars.len());
}

/// Typing leaves the buffer inside its bounds.
pub proof fn lemma_typing_keeps_bounds(s: InputModel, chars: Seq<char>)
    requires
        s.wf(),
    ensures
        s.type_all(chars).wf(),
    decreases chars.len(),
{
    if chars.len() > 0 {
        lemma_typing_keeps_bounds(s, chars.drop_last());
    }
}

/// Typing `chars` and then pressing backspace `m` times leaves what typing
/// all but the last `m` characters leaves.
proof fn lemma_partial_backspacing(s: InputModel, chars: Seq<char>, m: nat)
    requires
        s.wf(),
        m <= chars.len(),
    ensures
        s.type_all(chars).backspace_times(m).same_text_and_cursor(
            s.type_all(chars.take(chars.len() - m)),
        ),
    decreases m,
{
    let n = chars.len();
    if m == 0 {
        assert(chars.take(n as int) =~= chars);
    } else {
        lemma_partial_backspacing(s, chars, (m - 1) as nat);
        let kept = chars.take(n - m + 1);
        lemma_backspace_respects_text_and_cursor(
            s.type_all(chars).backspace_times((m - 1) as nat),
            s.type_all(kept),
        );
        assert(kept.drop_last() =~= chars.take(n - m));
        lemma_typing_keeps_bounds(s, chars.take(n - m));
        lemma_backspace_undoes_insert(s.type_all(chars.take(n - m)), chars[n - m]);
    }
}

/// A run of moves down goes down one line each, remembers the column it
/// started from, and stands at that column or at the end of a shorter line.
pub proof fn lemma_moves_down(s: InputModel, n: nat)
    requires
        s.wf(),
        n >= 1,
        s.line + n < s.lines.len(),
    ensures
        s.move_down_times(n).wf(),
        s.move_down_times(n).lines == s.lines,
        s.move_down_times(n).line == s.line + n,
        s.move_down_times(n).preferred_col == Some(s.target_col()),
        s.move_down_times(n).col == min_nat(s.target_col(), s.lines[s.line as int + n].len()),
    decreases n,
{
    if n > 1 {
        lemma_moves_down(s, (n - 1) as nat);
    }
    let before = s.move_down_times((n - 1) as nat);
    assert(before.repair() == before);
}

/// A run of moves up goes up one line each, remembers the column it started
/// from, and stands at that column or at the end of a shorter line.
pub proof fn lemma_moves_up(s: InputModel, n: nat)
    requires
        s.wf(),
        n >= 1,
        n <= s.line,
    ensures
        s.move_up_times(n).wf(),
        s.move_up_times(n).lines == s.lines,
        s.move_up_times(n).line == s.line - n,
        s.move_up_times(n).preferred_col == Some(s.target_col()),
        s.move_up_times(n).col == min_nat(s.target_col(), s.lines[s.line - n].len()),
    decreases n,
{
    if n > 1 {
        lemma_moves_up(s, (n - 1) as nat);
    }
    let before = s.move_up_times((n - 1) as nat);
    assert(before.repair() == before);
}

/// The sticky column: moving down any number of lines and up again as many
/// brings the cursor back to the line and the column it left, however short
/// the lines in between are.
pub proof fn lemma_down_then_up_returns(s: InputModel, n: nat)
    requires
        s.wf(),
        s.preferred_col is None,
        s.line + n < s.lines.len(),
    ensures
        s.move_down_times(n).move_up_times(n).same_text_and_cursor(s),
{
    if n >= 1 {
        lemma_moves_down(s, n);
        lemma_moves_up(s.move_down_times(n), n);
    }
}

} // verus!
