//! Display widths: how many terminal cells a character or a text takes.
//!
//! The widths of single characters and of whole strings come from the
//! `unicode-width` tables. They are known here by name only, together with
//! the few facts that the table lookup states outright.

use vstd::prelude::*;
use unicode_width::UnicodeWidthChar;
use unicode_width::UnicodeWidthStr;
use crate::text::char_count_fits;

verus! {

/// What `UnicodeWidthChar::width` returns for `c`: the number of cells the
/// character takes, or nothing for a control character.
pub uninterp spec fn char_width(c: char) -> Option<usize>;

/// What `UnicodeWidthStr::width` returns for the text `s`: the number of cells
/// the whole string takes, which may be less than the sum over its characters.
pub uninterp spec fn str_width(s: Seq<char>) -> usize;

/// `UnicodeWidthChar::width`: the table lookup named [`char_width`]. It
/// answers for printable ASCII, U+0020 up to U+007E, without the table: one
/// cell each.
#[verifier::external_body]
pub(crate) fn unicode_char_width(c: char) -> (w: Option<usize>)
    ensures
        w == char_width(c),
        is_printable_ascii(c) ==> w == Some(1usize),
{
    UnicodeWidthChar::width(c)
}

/// `UnicodeWidthStr::width`: the width of a whole string, named
/// [`str_width`].
#[verifier::external_body]
pub(crate) fn unicode_str_width(s: &str) -> (w: usize)
    ensures
        w == str_width(s@),
{
    UnicodeWidthStr::width(s)
}

/// Widths held in machine words, as numbers.
pub open spec fn as_nats(widths: Seq<usize>) -> Seq<nat> {
    Seq::new(widths.len(), |i: int| widths[i] as nat)
}

/// Whether `c` is a printable ASCII character: U+0020 up to U+007E.
pub open spec fn is_printable_ascii(c: char) -> bool {
    0x20 <= c as u32 && (c as u32) < 0x7F
}

/// Whether `s` holds printable ASCII characters only.
pub open spec fn all_printable_ascii(s: Seq<char>) -> bool {
    forall|i: int| 0 <= i < s.len() ==> is_printable_ascii(#[trigger] s[i])
}

/// The cells one character takes when it stands alone: its table width, and
/// none for a control character.
pub open spec fn cell_width(c: char) -> nat {
    match char_width(c) {
        Some(w) => w as nat,
        None => 0,
    }
}

/// The cells a text takes when each character is counted by itself.
pub open spec fn text_width(s: Seq<char>) -> nat
    decreases s.len(),
{
    if s.len() == 0 {
        0
    } else {
        text_width(s.drop_last()) + cell_width(s.last())
    }
}

/// A longer prefix is at least as wide as a shorter one.
pub proof fn lemma_text_width_grows(s: Seq<char>, i: int, j: int)
    requires
        0 <= i <= j <= s.len(),
    ensures
        text_width(s.take(i)) <= text_width(s.take(j)),
    decreases j - i,
{
    if i < j {
        lemma_text_width_grows(s, i, j - 1);
        assert(s.take(j).drop_last() =~= s.take(j - 1));
    }
}

/// The cells of `s`, each character counted by itself, or nothing where the
/// sum does not fit the machine word. Printable ASCII text is as wide as it is
/// long.
pub fn checked_text_width(s: &str) -> (w: Option<usize>)
    ensures
        match w {
            Some(n) => n == text_width(s@),
            None => text_width(s@) > usize::MAX,
        },
        all_printable_ascii(s@) ==> w is Some && w->0 == s@.len(),
{
    char_count_fits(s);
    let mut total: usize = 0;
    for c in it: s.chars()
        invariant
            it.seq() == s@,
            s@.len() <= usize::MAX,
            total == text_width(s@.take(it.index() as int)),
            all_printable_ascii(s@) ==> total == it.index(),
    {
        let cells: usize = match unicode_char_width(c) {
            Some(n) => n,
            None => 0,
        };
        proof {
            let k = it.index() as int;
            assert(s@.take(k + 1).drop_last() =~= s@.take(k));
            assert(s@.take(k + 1).last() == c);
            assert(c == s@[k]);
        }
        match total.checked_add(cells) {
            Some(sum) => {
                total = sum;
            },
            None => {
                proof {
                    lemma_text_width_grows(s@, it.index() + 1, s@.len() as int);
                    assert(s@.take(s@.len() as int) =~= s@);
                }
                return None;
            },
        }
    }
    proof {
        assert(s@.take(s@.len() as int) =~= s@);
    }
    Some(total)
}

} // verus!
