//! One-line rendering of a note for plain listings: the timestamp, then the
//! content with its white space collapsed, cut to the width of the terminal.

use vstd::prelude::*;
use crate::text::concat_str;
use crate::width::{
    as_nats, char_width, str_width, unicode_char_width, unicode_str_width,
};

verus! {

/// What `char::is_whitespace` returns for `c`: whether Unicode counts the
/// character as white space.
pub uninterp spec fn is_whitespace(c: char) -> bool;

/// `char::is_whitespace`, known by the name [`is_whitespace`].
pub assume_specification[ char::is_whitespace ](c: char) -> (white: bool)
    ensures
        white == is_whitespace(c),
;

/// For each character of the text, whether it is white space.
pub open spec fn white_flags(s: Seq<char>) -> Seq<bool> {
    Seq::new(s.len(), |i: int| is_whitespace(s[i]))
}

/// The text without the characters marked as white, with one space wherever
/// marked characters stood between two that are kept.
pub open spec fn collapsed(s: Seq<char>, white: Seq<bool>) -> Seq<char>
    recommends
        white.len() == s.len(),
    decreases s.len(),
{
    if s.len() == 0 {
        Seq::empty()
    } else {
        let before = collapsed(s.drop_last(), white.drop_last());
        if white.last() {
            before
        } else if before.len() > 0 && s.len() >= 2 && white[s.len() - 2] {
            before.push(' ').push(s.last())
        } else {
            before.push(s.last())
        }
    }
}

/// The text with every run of white space inside it turned into one space and
/// the white space at both ends removed.
pub open spec fn sanitized(s: Seq<char>) -> Seq<char> {
    collapsed(s, white_flags(s))
}

/// The cells a character is counted with when a text is cut: its table
/// width, and one for a control character.
pub open spec fn cut_width(c: char) -> nat {
    match char_width(c) {
        Some(w) => w as nat,
        None => 1,
    }
}

/// The widths that the characters of a text are counted with when it is cut.
pub open spec fn cut_widths(s: Seq<char>) -> Seq<nat> {
    Seq::new(s.len(), |i: int| cut_width(s[i]))
}

/// The sum of the widths.
pub open spec fn sum_of(widths: Seq<nat>) -> nat
    decreases widths.len(),
{
    if widths.len() == 0 {
        0
    } else {
        sum_of(widths.drop_last()) + widths.last()
    }
}

/// How many of the widths, from the first on, are kept when `budget` cells
/// are at hand: they are taken one by one until one does not fit.
pub open spec fn kept_of(widths: Seq<nat>, budget: nat) -> nat
    decreases widths.len(),
{
    if widths.len() == 0 {
        0
    } else {
        let before = kept_of(widths.drop_last(), budget);
        if before == widths.len() - 1 && sum_of(widths) <= budget {
            widths.len()
        } else {
            before
        }
    }
}

/// `count` full stops.
pub open spec fn dots(count: nat) -> Seq<char> {
    Seq::new(count, |i: int| '.')
}

/// The text cut to `max_width` cells. A text whose display width fits stays
/// as it is. Up to three cells hold nothing but full stops. Otherwise three
/// full stops follow as many leading characters as fit in front of them.
pub open spec fn truncated(value: Seq<char>, max_width: nat) -> Seq<char> {
    if str_width(value) <= max_width {
        value
    } else if max_width <= 3 {
        dots(max_width)
    } else {
        value.take(kept_of(cut_widths(value), (max_width - 3) as nat) as int) + "..."@
    }
}

/// The line of one note in a listing `max_width` cells wide: nothing at width
/// zero; the timestamp alone, cut, where it does not leave a cell for the
/// content; else the timestamp, two spaces, and the sanitized content cut to
/// the cells that are left.
pub open spec fn memo_line(display_time: Seq<char>, content: Seq<char>, max_width: nat) -> Seq<
    char,
> {
    let prefix = display_time + "  "@;
    if max_width == 0 {
        Seq::empty()
    } else if max_width <= str_width(prefix) {
        truncated(display_time, max_width)
    } else {
        prefix + truncated(sanitized(content), (max_width - str_width(prefix)) as nat)
    }
}

/// What is kept is a run from the start that fits the budget, and the next
/// width, if there is one, would not fit.
pub proof fn lemma_kept_is_longest_fit(widths: Seq<nat>, budget: nat)
    ensures
        kept_of(widths, budget) <= widths.len(),
        sum_of(widths.take(kept_of(widths, budget) as int)) <= budget,
        kept_of(widths, budget) < widths.len() ==> sum_of(
            widths.take(kept_of(widths, budget) as int + 1),
        ) > budget,
    decreases widths.len(),
{
    if widths.len() > 0 {
        let shorter = widths.drop_last();
        lemma_kept_is_longest_fit(shorter, budget);
        let before = kept_of(shorter, budget);
        assert(shorter.take(before as int) =~= widths.take(before as int));
        if before < shorter.len() {
            assert(shorter.take(before as int + 1) =~= widths.take(before as int + 1));
        } else {
            assert(widths.take(widths.len() as int) =~= widths);
            assert(widths.take(before as int) =~= shorter);
        }
    }
}

/// How many of the widths, from the first on, fit into `budget` cells when
/// they are taken one by one until one does not fit.
pub fn kept_within(widths: &Vec<usize>, budget: usize) -> (kept: usize)
    ensures
        kept == kept_of(as_nats(widths@), budget as nat),
        kept <= widths.len(),
{
    let ghost all = as_nats(widths@);
    let mut used: usize = 0;
    let mut kept: usize = 0;
    let mut i: usize = 0;
    while i < widths.len()
        invariant
            i <= widths.len(),
            all == as_nats(widths@),
            kept <= i,
            kept == kept_of(all.take(i as int), budget as nat),
            kept == i ==> used == sum_of(all.take(i as int)),
            used <= budget,
        decreases widths.len() - i,
    {
        proof {
            assert(all.take(i + 1).drop_last() =~= all.take(i as int));
            assert(all.take(i + 1).last() == widths[i as int] as nat);
        }
        if kept == i && widths[i] <= budget - used {
            used = used + widths[i];
            kept = i + 1;
        }
        i += 1;
    }
    proof {
        assert(all.take(all.len() as int) =~= all);
    }
    kept
}

/// The widths that the characters of `value` are counted with when it is
/// cut, one for each character.
pub fn measure_for_cut(value: &str) -> (widths: Vec<usize>)
    ensures
        as_nats(widths@) == cut_widths(value@),
{
    let mut widths: Vec<usize> = Vec::new();
    for c in it: value.chars()
        invariant
            it.seq() == value@,
            widths.len() == it.index(),
            forall|j: int| 0 <= j < it.index() ==> widths[j] as nat == cut_width(value@[j]),
    {
        let ch_width: usize = match unicode_char_width(c) {
            Some(w) => w,
            None => 1,
        };
        widths.push(ch_width);
    }
    proof {
        assert(as_nats(widths@) =~= cut_widths(value@));
    }
    widths
}

/// For each character of `text`, whether it is white space.
pub fn mark_white_space(text: &str) -> (white: Vec<bool>)
    ensures
        white@ == white_flags(text@),
{
    let mut white: Vec<bool> = Vec::new();
    for c in it: text.chars()
        invariant
            it.seq() == text@,
            white.len() == it.index(),
            forall|j: int| 0 <= j < it.index() ==> white[j] == is_whitespace(text@[j]),
    {
        white.push(c.is_whitespace());
    }
    proof {
        assert(white@ =~= white_flags(text@));
    }
    white
}

/// Drops the characters marked as white and puts one space wherever marked
/// characters stood between two that are kept.
pub fn collapse_marked(text: &str, white: &Vec<bool>) -> (clean: String)
    requires
        white.len() == text@.len(),
    ensures
        clean@ == collapsed(text@, white@),
{
    let mut clean = String::new();
    let mut seen: usize = 0;
    for c in it: text.chars()
        invariant
            it.seq() == text@,
            white.len() == text@.len(),
            seen == it.index(),
            clean@ == collapsed(text@.take(seen as int), white@.take(seen as int)),
    {
        proof {
            let k = seen as int;
            assert(text@.take(k + 1).drop_last() =~= text@.take(k));
            assert(white@.take(k + 1).drop_last() =~= white@.take(k));
            assert(text@.take(k + 1).last() == c);
        }
        if !white[seen] {
            if seen > 0 && white[seen - 1] && !clean.as_str().is_empty() {
                clean.push(' ');
            }
            clean.push(c);
        }
        seen = seen + 1;
    }
    proof {
        assert(text@.take(text@.len() as int) =~= text@);
        assert(white@.take(white@.len() as int) =~= white@);
    }
    clean
}

/// Collapses the white space of `content`: runs of it become one space, and
/// none stays at either end.
pub fn sanitize_content(content: &str) -> (clean: String)
    ensures
        clean@ == sanitized(content@),
{
    let white = mark_white_space(content);
    collapse_marked(content, &white)
}

/// The cut form of a text that does not fit `max_width` cells, given the
/// widths its characters are counted with: nothing but full stops for up to
/// three cells, else three full stops behind the leading characters that fit
/// in front of them.
pub fn cut_with_ellipsis(value: &str, widths: &Vec<usize>, max_width: usize) -> (cut: String)
    requires
        widths.len() == value@.len(),
    ensures
        cut@ == if max_width <= 3 {
            dots(max_width as nat)
        } else {
            value@.take(kept_of(as_nats(widths@), (max_width - 3) as nat) as int) + "..."@
        },
{
    if max_width <= 3 {
        let mut stops = String::new();
        let mut i: usize = 0;
        while i < max_width
            invariant
                i <= max_width,
                stops@ == dots(i as nat),
            decreases max_width - i,
        {
            stops.push('.');
            i += 1;
            proof {
                assert(stops@ =~= dots(i as nat));
            }
        }
        return stops;
    }
    let kept: usize = kept_within(widths, max_width - 3);
    let mut cut = String::from_str(value.substring_char(0, kept));
    cut.append("...");
    cut
}

/// Cuts `value` to `max_width` cells, ending in three full stops where
/// something was cut off.
pub fn truncate_with_ellipsis(value: &str, max_width: usize) -> (cut: String)
    ensures
        cut@ == truncated(value@, max_width as nat),
{
    let value_width: usize = unicode_str_width(value);
    if value_width <= max_width {
        return String::from_str(value);
    }
    let widths = measure_for_cut(value);
    proof {
        assert(cut_widths(value@).len() == value@.len());
    }
    cut_with_ellipsis(value, &widths, max_width)
}

/// The line of one note in a listing `max_width` cells wide.
pub fn format_memo_line(display_time: &str, content: &str, max_width: usize) -> (line: String)
    ensures
        line@ == memo_line(display_time@, content@, max_width as nat),
{
    if max_width == 0 {
        return String::new();
    }
    let prefix = concat_str(display_time, "  ");
    let prefix_width: usize = unicode_str_width(prefix.as_str());
    let clean_content = sanitize_content(content);
    if max_width <= prefix_width {
        return truncate_with_ellipsis(display_time, max_width);
    }
    let content_width: usize = max_width - prefix_width;
    let cut = truncate_with_ellipsis(clean_content.as_str(), content_width);
    concat_str(prefix.as_str(), cut.as_str())
}

} // verus!
