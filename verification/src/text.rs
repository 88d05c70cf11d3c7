//! Character-indexed operations on strings.
//!
//! A string is viewed as its sequence of characters; positions count
//! characters, never bytes, so multi-byte text is never split.

use vstd::prelude::*;

verus! {

/// What `str::to_lowercase` returns for the text `s`: the lowercase mapping of
/// the Unicode character database, which depends on nothing but `s`.
pub uninterp spec fn lowercase(s: Seq<char>) -> Seq<char>;

/// Whether `needle` stands in `hay` from position `at` on.
pub open spec fn occurs_at(needle: Seq<char>, hay: Seq<char>, at: int) -> bool {
    0 <= at && at + needle.len() <= hay.len() && hay.subrange(at, at + needle.len()) == needle
}

/// Whether `needle` occurs in `hay` as a contiguous run of characters.
pub open spec fn is_substring(needle: Seq<char>, hay: Seq<char>) -> bool {
    exists|at: int| #[trigger] occurs_at(needle, hay, at)
}

/// The lines joined into one text, with a line feed between neighbours.
pub open spec fn join_lines(lines: Seq<Seq<char>>) -> Seq<char>
    decreases lines.len(),
{
    if lines.len() == 0 {
        Seq::empty()
    } else if lines.len() == 1 {
        lines[0]
    } else {
        join_lines(lines.drop_last()) + seq!['\n'] + lines.last()
    }
}

/// `String::push` appends one character at the end.
pub assume_specification[ String::push ](s: &mut String, ch: char)
    ensures
        final(s)@ == old(s)@.push(ch),
;

/// `str::to_lowercase` returns the lowercase form of the text, here known only
/// by the name [`lowercase`].
pub assume_specification[ str::to_lowercase ](s: &str) -> (r: String)
    ensures
        r@ == lowercase(s@),
;

/// `str::contains` with a string pattern: whether the pattern occurs as a
/// substring.
#[verifier::external_body]
pub(crate) fn contains_str(hay: &str, needle: &str) -> (found: bool)
    ensures
        found == is_substring(needle@, hay@),
{
    hay.contains(needle)
}

/// A UTF-8 encoding has at least one byte for each character.
pub proof fn lemma_encoding_covers_chars(chars: Seq<char>)
    ensures
        chars.len() <= vstd::utf8::encode_utf8(chars).len(),
    decreases chars.len(),
{
    if chars.len() > 0 {
        lemma_encoding_covers_chars(chars.drop_first());
    }
}

/// Every string has at most as many characters as the machine word counts:
/// there are no more of them than bytes in its stored form.
pub fn char_count_fits(s: &str)
    ensures
        s@.len() <= usize::MAX,
{
    let stored: usize = s.as_bytes().len();
    proof {
        lemma_encoding_covers_chars(s@);
    }
}

/// The byte at which the character at position `char_index` starts in the
/// UTF-8 form of `value`: the length of the encoding of all characters before
/// it. A position at or beyond the end gives the length of the whole
/// encoding.
pub fn byte_index_at_char(value: &str, char_index: usize) -> (index: usize)
    ensures
        index == vstd::utf8::encode_utf8(
            value@.take(
                if char_index <= value@.len() {
                    char_index as int
                } else {
                    value@.len() as int
                },
            ),
        ).len(),
{
    let count: usize = value.unicode_len();
    let upto: usize = if char_index < count {
        char_index
    } else {
        count
    };
    value.substring_char(0, upto).as_bytes().len()
}

/// The number of characters of `s`.
pub fn char_count(s: &str) -> (n: usize)
    ensures
        n == s@.len(),
{
    s.unicode_len()
}

/// `s` with `ch` put in front of the character at position `at`.
pub fn insert_char_at(s: &str, at: usize, ch: char) -> (r: String)
    requires
        at <= s@.len(),
    ensures
        r@ == s@.insert(at as int, ch),
        r@.len() <= usize::MAX,
{
    let n: usize = s.unicode_len();
    let mut r = String::from_str(s.substring_char(0, at));
    r.push(ch);
    r.append(s.substring_char(at, n));
    char_count_fits(r.as_str());
    proof {
        assert(r@ =~= s@.insert(at as int, ch));
    }
    r
}

/// `s` without the character at position `at`.
pub fn remove_char_at(s: &str, at: usize) -> (r: String)
    requires
        at < s@.len(),
    ensures
        r@ == s@.remove(at as int),
{
    let n: usize = s.unicode_len();
    let mut r = String::from_str(s.substring_char(0, at));
    r.append(s.substring_char(at + 1, n));
    proof {
        assert(r@ =~= s@.remove(at as int));
    }
    r
}

/// The first `at` characters of `s`, and the rest.
pub fn split_at_char(s: &str, at: usize) -> (parts: (String, String))
    requires
        at <= s@.len(),
    ensures
        parts.0@ == s@.take(at as int),
        parts.1@ == s@.skip(at as int),
{
    let n: usize = s.unicode_len();
    let head = String::from_str(s.substring_char(0, at));
    let tail = String::from_str(s.substring_char(at, n));
    (head, tail)
}

/// `first` followed by `second`.
pub fn concat_str(first: &str, second: &str) -> (r: String)
    ensures
        r@ == first@ + second@,
        r@.len() <= usize::MAX,
{
    let mut r = String::from_str(first);
    r.append(second);
    char_count_fits(r.as_str());
    r
}

/// `s` without its last character; an empty `s` stays empty.
pub fn drop_last_char(s: &str) -> (r: String)
    ensures
        r@ == if s@.len() == 0 {
            s@
        } else {
            s@.drop_last()
        },
{
    let n: usize = s.unicode_len();
    if n == 0 {
        String::from_str(s)
    } else {
        String::from_str(s.substring_char(0, n - 1))
    }
}

/// The lines joined by line feeds, as `[String]::join` does with `"\n"`.
pub fn join_with_newlines(lines: &Vec<String>) -> (r: String)
    ensures
        r@ == join_lines(lines.deep_view()),
{
    let mut r = String::new();
    let mut i: usize = 0;
    while i < lines.len()
        invariant
            i <= lines.len(),
            r@ == join_lines(lines.deep_view().take(i as int)),
        decreases lines.len() - i,
    {
        proof {
            let before = lines.deep_view().take(i as int);
            let after = lines.deep_view().take(i + 1);
            assert(after.drop_last() =~= before);
            assert(after.last() == lines[i as int]@);
            assert(Seq::<char>::empty() + lines[i as int]@ =~= lines[i as int]@);
        }
        if i > 0 {
            r.push('\n');
        }
        r.append(lines[i].as_str());
        i += 1;
    }
    proof {
        assert(lines.deep_view().take(lines.len() as int) =~= lines.deep_view());
    }
    r
}

} // verus!
