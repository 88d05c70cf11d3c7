//! Notes as storage knows them.

use vstd::prelude::*;
use vstd::std_specs::convert::FromSpecImpl;
use uuid::Uuid;

verus! {

/// The identifier of a stored note.
#[derive(Clone, Debug)]
pub struct MemoId(pub String);

/// A stored note.
#[derive(Clone, Debug)]
pub struct Memo {
    pub memo_id: MemoId,
    pub content: String,
    pub created_at: String,
    pub updated_at: String,
}

/// A note that is about to be stored.
#[derive(Clone, Debug)]
pub struct NewMemo {
    pub content: String,
}

/// Whether `c` is a digit or one of the letters `a` to `f`.
pub open spec fn is_lower_hex(c: char) -> bool {
    (0x30 <= c as u32 && c as u32 <= 0x39) || (0x61 <= c as u32 && c as u32 <= 0x66)
}

/// Whether `s` has the form of a random identifier: thirty-two lower-case
/// hexadecimal digits in groups of eight, four, four, four and twelve with a
/// hyphen between the groups, the third group starting with the version digit
/// `4` and the fourth with one of `8`, `9`, `a`, `b`.
pub open spec fn is_random_uuid_text(s: Seq<char>) -> bool {
    &&& s.len() == 36
    &&& forall|i: int|
        0 <= i < 36 ==> if i == 8 || i == 13 || i == 18 || i == 23 {
            #[trigger] s[i] == '-'
        } else {
            is_lower_hex(s[i])
        }
    &&& s[14] == '4'
    &&& (s[19] == '8' || s[19] == '9' || s[19] == 'a' || s[19] == 'b')
}

/// `Uuid::new_v4`, written out by its `to_string`: an identifier drawn from
/// the operating system's random numbers. Which one comes is open; its form
/// is not: `new_v4` sets the version and variant bits, and `to_string` writes
/// the hyphenated lower-case form.
#[verifier::external_body]
fn random_uuid_text() -> (text: String)
    ensures
        is_random_uuid_text(text@),
{
    Uuid::new_v4().to_string()
}

/// The row limit handed to storage: the count where one is given, and -1,
/// which storage reads as no limit, where none is.
pub open spec fn limit_value_of(limit: Option<usize>) -> int {
    match limit {
        Some(count) => if count <= i64::MAX {
            count as int
        } else {
            -1
        },
        None => -1,
    }
}

/// The row limit for a fetch of at most `limit` notes. A count beyond what
/// storage can take asks for all notes.
pub fn limit_value(limit: Option<usize>) -> (value: i64)
    ensures
        value == limit_value_of(limit),
{
    match limit {
        Some(count) => {
            let wide: u64 = count as u64;
            if wide <= 0x7fff_ffff_ffff_ffffu64 {
                wide as i64
            } else {
                -1
            }
        },
        None => -1,
    }
}

impl MemoId {
    /// A fresh random identifier, in the text form of a version 4 UUID.
    pub fn new() -> (id: Self)
        ensures
            is_random_uuid_text(id.0@),
    {
        MemoId(random_uuid_text())
    }

    /// The identifier as text.
    pub fn as_str(&self) -> (text: &str)
        ensures
            text@ == self.0@,
    {
        self.0.as_str()
    }
}

impl From<String> for MemoId {
    fn from(value: String) -> (id: Self) {
        MemoId(value)
    }
}

impl FromSpecImpl<String> for MemoId {
    open spec fn obeys_from_spec() -> bool {
        true
    }

    open spec fn from_spec(value: String) -> Self {
        MemoId(value)
    }
}

impl NewMemo {
    /// A note with the given content.
    pub fn new(content: String) -> (memo: Self)
        ensures
            memo.content == content,
    {
        NewMemo { content }
    }
}

} // verus!
