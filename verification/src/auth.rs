//! Where the login service is found.

use vstd::prelude::*;

verus! {

/// The address of the login service where none is configured.
pub fn default_supabase_url() -> (url: &'static str)
    ensures
        url@ == "https://your-project.supabase.co"@,
{
    "https://your-project.supabase.co"
}

/// The public key of the login service where none is configured.
pub fn default_supabase_anon_key() -> (key: &'static str)
    ensures
        key@ == "your_anon_key"@,
{
    "your_anon_key"
}

/// The text without the slashes at its end.
pub open spec fn without_trailing_slashes(s: Seq<char>) -> Seq<char>
    decreases s.len(),
{
    if s.len() > 0 && s.last() == '/' {
        without_trailing_slashes(s.drop_last())
    } else {
        s
    }
}

/// The address that a password login is posted to: the base address without
/// the slashes at its end, then the path of the token endpoint.
pub open spec fn login_url_of(base: Seq<char>) -> Seq<char> {
    without_trailing_slashes(base) + "/auth/v1/token?grant_type=password"@
}

/// Nothing is cut after a character that is no slash.
pub proof fn lemma_trailing_slashes_stop_at_other_char(s: Seq<char>, keep: int)
    requires
        0 <= keep <= s.len(),
        keep > 0 ==> s[keep - 1] != '/',
        forall|i: int| keep <= i < s.len() ==> s[i] == '/',
    ensures
        without_trailing_slashes(s) == s.take(keep),
    decreases s.len() - keep,
{
    if keep < s.len() {
        lemma_trailing_slashes_stop_at_other_char(s.drop_last(), keep);
        assert(s.drop_last().take(keep) =~= s.take(keep));
    } else {
        assert(s.take(keep) =~= s);
    }
}

/// The address that a password login is posted to.
pub fn login_url(supabase_url: &str) -> (url: String)
    ensures
        url@ == login_url_of(supabase_url@),
{
    let total: usize = supabase_url.unicode_len();
    let mut keep: usize = 0;
    let mut seen: usize = 0;
    for c in it: supabase_url.chars()
        invariant
            it.seq() == supabase_url@,
            total == supabase_url@.len(),
            seen == it.index(),
            keep <= seen,
            keep > 0 ==> supabase_url@[keep - 1] != '/',
            forall|i: int| keep <= i < seen ==> supabase_url@[i] == '/',
    {
        seen = seen + 1;
        if c != '/' {
            keep = seen;
        }
    }
    proof {
        lemma_trailing_slashes_stop_at_other_char(supabase_url@, keep as int);
    }
    let mut url = String::from_str(supabase_url.substring_char(0, keep));
    url.append("/auth/v1/token?grant_type=password");
    url
}

} // verus!
