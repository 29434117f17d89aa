//! Turning a template reference into a fetchable URL, and the message of the
//! single commit that replaces a fetched template's history.
use vstd::prelude::*;
use vstd::string::*;

verus! {

/// `p` occurs in `s` starting at position `i`.
pub open spec fn occurs_at(s: Seq<char>, p: Seq<char>, i: int) -> bool {
    0 <= i && i + p.len() <= s.len() && s.subrange(i, i + p.len()) == p
}

/// `p` occurs somewhere in `s`.
pub open spec fn has_infix(s: Seq<char>, p: Seq<char>) -> bool {
    exists|i: int| occurs_at(s, p, i)
}

/// `s` begins with `p`.
pub open spec fn has_prefix(s: Seq<char>, p: Seq<char>) -> bool {
    occurs_at(s, p, 0)
}

/// The URL that a template reference stands for: a reference that names a
/// scheme is already a URL, one that starts with the host is given a scheme,
/// and anything else is an `org/repo` shorthand on that host.
pub open spec fn template_url(r: Seq<char>) -> Seq<char> {
    if has_infix(r, "://"@) {
        r
    } else if has_prefix(r, "github.com/"@) {
        "https://"@ + r
    } else {
        "https://github.com/"@ + r
    }
}

/// The message of the commit that stands for a fetched template: it names the
/// template's URL and the commit that was fetched.
pub open spec fn template_commit_message_spec(url: Seq<char>, hash: Seq<char>) -> Seq<char> {
    "chore: init from "@ + url + " at "@ + hash
}

/// Whether `p` occurs in `s` at position `i`.
fn occurs_at_exec(s: &str, p: &str, i: usize) -> (r: bool)
    ensures
        r == occurs_at(s@, p@, i as int),
{
    let n = s.unicode_len();
    let m = p.unicode_len();
    if i > n || m > n - i {
        return false;
    }
    let mut j: usize = 0;
    while j < m
        invariant
            i + m <= n,
            n == s@.len(),
            m == p@.len(),
            j <= m,
            forall|k: int| 0 <= k < j ==> s@[i + k] == p@[k],
        decreases m - j,
    {
        if s.get_char(i + j) != p.get_char(j) {
            assert(s@.subrange(i as int, i + m)[j as int] != p@[j as int]);
            return false;
        }
        j = j + 1;
    }
    assert(s@.subrange(i as int, i + m) =~= p@);
    true
}

/// Whether `p` occurs anywhere in `s`.
fn contains_exec(s: &str, p: &str) -> (r: bool)
    ensures
        r == has_infix(s@, p@),
{
    let n = s.unicode_len();
    let m = p.unicode_len();
    if m > n {
        return false;
    }
    let mut i: usize = 0;
    let last = n - m;
    while i < last
        invariant
            last == n - m,
            n == s@.len(),
            m == p@.len(),
            m <= n,
            forall|k: int| 0 <= k < i ==> !occurs_at(s@, p@, k),
        decreases last - i,
    {
        if occurs_at_exec(s, p, i) {
            return true;
        }
        i = i + 1;
    }
    occurs_at_exec(s, p, last)
}

/// Resolves a template reference to the URL it is fetched from.
pub fn resolve_template_url(reference: &str) -> (url: String)
    ensures
        url@ == template_url(reference@),
{
    if contains_exec(reference, "://") {
        String::from_str(reference)
    } else if occurs_at_exec(reference, "github.com/", 0) {
        String::from_str("https://").concat(reference)
    } else {
        String::from_str("https://github.com/").concat(reference)
    }
}

/// The message of the commit that replaces a fetched template's history.
pub fn template_commit_message(url: &str, hash: &str) -> (msg: String)
    ensures
        msg@ == template_commit_message_spec(url@, hash@),
{
    String::from_str("chore: init from ").concat(url).concat(" at ").concat(hash)
}

/// The commit message of a collapsed template names both the template's URL
/// and the hash of the commit that was fetched.
pub proof fn template_message_records_provenance(url: Seq<char>, hash: Seq<char>)
    ensures
        has_infix(template_commit_message_spec(url, hash), url),
        has_infix(template_commit_message_spec(url, hash), hash),
{
    let msg = template_commit_message_spec(url, hash);
    let a = "chore: init from "@;
    let b = " at "@;
    let i: int = a.len() as int;
    assert(msg.subrange(i, i + url.len()) =~= url);
    assert(occurs_at(msg, url, i));
    let j: int = i + url.len() + b.len();
    assert(msg.subrange(j, j + hash.len()) =~= hash);
    assert(occurs_at(msg, hash, j));
}

} // verus!
