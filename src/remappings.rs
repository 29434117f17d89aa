//! The content of the remappings file: every remapping on a line of its own,
//! sorted and without repeats.
use vstd::prelude::*;
use vstd::relations::*;
use vstd::seq_lib::lemma_sorted_unique;
use vstd::string::*;
use vstd::utf8::char_u32_cast;

verus! {

/// Lexicographic order on character sequences, by code point.
pub open spec fn lex_le(a: Seq<char>, b: Seq<char>) -> bool
    decreases a.len(),
{
    if a.len() == 0 {
        true
    } else if b.len() == 0 {
        false
    } else if a[0] != b[0] {
        (a[0] as u32) < (b[0] as u32)
    } else {
        lex_le(a.drop_first(), b.drop_first())
    }
}

/// [`lex_le`] as a relation.
pub open spec fn lex_order() -> spec_fn(Seq<char>, Seq<char>) -> bool {
    |a: Seq<char>, b: Seq<char>| lex_le(a, b)
}

/// The character sequences of some strings.
pub open spec fn views(s: Seq<String>) -> Seq<Seq<char>> {
    s.map_values(|x: String| x@)
}

/// A sorted sequence with each run of equal neighbours kept once.
pub open spec fn dedup(s: Seq<Seq<char>>) -> Seq<Seq<char>>
    decreases s.len(),
{
    if s.len() == 0 {
        s
    } else if s.len() >= 2 && s[s.len() - 2] == s.last() {
        dedup(s.drop_last())
    } else {
        dedup(s.drop_last()).push(s.last())
    }
}

/// The lines joined with a newline between neighbours, and none at the end.
pub open spec fn join_lines(s: Seq<Seq<char>>) -> Seq<char>
    decreases s.len(),
{
    if s.len() == 0 {
        Seq::empty()
    } else if s.len() == 1 {
        s[0]
    } else {
        join_lines(s.drop_last()) + seq!['\n'] + s.last()
    }
}

/// The remappings file's content for these remappings, in any order.
pub open spec fn remappings_text(r: Seq<Seq<char>>) -> Seq<char> {
    join_lines(dedup(r.sort_by(lex_order())))
}

proof fn lemma_lex_refl(a: Seq<char>)
    ensures
        lex_le(a, a),
    decreases a.len(),
{
    if a.len() > 0 {
        lemma_lex_refl(a.drop_first());
    }
}

proof fn lemma_lex_antisym(a: Seq<char>, b: Seq<char>)
    requires
        lex_le(a, b),
        lex_le(b, a),
    ensures
        a == b,
    decreases a.len(),
{
    if a.len() > 0 && b.len() > 0 {
        lemma_lex_antisym(a.drop_first(), b.drop_first());
        assert(a =~= seq![a[0]] + a.drop_first());
        assert(b =~= seq![b[0]] + b.drop_first());
    } else {
        assert(a =~= b);
    }
}

proof fn lemma_lex_trans(a: Seq<char>, b: Seq<char>, c: Seq<char>)
    requires
        lex_le(a, b),
        lex_le(b, c),
    ensures
        lex_le(a, c),
    decreases a.len(),
{
    if a.len() > 0 && b.len() > 0 && c.len() > 0 {
        if a[0] == b[0] && b[0] == c[0] {
            lemma_lex_trans(a.drop_first(), b.drop_first(), c.drop_first());
        }
    }
}

proof fn lemma_lex_total(a: Seq<char>, b: Seq<char>)
    ensures
        lex_le(a, b) || lex_le(b, a),
    decreases a.len(),
{
    if a.len() > 0 && b.len() > 0 {
        if a[0] == b[0] {
            lemma_lex_total(a.drop_first(), b.drop_first());
        } else {
            char_u32_cast(a[0], a[0] as u32);
            char_u32_cast(b[0], b[0] as u32);
        }
    }
}

/// [`lex_le`] is a total order.
pub proof fn lemma_lex_total_ordering()
    ensures
        total_ordering(lex_order()),
{
    assert forall|a: Seq<char>| #[trigger] lex_order()(a, a) by {
        lemma_lex_refl(a);
    }
    assert forall|a: Seq<char>, b: Seq<char>|
        #[trigger] lex_order()(a, b) && #[trigger] lex_order()(b, a) implies a == b by {
        lemma_lex_antisym(a, b);
    }
    assert forall|a: Seq<char>, b: Seq<char>, c: Seq<char>|
        #[trigger] lex_order()(a, b) && #[trigger] lex_order()(b, c) implies lex_order()(
        a,
        c,
    ) by {
        lemma_lex_trans(a, b, c);
    }
    assert forall|a: Seq<char>, b: Seq<char>|
        #[trigger] lex_order()(a, b) || #[trigger] lex_order()(b, a) by {
        lemma_lex_total(a, b);
    }
}

/// Relies on `slice::sort` for `String`: the result is a permutation of the
/// input, ordered by `Ord for str`, which compares the UTF-8 bytes
/// lexicographically; on UTF-8 that is the code point order of [`lex_le`].
#[verifier::external_body]
fn sort_strings(v: &mut Vec<String>)
    ensures
        views(final(v)@).to_multiset() == views(old(v)@).to_multiset(),
        sorted_by(views(final(v)@), lex_order()),
{
    v.sort();
}

/// The same remappings, found in whatever order, give the same file content.
pub proof fn remappings_text_order_independent(a: Seq<Seq<char>>, b: Seq<Seq<char>>)
    requires
        a.to_multiset() == b.to_multiset(),
    ensures
        remappings_text(a) == remappings_text(b),
{
    lemma_lex_total_ordering();
    a.lemma_sort_by_ensures(lex_order());
    b.lemma_sort_by_ensures(lex_order());
    lemma_sorted_unique(a.sort_by(lex_order()), b.sort_by(lex_order()), lex_order());
}

/// The content of the remappings file for the remappings found, or `None`
/// where none was found and no file is to be written.
pub fn remappings_content(found: Vec<String>) -> (r: Option<String>)
    ensures
        r is None <==> found@.len() == 0,
        r matches Some(c) ==> c@ == remappings_text(views(found@)),
{
    if found.len() == 0 {
        return None;
    }
    let ghost orig = views(found@);
    let mut v = found;
    sort_strings(&mut v);
    proof {
        lemma_lex_total_ordering();
        orig.lemma_sort_by_ensures(lex_order());
        lemma_sorted_unique(views(v@), orig.sort_by(lex_order()), lex_order());
    }
    let ghost sorted = views(v@);
    let n = v.len();
    let mut lines: Vec<String> = Vec::new();
    let mut i: usize = 0;
    while i < n
        invariant
            n == v@.len(),
            sorted == views(v@),
            i <= n,
            views(lines@) == dedup(sorted.take(i as int)),
        decreases n - i,
    {
        assert(sorted.take(i + 1).drop_last() =~= sorted.take(i as int));
        if i > 0 && v[i - 1] == v[i] {
        } else {
            lines.push(v[i].clone());
            assert(views(lines@) =~= dedup(sorted.take(i as int)).push(sorted[i as int]));
        }
        i = i + 1;
    }
    assert(sorted.take(n as int) =~= sorted);
    let ghost ls = views(lines@);
    let m = lines.len();
    let mut out = String::new();
    let mut j: usize = 0;
    while j < m
        invariant
            m == lines@.len(),
            ls == views(lines@),
            j <= m,
            out@ == join_lines(ls.take(j as int)),
        decreases m - j,
    {
        assert(ls.take(j + 1).drop_last() =~= ls.take(j as int));
        if j > 0 {
            proof {
                reveal_strlit("\n");
            }
            out.append("\n");
        }
        out.append(lines[j].as_str());
        j = j + 1;
    }
    assert(ls.take(m as int) =~= ls);
    Some(out)
}

} // verus!
