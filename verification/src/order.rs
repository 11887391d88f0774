//! Report ordering: entries sort by state priority, then by path.

use vstd::prelude::*;
use crate::link::Link;

verus! {

/// Lexicographic order on character sequences, by code point: the
/// empty sequence comes first, and a proper prefix precedes its
/// extensions.
pub open spec fn lex_le(a: Seq<char>, b: Seq<char>) -> bool
    decreases a.len(),
{
    if a.len() == 0 {
        true
    } else if b.len() == 0 {
        false
    } else if (a[0] as u32) < (b[0] as u32) {
        true
    } else if (b[0] as u32) < (a[0] as u32) {
        false
    } else {
        lex_le(a.drop_first(), b.drop_first())
    }
}

/// Any two character sequences are ordered one way or the other.
pub proof fn lemma_lex_le_total(a: Seq<char>, b: Seq<char>)
    ensures
        lex_le(a, b) || lex_le(b, a),
    decreases a.len(),
{
    if a.len() == 0 {
    } else if b.len() == 0 {
    } else if (a[0] as u32) == (b[0] as u32) {
        lemma_lex_le_total(a.drop_first(), b.drop_first());
    }
}

/// The lexicographic order is transitive.
pub proof fn lemma_lex_le_trans(a: Seq<char>, b: Seq<char>, c: Seq<char>)
    ensures
        lex_le(a, b) && lex_le(b, c) ==> lex_le(a, c),
    decreases a.len(),
{
    if a.len() == 0 {
    } else if b.len() == 0 {
    } else if c.len() == 0 {
    } else if (a[0] as u32) == (b[0] as u32) && (b[0] as u32) == (c[0] as u32) {
        lemma_lex_le_trans(a.drop_first(), b.drop_first(), c.drop_first());
    }
}

/// Compares two strings in the lexicographic order of their
/// characters.
pub fn str_le(a: &str, b: &str) -> (r: bool)
    ensures
        r == lex_le(a@, b@),
{
    let n = a.unicode_len();
    let m = b.unicode_len();
    proof {
        assert(a@.skip(0) =~= a@);
        assert(b@.skip(0) =~= b@);
    }
    let mut i: usize = 0;
    loop
        invariant
            i <= n,
            i <= m,
            n == a@.len(),
            m == b@.len(),
            lex_le(a@, b@) == lex_le(a@.skip(i as int), b@.skip(i as int)),
        decreases n - i,
    {
        if i == n {
            return true;
        }
        if i == m {
            proof {
                assert(a@.skip(i as int).len() > 0);
            }
            return false;
        }
        let ca = a.get_char(i);
        let cb = b.get_char(i);
        proof {
            assert(a@.skip(i as int)[0] == a@[i as int]);
            assert(b@.skip(i as int)[0] == b@[i as int]);
        }
        if (ca as u32) < (cb as u32) {
            return true;
        }
        if (cb as u32) < (ca as u32) {
            return false;
        }
        proof {
            assert(a@.skip(i as int).drop_first() =~= a@.skip(i + 1));
            assert(b@.skip(i as int).drop_first() =~= b@.skip(i + 1));
        }
        i += 1;
    }
}

/// The sort key an entry's state contributes: the priority rank of
/// its initial state, or of its effective state when `by_result`
/// holds.
pub open spec fn key_rank(by_result: bool, l: Link) -> int {
    if by_result {
        l.effective_spec().rank_spec()
    } else {
        l.state.rank_spec()
    }
}

/// The report order on entries: state priority first, path as the
/// tie-break.
pub open spec fn link_le(by_result: bool, a: Link, b: Link) -> bool {
    key_rank(by_result, a) < key_rank(by_result, b) || (key_rank(by_result, a) == key_rank(
        by_result,
        b,
    ) && lex_le(a.path@, b.path@))
}

/// The entries of `s` stand in report order.
pub open spec fn sorted_links(by_result: bool, s: Seq<Link>) -> bool {
    forall|p: int, q: int| 0 <= p < q < s.len() ==> link_le(by_result, s[p], s[q])
}

/// Any two entries are ordered one way or the other.
pub proof fn lemma_link_le_total(by_result: bool, a: Link, b: Link)
    ensures
        link_le(by_result, a, b) || link_le(by_result, b, a),
{
    lemma_lex_le_total(a.path@, b.path@);
}

/// The report order is transitive.
pub proof fn lemma_link_le_trans(by_result: bool, a: Link, b: Link, c: Link)
    ensures
        link_le(by_result, a, b) && link_le(by_result, b, c) ==> link_le(by_result, a, c),
{
    lemma_lex_le_trans(a.path@, b.path@, c.path@);
}

/// Compares two entries in the report order.
fn link_le_exec(by_result: bool, a: &Link, b: &Link) -> (r: bool)
    ensures
        r == link_le(by_result, *a, *b),
{
    let ra = if by_result {
        a.effective_state().rank()
    } else {
        a.state.rank()
    };
    let rb = if by_result {
        b.effective_state().rank()
    } else {
        b.state.rank()
    };
    if ra < rb {
        true
    } else if rb < ra {
        false
    } else {
        str_le(a.path.as_str(), b.path.as_str())
    }
}

/// Sorts the entries into report order by insertion, preserving
/// exactly the collection of entries.
fn insertion_sort(v: &mut Vec<Link>, by_result: bool)
    ensures
        final(v)@.len() == old(v)@.len(),
        final(v)@.to_multiset() == old(v)@.to_multiset(),
        sorted_links(by_result, final(v)@),
{
    broadcast use vstd::seq_lib::group_to_multiset_ensures;

    let mut i: usize = 1;
    while i < v.len()
        invariant
            1 <= i,
            v@.len() == old(v)@.len(),
            v@.to_multiset() == old(v)@.to_multiset(),
            forall|p: int, q: int|
                0 <= p < q < i && q < v@.len() ==> link_le(by_result, v@[p], v@[q]),
        decreases v@.len() - i,
    {
        let ghost pre = v@;
        let x = v.remove(i);
        let ghost mid = v@;
        proof {
            assert(x == pre[i as int]);
            assert(forall|k: int| 0 <= k < i ==> mid[k] == pre[k]);
        }
        let mut j: usize = 0;
        while j < i
            invariant
                j <= i,
                i <= v@.len(),
                v@ == mid,
                forall|k: int| 0 <= k < j ==> link_le(by_result, v@[k], x),
            ensures
                j <= i,
                v@ == mid,
                forall|k: int| 0 <= k < j ==> link_le(by_result, mid[k], x),
                j < i ==> !link_le(by_result, mid[j as int], x),
            decreases i - j,
        {
            if !link_le_exec(by_result, &v[j], &x) {
                break ;
            }
            j += 1;
        }
        proof {
            if j < i {
                lemma_link_le_total(by_result, mid[j as int], x);
            }
        }
        v.insert(j, x);
        proof {
            let post = v@;
            assert(post == mid.insert(j as int, x));
            assert(post.to_multiset() == pre.to_multiset()) by {
                vstd::seq_lib::to_multiset_remove(pre, i as int);
                vstd::seq_lib::to_multiset_insert(mid, j as int, x);
                assert(mid.to_multiset() == pre.to_multiset().remove(x));
                assert(post.to_multiset() == mid.to_multiset().insert(x));
                assert(pre.to_multiset().count(x) > 0) by {
                    vstd::seq_lib::to_multiset_contains(pre, x);
                    assert(pre[i as int] == x);
                    assert(pre.contains(x));
                }
                assert(post.to_multiset() =~= pre.to_multiset());
            }
            assert forall|p: int, q: int| 0 <= p < q < i + 1 implies link_le(
                by_result,
                post[p],
                post[q],
            ) by {
                if q < j {
                    assert(post[p] == mid[p] && post[q] == mid[q]);
                } else if q == j {
                    assert(post[q] == x && post[p] == mid[p]);
                } else {
                    // q > j, so post[q] == mid[q - 1] and x <= mid[j] when j < q - 1
                    assert(post[q] == mid[q - 1]);
                    if p < j {
                        assert(post[p] == mid[p]);
                        assert(link_le(by_result, mid[p], mid[q - 1]));
                    } else if p == j {
                        assert(post[p] == x);
                        assert(link_le(by_result, x, mid[j as int]));
                        if j < q - 1 {
                            assert(link_le(by_result, mid[j as int], mid[q - 1]));
                            lemma_link_le_trans(by_result, x, mid[j as int], mid[q - 1]);
                        }
                    } else {
                        assert(post[p] == mid[p - 1]);
                        assert(link_le(by_result, mid[p - 1], mid[q - 1]));
                    }
                }
            }
        }
        i += 1;
    }
}

/// Sorts entries by `(initial state, path)`, the order in which a
/// freshly classified set is handed on.
pub fn sort_by_state(v: &mut Vec<Link>)
    ensures
        final(v)@.len() == old(v)@.len(),
        final(v)@.to_multiset() == old(v)@.to_multiset(),
        sorted_links(false, final(v)@),
{
    insertion_sort(v, false);
}

/// Sorts entries for the final report, by `(effective state, path)`:
/// each entry counts under the result of its corrective attempt when
/// one was made, under its initial state otherwise.
pub fn sort_by_result(v: &mut Vec<Link>)
    ensures
        final(v)@.len() == old(v)@.len(),
        final(v)@.to_multiset() == old(v)@.to_multiset(),
        sorted_links(true, final(v)@),
{
    insertion_sort(v, true);
}

} // verus!
