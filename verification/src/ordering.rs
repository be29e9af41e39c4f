use vstd::prelude::*;

use crate::text::chars_of;

verus! {

/// `a` comes strictly before `b` in lexicographic order of character codes,
/// which is the order `String`'s `Ord` gives (UTF-8 keeps code-point order).
pub open spec fn text_lt(a: Seq<char>, b: Seq<char>) -> bool
    decreases a.len(),
{
    if b.len() == 0 {
        false
    } else if a.len() == 0 {
        true
    } else if a[0] != b[0] {
        (a[0] as int) < (b[0] as int)
    } else {
        text_lt(a.drop_first(), b.drop_first())
    }
}

/// Of two different texts exactly one comes first; no text comes before itself.
pub proof fn lemma_text_lt_trichotomy(a: Seq<char>, b: Seq<char>)
    ensures
        !text_lt(a, a),
        a != b ==> (text_lt(a, b) || text_lt(b, a)),
        !(text_lt(a, b) && text_lt(b, a)),
    decreases a.len(),
{
    if a.len() > 0 {
        lemma_text_lt_trichotomy(a.drop_first(), a.drop_first());
    }
    if a.len() > 0 && b.len() > 0 {
        lemma_text_lt_trichotomy(a.drop_first(), b.drop_first());
        if a[0] == b[0] && a != b {
            assert(a.drop_first() != b.drop_first()) by {
                if a.drop_first() == b.drop_first() {
                    assert(a =~= seq![a[0]] + a.drop_first());
                    assert(b =~= seq![b[0]] + b.drop_first());
                }
            }
        }
    } else if a.len() == 0 && b.len() == 0 {
        assert(a =~= b);
    }
}

/// Text order is transitive.
pub proof fn lemma_text_lt_transitive(a: Seq<char>, b: Seq<char>, c: Seq<char>)
    requires
        text_lt(a, b),
        text_lt(b, c),
    ensures
        text_lt(a, c),
    decreases a.len(),
{
    if a.len() > 0 && b.len() > 0 && c.len() > 0 && a[0] == b[0] && b[0] == c[0] {
        lemma_text_lt_transitive(a.drop_first(), b.drop_first(), c.drop_first());
    }
}

/// Whether `a` comes strictly before `b`.
pub fn text_less(a: &str, b: &str) -> (r: bool)
    ensures
        r == text_lt(a@, b@),
{
    let x = chars_of(a);
    let y = chars_of(b);
    let n = x.len();
    let m = y.len();
    let mut i: usize = 0;
    assert(x@.skip(0) =~= x@ && y@.skip(0) =~= y@);
    while i < n && i < m && x[i] == y[i]
        invariant
            n == x@.len(),
            m == y@.len(),
            i <= n,
            i <= m,
            text_lt(x@, y@) == text_lt(x@.skip(i as int), y@.skip(i as int)),
        decreases n - i,
    {
        proof {
            assert(x@.skip(i as int).drop_first() =~= x@.skip(i + 1));
            assert(y@.skip(i as int).drop_first() =~= y@.skip(i + 1));
        }
        i = i + 1;
    }
    proof {
        if i < n && i < m {
            assert(x@.skip(i as int)[0] == x@[i as int]);
            assert(y@.skip(i as int)[0] == y@[i as int]);
        }
    }
    if i >= m {
        false
    } else if i >= n {
        true
    } else {
        x[i] < y[i]
    }
}

/// Index `i` of `titles` goes before index `j`: a smaller title first, equal
/// titles in their original order.
pub open spec fn index_before(titles: Seq<String>, i: int, j: int) -> bool {
    text_lt(titles[i]@, titles[j]@) || (titles[i]@ == titles[j]@ && i < j)
}

/// `order` lists every index of `titles` once, sorted by title and, among
/// equal titles, by index (the order of a stable sort by title).
pub open spec fn sorted_by_title(titles: Seq<String>, order: Seq<usize>) -> bool {
    &&& order.len() == titles.len()
    &&& forall|a: int| 0 <= a < order.len() ==> #[trigger] order[a] < titles.len()
    &&& forall|a: int, b: int| 0 <= a < b < order.len() ==> index_before(titles, #[trigger] order[a] as int, #[trigger] order[b] as int)
}

/// Sorts the indices of `titles` by title, stably.
pub fn title_order(titles: &Vec<String>) -> (r: Vec<usize>)
    ensures
        sorted_by_title(titles@, r@),
        forall|k: usize| k < titles@.len() ==> #[trigger] r@.contains(k),
{
    let n = titles.len();
    let mut out: Vec<usize> = Vec::new();
    for i in 0..n
        invariant
            n == titles@.len(),
            out@.len() == i,
            forall|a: int| 0 <= a < out@.len() ==> #[trigger] out@[a] < i,
            forall|a: int, b: int| 0 <= a < b < out@.len() ==> index_before(titles@, #[trigger] out@[a] as int, #[trigger] out@[b] as int),
            forall|k: usize| k < i ==> #[trigger] out@.contains(k),
    {
        let len = out.len();
        let mut p: usize = 0;
        while p < len && !text_less(titles[i].as_str(), titles[out[p]].as_str())
            invariant
                len == out@.len(),
                p <= len,
                i < n,
                n == titles@.len(),
                forall|a: int| 0 <= a < out@.len() ==> #[trigger] out@[a] < i,
                forall|a: int| 0 <= a < p ==> index_before(titles@, #[trigger] out@[a] as int, i as int),
            decreases len - p,
        {
            proof {
                let e = out@[p as int] as int;
                lemma_text_lt_trichotomy(titles@[e]@, titles@[i as int]@);
            }
            p = p + 1;
        }
        proof {
            if p < len {
                let e0 = out@[p as int] as int;
                assert forall|a: int| p <= a < len implies index_before(titles@, i as int, #[trigger] out@[a] as int) by {
                    let e = out@[a] as int;
                    if a > p {
                        assert(index_before(titles@, e0, e));
                        if text_lt(titles@[e0]@, titles@[e]@) {
                            lemma_text_lt_transitive(titles@[i as int]@, titles@[e0]@, titles@[e]@);
                        }
                    }
                }
            }
        }
        let ghost before = out@;
        out.insert(p, i);
        proof {
            assert forall|a: int, b: int| 0 <= a < b < out@.len() implies index_before(titles@, #[trigger] out@[a] as int, #[trigger] out@[b] as int) by {
                if a < p && b < p {
                    assert(out@[a] == before[a] && out@[b] == before[b]);
                } else if a < p && b == p {
                    assert(out@[a] == before[a]);
                } else if a < p && b > p {
                    assert(out@[a] == before[a] && out@[b] == before[b - 1]);
                } else if a == p {
                    assert(out@[b] == before[b - 1]);
                } else {
                    assert(out@[a] == before[a - 1] && out@[b] == before[b - 1]);
                }
            }
            assert forall|k: usize| k < i + 1 implies #[trigger] out@.contains(k) by {
                if k == i {
                    assert(out@[p as int] == i);
                } else {
                    assert(before.contains(k));
                    let w = choose|w: int| 0 <= w < before.len() && before[w] == k;
                    if w < p {
                        assert(out@[w] == before[w]);
                    } else {
                        assert(out@[w + 1] == before[w]);
                    }
                }
            }
        }
    }
    out
}

/// A text comes before every longer text that it begins.
pub proof fn law_prefix_comes_first(a: Seq<char>, b: Seq<char>)
    requires
        a.len() < b.len(),
        b.take(a.len() as int) == a,
    ensures
        text_lt(a, b),
    decreases a.len(),
{
    if a.len() > 0 {
        assert(a[0] == b.take(a.len() as int)[0]);
        assert(b.drop_first().take(a.drop_first().len() as int) =~= a.drop_first()) by {
            assert forall|i: int| 0 <= i < a.len() - 1 implies b.drop_first()[i] == a.drop_first()[i] by {
                assert(b.take(a.len() as int)[i + 1] == b[i + 1]);
            }
        }
        law_prefix_comes_first(a.drop_first(), b.drop_first());
    }
}

/// Of two texts that agree up to position `i` and differ there, the one with
/// the smaller character code at `i` comes first.
pub proof fn law_first_difference_decides(a: Seq<char>, b: Seq<char>, i: int)
    requires
        0 <= i < a.len(),
        i < b.len(),
        a.take(i) == b.take(i),
        (a[i] as int) < (b[i] as int),
    ensures
        text_lt(a, b),
        !text_lt(b, a),
    decreases i,
{
    if i > 0 {
        assert(a[0] == a.take(i)[0] && b[0] == b.take(i)[0]);
        assert(a.drop_first().take(i - 1) =~= b.drop_first().take(i - 1)) by {
            assert forall|j: int| 0 <= j < i - 1 implies a.drop_first()[j] == b.drop_first()[j] by {
                assert(a.take(i)[j + 1] == a[j + 1]);
                assert(b.take(i)[j + 1] == b[j + 1]);
                assert(a.take(i)[j + 1] == b.take(i)[j + 1]);
                assert(a.drop_first()[j] == a[j + 1]);
                assert(b.drop_first()[j] == b[j + 1]);
            }
        }
        law_first_difference_decides(a.drop_first(), b.drop_first(), i - 1);
    }
}

} // verus!
