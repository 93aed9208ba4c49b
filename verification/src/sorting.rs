//! Sorting strings in the order `String`'s `Ord` gives them.
use vstd::prelude::*;
use crate::text::{chars_of, views};

verus! {

/// Lexicographic order on character sequences, by code point; for valid
/// UTF-8 this is the byte order `String`'s `Ord` uses.
pub open spec fn lex_lt(a: Seq<char>, b: Seq<char>) -> bool
    decreases a.len(),
{
    if a.len() == 0 {
        b.len() > 0
    } else if b.len() == 0 {
        false
    } else if a[0] != b[0] {
        (a[0] as u32) < (b[0] as u32)
    } else {
        lex_lt(a.drop_first(), b.drop_first())
    }
}

/// Whether the strings are in non-decreasing order.
pub open spec fn sorted(s: Seq<Seq<char>>) -> bool {
    forall|i: int, j: int| 0 <= i < j < s.len() ==> !lex_lt(#[trigger] s[j], #[trigger] s[i])
}

pub proof fn lemma_lex_asymmetric(a: Seq<char>, b: Seq<char>)
    ensures
        !(lex_lt(a, b) && lex_lt(b, a)),
    decreases a.len(),
{
    if a.len() > 0 && b.len() > 0 && a[0] == b[0] {
        lemma_lex_asymmetric(a.drop_first(), b.drop_first());
    }
}

pub proof fn lemma_lex_transitive(a: Seq<char>, b: Seq<char>, c: Seq<char>)
    requires
        lex_lt(a, b),
        lex_lt(b, c),
    ensures
        lex_lt(a, c),
    decreases a.len(),
{
    if a.len() > 0 && b.len() > 0 && c.len() > 0 && a[0] == b[0] && b[0] == c[0] {
        lemma_lex_transitive(a.drop_first(), b.drop_first(), c.drop_first());
    }
}

/// Lexicographic comparison of two strings' characters.
pub(crate) fn chars_lt(a: &Vec<char>, b: &Vec<char>) -> (r: bool)
    ensures
        r == lex_lt(a@, b@),
{
    let mut i: usize = 0;
    assert(a@.skip(0) == a@);
    assert(b@.skip(0) == b@);
    while i < a.len() && i < b.len() && a[i] == b[i]
        invariant
            i <= a@.len(),
            i <= b@.len(),
            lex_lt(a@, b@) == lex_lt(a@.skip(i as int), b@.skip(i as int)),
        decreases a.len() - i,
    {
        assert(a@.skip(i as int).drop_first() == a@.skip(i + 1));
        assert(b@.skip(i as int).drop_first() == b@.skip(i + 1));
        i = i + 1;
    }
    proof {
        assert(i < a@.len() ==> a@.skip(i as int)[0] == a@[i as int]);
        assert(i < b@.len() ==> b@.skip(i as int)[0] == b@[i as int]);
    }
    if i == a.len() {
        i < b.len()
    } else if i == b.len() {
        false
    } else {
        (a[i] as u32) < (b[i] as u32)
    }
}

/// Whether the keys of key/value pairs strictly ascend, as the entries of a
/// map ordered by key do: sorted, and no key twice.
pub open spec fn keys_ascending(kvs: Seq<(String, String)>) -> bool {
    forall|i: int, j: int| 0 <= i < j < kvs.len() ==> lex_lt(#[trigger] kvs[i].0@, #[trigger] kvs[j].0@)
}

/// Whether the keys of key/value pairs strictly ascend.
pub fn keys_in_order(kvs: &Vec<(String, String)>) -> (r: bool)
    ensures
        r == keys_ascending(kvs@),
{
    if kvs.len() == 0 {
        return true;
    }
    let mut prev = chars_of(kvs[0].0.as_str());
    for i in 1..kvs.len()
        invariant
            kvs@.len() > 0,
            prev@ == kvs@[i - 1].0@,
            forall|a: int, b: int| 0 <= a < b < i ==> lex_lt(#[trigger] kvs@[a].0@, #[trigger] kvs@[b].0@),
    {
        let cur = chars_of(kvs[i].0.as_str());
        if !chars_lt(&prev, &cur) {
            return false;
        }
        assert forall|a: int, b: int| 0 <= a < b < i + 1 implies lex_lt(#[trigger] kvs@[a].0@, #[trigger] kvs@[b].0@) by {
            if b == i && a < i - 1 {
                lemma_lex_transitive(kvs@[a].0@, kvs@[i - 1].0@, kvs@[i as int].0@);
            }
        }
        prev = cur;
    }
    true
}

/// The strings in sorted order (`Vec::sort` on strings): a permutation of
/// the input, sorted, equal strings keeping their relative order.
pub fn sort_strings(v: Vec<String>) -> (r: Vec<String>)
    ensures
        views(r@).to_multiset() == views(v@).to_multiset(),
        sorted(views(r@)),
{
    let mut out: Vec<String> = Vec::new();
    let mut keys: Vec<Vec<char>> = Vec::new();
    assert(views(out@).to_multiset() =~= views(v@.take(0)).to_multiset()) by {
        assert(views(out@) =~= Seq::<Seq<char>>::empty());
        assert(views(v@.take(0)) =~= Seq::<Seq<char>>::empty());
    }
    for i in 0..v.len()
        invariant
            views(out@).to_multiset() == views(v@.take(i as int)).to_multiset(),
            sorted(views(out@)),
            keys@.len() == out@.len(),
            forall|j: int| 0 <= j < keys@.len() ==> (#[trigger] keys@[j])@ == out@[j]@,
    {
        let x = v[i].clone();
        let xk = chars_of(x.as_str());
        let mut k: usize = 0;
        while k < out.len() && !chars_lt(&xk, &keys[k])
            invariant
                xk@ == x@,
                k <= out@.len(),
                keys@.len() == out@.len(),
                forall|j: int| 0 <= j < keys@.len() ==> (#[trigger] keys@[j])@ == out@[j]@,
                forall|j: int| 0 <= j < k ==> !lex_lt(x@, #[trigger] views(out@)[j]),
            decreases out.len() - k,
        {
            assert(views(out@)[k as int] == out@[k as int]@);
            k = k + 1;
        }
        let ghost before = views(out@);
        let ghost xv = x@;
        proof {
            assert(views(v@.take(i + 1)) =~= views(v@.take(i as int)).push(x@));
            assert(views(out@.insert(k as int, x)) =~= before.insert(k as int, x@));
            assert forall|a: int, b: int| 0 <= a < b < before.len() + 1 implies !lex_lt(
                #[trigger] before.insert(k as int, x@)[b],
                #[trigger] before.insert(k as int, x@)[a],
            ) by {
                let s = before.insert(k as int, x@);
                if b < k {
                } else if a < k && b == k {
                } else if a < k && b > k {
                    assert(s[b] == before[b - 1]);
                } else if a == k {
                    // x is below before[k], which is at most before[b - 1].
                    assert(s[b] == before[b - 1]);
                    assert(lex_lt(x@, before[k as int]));
                    if lex_lt(before[b - 1], x@) {
                        if b - 1 > k {
                            lemma_lex_transitive(before[b - 1], x@, before[k as int]);
                        } else {
                            lemma_lex_asymmetric(before[b - 1], x@);
                        }
                    }
                } else {
                    assert(s[a] == before[a - 1]);
                    assert(s[b] == before[b - 1]);
                }
            }
        }
        out.insert(k, x);
        keys.insert(k, xk);
        proof {
            assert(views(out@) == before.insert(k as int, xv));
            vstd::seq_lib::to_multiset_insert(before, k as int, xv);
            vstd::seq_lib::to_multiset_build(views(v@.take(i as int)), xv);
            assert forall|j: int| 0 <= j < keys@.len() implies (#[trigger] keys@[j])@ == out@[j]@ by {
                if j < k {
                } else if j > k {
                    assert(keys@[j] == keys@[j]);
                }
            }
        }
    }
    assert(v@.take(v.len() as int) == v@);
    out
}

} // verus!
