//! The entries of a JSON object as an ordered list, and the two queries the
//! manifest framing makes of it: the value under a key, and the entries left
//! once a key is taken out.
use vstd::prelude::*;

verus! {

/// The value under key `k`; where a key repeats, its last entry counts.
pub open spec fn field(fs: Seq<(String, serde_json::Value)>, k: Seq<char>) -> Option<
    serde_json::Value,
>
    decreases fs.len(),
{
    if fs.len() == 0 {
        None
    } else if fs.last().0@ == k {
        Some(fs.last().1)
    } else {
        field(fs.drop_last(), k)
    }
}

/// The entries whose key is not `k`, in their order.
pub open spec fn without_key(fs: Seq<(String, serde_json::Value)>, k: Seq<char>) -> Seq<
    (String, serde_json::Value),
>
    decreases fs.len(),
{
    if fs.len() == 0 {
        fs
    } else if fs.last().0@ == k {
        without_key(fs.drop_last(), k)
    } else {
        without_key(fs.drop_last(), k).push(fs.last())
    }
}

/// No entry has key `k`.
pub open spec fn lacks(fs: Seq<(String, serde_json::Value)>, k: Seq<char>) -> bool {
    forall|i: int| 0 <= i < fs.len() ==> #[trigger] fs[i].0@ != k
}

/// No key occurs twice.
pub open spec fn unique_keys(fs: Seq<(String, serde_json::Value)>) -> bool {
    forall|i: int, j: int| 0 <= i < j < fs.len() ==> #[trigger] fs[i].0@ != #[trigger] fs[j].0@
}

/// Taking out `k` leaves entries of `fs` without `k`, and keeps keys unique.
pub proof fn lemma_without_key(fs: Seq<(String, serde_json::Value)>, k: Seq<char>)
    ensures
        lacks(without_key(fs, k), k),
        forall|j: int|
            0 <= j < without_key(fs, k).len() ==> exists|i: int|
                0 <= i < fs.len() && #[trigger] without_key(fs, k)[j] == fs[i],
        unique_keys(fs) ==> unique_keys(without_key(fs, k)),
    decreases fs.len(),
{
    if fs.len() > 0 {
        let init = fs.drop_last();
        lemma_without_key(init, k);
        let w = without_key(init, k);
        assert forall|j: int| 0 <= j < w.len() implies exists|i: int|
            0 <= i < fs.len() && #[trigger] w[j] == fs[i] by {
            let i = choose|i: int| 0 <= i < init.len() && w[j] == init[i];
            assert(w[j] == fs[i]);
        }
        if fs.last().0@ != k {
            let w2 = w.push(fs.last());
            assert forall|j: int| 0 <= j < w2.len() implies exists|i: int|
                0 <= i < fs.len() && #[trigger] w2[j] == fs[i] by {
                if j < w.len() {
                    assert(w2[j] == w[j]);
                } else {
                    assert(w2[j] == fs[fs.len() - 1]);
                }
            }
            if unique_keys(fs) {
                assert forall|a: int, b: int| 0 <= a < b < w2.len() implies #[trigger] w2[a].0@
                    != #[trigger] w2[b].0@ by {
                    if b == w.len() {
                        let i = choose|i: int| 0 <= i < init.len() && w[a] == init[i];
                        assert(w2[a] == fs[i]);
                        assert(w2[b] == fs[fs.len() - 1]);
                    } else {
                        assert(w2[a] == w[a] && w2[b] == w[b]);
                    }
                }
            }
        }
    }
}

/// Appending entries that lack `k` changes neither the value under `k` nor
/// what else is taken out with it.
pub proof fn lemma_append_absent(
    a: Seq<(String, serde_json::Value)>,
    b: Seq<(String, serde_json::Value)>,
    k: Seq<char>,
)
    requires
        lacks(b, k),
    ensures
        field(a + b, k) == field(a, k),
        without_key(a + b, k) == without_key(a, k) + b,
    decreases b.len(),
{
    if b.len() == 0 {
        assert(a + b =~= a);
        assert(without_key(a, k) + b =~= without_key(a, k));
    } else {
        let b0 = b.drop_last();
        assert(lacks(b0, k)) by {
            assert forall|i: int| 0 <= i < b0.len() implies #[trigger] b0[i].0@ != k by {
                assert(b0[i] == b[i]);
            }
        }
        lemma_append_absent(a, b0, k);
        assert((a + b).drop_last() =~= a + b0);
        assert((a + b).last() == b.last());
        assert(b.last() == b[b.len() - 1]);
        assert(without_key(a, k) + b0.push(b.last()) =~= (without_key(a, k) + b0).push(b.last()));
        assert(b0.push(b.last()) =~= b);
    }
}

/// A single entry: its value under its own key, and nothing left once taken out.
pub proof fn lemma_single(e: (String, serde_json::Value), k: Seq<char>)
    ensures
        field(seq![e], k) == (if e.0@ == k { Some(e.1) } else { None }),
        without_key(seq![e], k) == (if e.0@ == k { Seq::empty() } else { seq![e] }),
{
    let s = seq![e];
    let none = Seq::<(String, serde_json::Value)>::empty();
    assert(s.drop_last() =~= none);
    assert(s.last() == e);
    assert(field(none, k) is None);
    assert(without_key(none, k) == none);
    assert(Seq::<(String, serde_json::Value)>::empty().push(e) =~= s);
}

/// Takes the entry under `key` out of `fs`: its value, and the other entries.
pub fn split_field(fs: Vec<(String, serde_json::Value)>, key: &String) -> (r: (
    Option<serde_json::Value>,
    Vec<(String, serde_json::Value)>,
))
    ensures
        r.0 == field(fs@, key@),
        r.1@ == without_key(fs@, key@),
{
    let ghost orig = fs@;
    let mut src = fs;
    let mut found: Option<serde_json::Value> = None;
    let mut rest: Vec<(String, serde_json::Value)> = Vec::new();
    let mut i: usize = 0;
    let n: usize = src.len();
    assert(orig.take(0).len() == 0);
    while src.len() > 0
        invariant
            n == orig.len(),
            i <= orig.len(),
            src@ == orig.subrange(i as int, orig.len() as int),
            found == field(orig.take(i as int), key@),
            rest@ == without_key(orig.take(i as int), key@),
        decreases src.len(),
    {
        assert(src@.len() == orig.len() - i);
        let (k, v) = src.remove(0);
        proof {
            assert(orig.take(i + 1).drop_last() =~= orig.take(i as int));
            assert(orig.take(i + 1).last() == orig[i as int]);
            assert(src@ =~= orig.subrange(i + 1, orig.len() as int));
        }
        if k == *key {
            found = Some(v);
        } else {
            rest.push((k, v));
        }
        i = i + 1;
    }
    assert(orig.take(i as int) =~= orig);
    (found, rest)
}

} // verus!
