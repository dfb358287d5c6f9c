//! Ranking: scored candidates are stable-sorted by score descending, ties
//! broken by discovery order, and the list truncated to the result cap.
use vstd::prelude::*;
use vstd::multiset::Multiset;

verus! {

/// One scored candidate: its score and its index in the discovery order.
#[derive(Clone, Copy, Debug, PartialEq, Eq, Structural)]
pub struct Scored {
    pub score: i128,
    pub pos: usize,
}

/// Ranking order: higher score first, earlier discovery first among equals.
pub open spec fn ranks_before(a: Scored, b: Scored) -> bool {
    a.score > b.score || (a.score == b.score && a.pos < b.pos)
}

/// Inserts `x` into `s` before the first element it ranks before.
pub open spec fn insert_ranked(s: Seq<Scored>, x: Scored) -> Seq<Scored>
    decreases s.len(),
{
    if s.len() == 0 {
        seq![x]
    } else if ranks_before(x, s[0]) {
        seq![x] + s
    } else {
        seq![s[0]] + insert_ranked(s.drop_first(), x)
    }
}

/// The stable descending sort of `s`: elements in ranking order, equals in
/// discovery order.
pub open spec fn sort_ranked(s: Seq<Scored>) -> Seq<Scored>
    decreases s.len(),
{
    if s.len() == 0 {
        Seq::empty()
    } else {
        insert_ranked(sort_ranked(s.drop_last()), s.last())
    }
}

/// The scored candidates of `entries`: every index whose entry passes
/// `keep`, paired with its `key` score, in discovery order.
pub open spec fn scored_seq<T>(
    entries: Seq<T>,
    keep: spec_fn(T) -> bool,
    key: spec_fn(T) -> int,
) -> Seq<Scored>
    decreases entries.len(),
{
    if entries.len() == 0 {
        Seq::empty()
    } else {
        scored_seq(entries.drop_last(), keep, key) + if keep(entries.last()) {
            seq![Scored { score: key(entries.last()) as i128, pos: (entries.len() - 1) as usize }]
        } else {
            Seq::empty()
        }
    }
}

proof fn lemma_insert_ranked_at(s: Seq<Scored>, x: Scored, j: int)
    requires
        0 <= j <= s.len(),
        forall|k: int| 0 <= k < j ==> !ranks_before(x, s[k]),
        j < s.len() ==> ranks_before(x, s[j]),
    ensures
        insert_ranked(s, x) =~= s.take(j) + seq![x] + s.skip(j),
    decreases j,
{
    if j == 0 {
        if s.len() == 0 {
            assert(insert_ranked(s, x) =~= s.take(0) + seq![x] + s.skip(0));
        } else {
            assert(ranks_before(x, s[0]));
            assert(insert_ranked(s, x) =~= s.take(0) + seq![x] + s.skip(0));
        }
    } else {
        assert(!ranks_before(x, s[0]));
        let t = s.drop_first();
        assert(forall|k: int| 0 <= k < j - 1 ==> !ranks_before(x, #[trigger] t[k]));
        assert(j - 1 < t.len() ==> ranks_before(x, t[j - 1]));
        lemma_insert_ranked_at(t, x, j - 1);
        assert(insert_ranked(s, x) =~= s.take(j) + seq![x] + s.skip(j));
    }
}

/// The sort keeps the length.
pub proof fn lemma_sort_ranked_len(s: Seq<Scored>)
    ensures
        sort_ranked(s).len() == s.len(),
    decreases s.len(),
{
    if s.len() > 0 {
        lemma_sort_ranked_len(s.drop_last());
        lemma_insert_ranked_len(sort_ranked(s.drop_last()), s.last());
    }
}

proof fn lemma_insert_ranked_len(s: Seq<Scored>, x: Scored)
    ensures
        insert_ranked(s, x).len() == s.len() + 1,
    decreases s.len(),
{
    if s.len() > 0 && !ranks_before(x, s[0]) {
        lemma_insert_ranked_len(s.drop_first(), x);
    }
}

/// The sort keeps the elements: output and input hold the same candidates.
pub proof fn lemma_sort_ranked_multiset(s: Seq<Scored>)
    ensures
        sort_ranked(s).to_multiset() == s.to_multiset(),
    decreases s.len(),
{
    broadcast use vstd::seq_lib::group_seq_properties;

    if s.len() > 0 {
        lemma_sort_ranked_multiset(s.drop_last());
        lemma_insert_ranked_multiset(sort_ranked(s.drop_last()), s.last());
        s.drop_last().to_multiset_ensures();
        assert(s =~= s.drop_last().push(s.last()));
        assert(s.drop_last().push(s.last()).to_multiset() =~= s.drop_last().to_multiset().insert(
            s.last(),
        ));
    }
}

proof fn lemma_singleton_multiset(x: Scored)
    ensures
        seq![x].to_multiset() == Multiset::empty().insert(x),
{
    broadcast use vstd::multiset::group_multiset_axioms;

    Seq::<Scored>::empty().to_multiset_ensures();
    assert(Seq::<Scored>::empty().to_multiset().len() == 0);
    assert(Seq::<Scored>::empty().to_multiset() =~= Multiset::empty());
    assert(Seq::<Scored>::empty().push(x) =~= seq![x]);
    assert(seq![x].to_multiset() =~= Multiset::empty().insert(x));
}

proof fn lemma_insert_ranked_multiset(s: Seq<Scored>, x: Scored)
    ensures
        insert_ranked(s, x).to_multiset() == s.to_multiset().insert(x),
    decreases s.len(),
{
    broadcast use vstd::seq_lib::lemma_multiset_commutative;
    broadcast use vstd::multiset::group_multiset_axioms;

    lemma_singleton_multiset(x);
    if s.len() == 0 {
        assert(insert_ranked(s, x) =~= seq![x]);
        assert(s.to_multiset() =~= Multiset::empty()) by {
            s.to_multiset_ensures();
        }
        assert(seq![x].to_multiset() =~= s.to_multiset().insert(x));
    } else if ranks_before(x, s[0]) {
        assert(insert_ranked(s, x) =~= seq![x] + s);
        assert((seq![x] + s).to_multiset() =~= seq![x].to_multiset().add(s.to_multiset()));
        assert(seq![x].to_multiset().add(s.to_multiset()) =~= s.to_multiset().insert(x));
    } else {
        lemma_insert_ranked_multiset(s.drop_first(), x);
        lemma_singleton_multiset(s[0]);
        assert(insert_ranked(s, x) =~= seq![s[0]] + insert_ranked(s.drop_first(), x));
        assert((seq![s[0]] + insert_ranked(s.drop_first(), x)).to_multiset() =~= seq![
            s[0],
        ].to_multiset().add(insert_ranked(s.drop_first(), x).to_multiset()));
        assert(s =~= seq![s[0]] + s.drop_first());
        assert(s.to_multiset() =~= seq![s[0]].to_multiset().add(s.drop_first().to_multiset()));
        assert(seq![s[0]].to_multiset().add(s.drop_first().to_multiset().insert(x)) =~= s
            .to_multiset().insert(x));
    }
}

/// `s` is in ranking order: no later element ranks before an earlier one.
pub open spec fn is_ranked_sorted(s: Seq<Scored>) -> bool {
    forall|i: int, j: int| 0 <= i < j < s.len() ==> !ranks_before(#[trigger] s[j], #[trigger] s[i])
}

proof fn lemma_insert_ranked_membership(s: Seq<Scored>, x: Scored)
    ensures
        forall|k: int|
            0 <= k < insert_ranked(s, x).len() ==> (#[trigger] insert_ranked(s, x)[k]) == x
                || s.contains(insert_ranked(s, x)[k]),
{
    lemma_insert_ranked_multiset(s, x);
    broadcast use vstd::multiset::group_multiset_axioms;

    assert forall|k: int|
        0 <= k < insert_ranked(s, x).len() implies (#[trigger] insert_ranked(s, x)[k]) == x
        || s.contains(insert_ranked(s, x)[k]) by {
        let e = insert_ranked(s, x)[k];
        if e != x {
            assert(insert_ranked(s, x).contains(e));
            insert_ranked(s, x).to_multiset_ensures();
            s.to_multiset_ensures();
            assert(insert_ranked(s, x).to_multiset().count(e) > 0);
            assert(s.to_multiset().insert(x).count(e) > 0);
            assert(s.to_multiset().count(e) > 0);
        }
    }
}

proof fn lemma_insert_ranked_keeps_sorted(s: Seq<Scored>, x: Scored)
    requires
        is_ranked_sorted(s),
    ensures
        is_ranked_sorted(insert_ranked(s, x)),
    decreases s.len(),
{
    if s.len() == 0 {
    } else if ranks_before(x, s[0]) {
        assert(insert_ranked(s, x) =~= seq![x] + s);
    } else {
        let t = s.drop_first();
        assert(forall|i: int, j: int|
            0 <= i < j < t.len() ==> !ranks_before(#[trigger] t[j], #[trigger] t[i]));
        lemma_insert_ranked_keeps_sorted(t, x);
        lemma_insert_ranked_membership(t, x);
        let out = insert_ranked(s, x);
        assert(out =~= seq![s[0]] + insert_ranked(t, x));
        assert forall|i: int, j: int|
            0 <= i < j < out.len() implies !ranks_before(#[trigger] out[j], #[trigger] out[i]) by {
            if i == 0 {
                let e = insert_ranked(t, x)[j - 1];
                assert(out[j] == e);
                if e != x {
                    assert(t.contains(e));
                    let w = choose|w: int| 0 <= w < t.len() && t[w] == e;
                    assert(s[w + 1] == e);
                    assert(!ranks_before(e, s[0]));
                }
            } else {
                assert(out[i] == insert_ranked(t, x)[i - 1]);
                assert(out[j] == insert_ranked(t, x)[j - 1]);
            }
        }
    }
}

/// The sort's output is in ranking order: scores descend, and equal scores
/// keep their discovery order.
pub proof fn lemma_sort_ranked_sorted(s: Seq<Scored>)
    ensures
        is_ranked_sorted(sort_ranked(s)),
    decreases s.len(),
{
    if s.len() > 0 {
        lemma_sort_ranked_sorted(s.drop_last());
        lemma_insert_ranked_keeps_sorted(sort_ranked(s.drop_last()), s.last());
    }
}

/// Query results are truncated to this many rows.
pub const RESULT_CAP: usize = 50;

/// Every scored candidate's position indexes into the entries it was built
/// from, passes the filter, and carries that entry's score.
pub proof fn lemma_scored_seq_wf<T>(entries: Seq<T>, keep: spec_fn(T) -> bool, key: spec_fn(T) -> int)
    requires
        entries.len() <= usize::MAX,
    ensures
        forall|k: int|
            0 <= k < scored_seq(entries, keep, key).len() ==> {
                let sc = #[trigger] scored_seq(entries, keep, key)[k];
                &&& 0 <= sc.pos < entries.len()
                &&& keep(entries[sc.pos as int])
                &&& sc.score == key(entries[sc.pos as int]) as i128
            },
    decreases entries.len(),
{
    if entries.len() > 0 {
        lemma_scored_seq_wf(entries.drop_last(), keep, key);
        assert(forall|i: int|
            0 <= i < entries.len() - 1 ==> #[trigger] entries.drop_last()[i] == entries[i]);
        let pre = scored_seq(entries.drop_last(), keep, key);
        let whole = scored_seq(entries, keep, key);
        assert forall|k: int|
            0 <= k < whole.len() implies {
            let sc = #[trigger] whole[k];
            &&& 0 <= sc.pos < entries.len()
            &&& keep(entries[sc.pos as int])
            &&& sc.score == key(entries[sc.pos as int]) as i128
        } by {
            if k < pre.len() {
                assert(whole[k] == pre[k]);
            } else {
                assert(keep(entries.last()));
                assert(whole[k] == Scored {
                    score: key(entries.last()) as i128,
                    pos: (entries.len() - 1) as usize,
                });
                assert((entries.len() - 1) as usize == entries.len() - 1);
                assert(entries.last() == entries[entries.len() - 1]);
            }
        }
    }
}

/// Everything in the sorted sequence came from the input.
pub proof fn lemma_sort_ranked_membership(s: Seq<Scored>)
    ensures
        forall|k: int| 0 <= k < sort_ranked(s).len() ==> s.contains(#[trigger] sort_ranked(s)[k]),
{
    lemma_sort_ranked_multiset(s);
    assert forall|k: int| 0 <= k < sort_ranked(s).len() implies s.contains(
        #[trigger] sort_ranked(s)[k],
    ) by {
        let x = sort_ranked(s)[k];
        assert(sort_ranked(s).contains(x));
        sort_ranked(s).to_multiset_ensures();
        s.to_multiset_ensures();
        assert(sort_ranked(s).to_multiset().count(x) > 0);
    }
}

/// After sorting the scored candidates of `entries`, every position still
/// indexes into `entries`, passes the filter, and carries that entry's score.
pub proof fn lemma_sorted_scored_wf<T>(
    entries: Seq<T>,
    keep: spec_fn(T) -> bool,
    key: spec_fn(T) -> int,
)
    requires
        entries.len() <= usize::MAX,
    ensures
        forall|k: int|
            0 <= k < sort_ranked(scored_seq(entries, keep, key)).len() ==> {
                let sc = #[trigger] sort_ranked(scored_seq(entries, keep, key))[k];
                &&& 0 <= sc.pos < entries.len()
                &&& keep(entries[sc.pos as int])
                &&& sc.score == key(entries[sc.pos as int]) as i128
            },
{
    let s = scored_seq(entries, keep, key);
    lemma_scored_seq_wf(entries, keep, key);
    lemma_sort_ranked_membership(s);
    assert forall|k: int|
        0 <= k < sort_ranked(s).len() implies {
        let sc = #[trigger] sort_ranked(s)[k];
        &&& 0 <= sc.pos < entries.len()
        &&& keep(entries[sc.pos as int])
        &&& sc.score == key(entries[sc.pos as int]) as i128
    } by {
        let sc = sort_ranked(s)[k];
        assert(s.contains(sc));
        let i = choose|i: int| 0 <= i < s.len() && s[i] == sc;
        assert(s[i] == sc);
    }
}

fn ranks_before_exec(a: &Scored, b: &Scored) -> (r: bool)
    ensures
        r == ranks_before(*a, *b),
{
    a.score > b.score || (a.score == b.score && a.pos < b.pos)
}

/// Stable-sorts scored candidates: highest score first, ties broken by
/// discovery order.
pub fn sort_scored(v: &Vec<Scored>) -> (r: Vec<Scored>)
    ensures
        r@ == sort_ranked(v@),
{
    let mut out: Vec<Scored> = Vec::new();
    let n = v.len();
    let mut i: usize = 0;
    while i < n
        invariant
            n == v@.len(),
            0 <= i <= n,
            out@ == sort_ranked(v@.take(i as int)),
        decreases n - i,
    {
        let x = v[i];
        let m = out.len();
        let mut j: usize = 0;
        while j < m
            invariant
                m == out@.len(),
                0 <= j <= m,
                forall|k: int| 0 <= k < j ==> !ranks_before(x, out@[k]),
            ensures
                0 <= j <= m,
                forall|k: int| 0 <= k < j ==> !ranks_before(x, out@[k]),
                j < m ==> ranks_before(x, out@[j as int]),
            decreases m - j,
        {
            if ranks_before_exec(&x, &out[j]) {
                break ;
            }
            j = j + 1;
        }
        proof {
            lemma_insert_ranked_at(out@, x, j as int);
            assert(v@.take(i + 1).drop_last() =~= v@.take(i as int));
            assert(v@.take(i + 1).last() == v@[i as int]);
        }
        out.insert(j, x);
        proof {
            assert(out@ =~= sort_ranked(v@.take(i + 1)));
        }
        i = i + 1;
    }
    proof {
        assert(v@.take(n as int) =~= v@);
    }
    out
}

} // verus!
