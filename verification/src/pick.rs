//! The shared flag-aggregation shape: an ordered, fixed table of output
//! labels, each guarded by a boolean, yields the labels whose guards hold,
//! once each, in table order.

use vstd::prelude::*;

verus! {

/// The labels whose guard fired, once each, in table order.
/// `fires[i]` guards `labels[i]`.
pub open spec fn picked(fires: Seq<bool>, labels: Seq<Seq<char>>) -> Seq<Seq<char>>
    recommends
        fires.len() == labels.len(),
    decreases fires.len(),
{
    if fires.len() == 0 {
        Seq::empty()
    } else {
        let rest = picked(fires.drop_last(), labels.take(fires.len() - 1));
        if fires.last() {
            rest.push(labels[fires.len() - 1])
        } else {
            rest
        }
    }
}

/// Collects the labels whose guard fired, once each, in table order.
pub fn pick_labels(fires: &Vec<bool>, labels: &Vec<String>) -> (r: Vec<String>)
    requires
        fires@.len() == labels@.len(),
    ensures
        r.deep_view() == picked(fires@, labels.deep_view()),
{
    let ghost f = fires@;
    let ghost t = labels.deep_view();
    let mut out: Vec<String> = Vec::new();
    let mut i: usize = 0;
    proof {
        assert(out.deep_view() =~= picked(f.take(0), t.take(0)));
    }
    while i < fires.len()
        invariant
            i <= f.len(),
            f == fires@,
            t == labels.deep_view(),
            f.len() == labels@.len(),
            t.len() == labels@.len(),
            out.deep_view() == picked(f.take(i as int), t.take(i as int)),
        decreases f.len() - i,
    {
        let ghost prev = out.deep_view();
        if fires[i] {
            out.push(labels[i].clone());
            proof {
                assert(out.deep_view() =~= prev.push(t[i as int]));
            }
        }
        proof {
            assert(f.take(i + 1).drop_last() =~= f.take(i as int));
            assert(t.take(i + 1).take(i as int) =~= t.take(i as int));
            assert(f.take(i + 1).last() == f[i as int]);
            assert(f.take(i + 1)[f.take(i + 1).len() - 1] == f[i as int]);
            assert(t.take(i + 1)[i as int] == t[i as int]);
            assert(out.deep_view() =~= picked(f.take(i + 1), t.take(i + 1)));
        }
        i = i + 1;
    }
    proof {
        assert(f.take(f.len() as int) =~= f);
        assert(t.take(f.len() as int) =~= t);
    }
    out
}

/// No labels come out iff no guard fired.
pub proof fn lemma_picked_empty_iff(fires: Seq<bool>, labels: Seq<Seq<char>>)
    requires
        fires.len() == labels.len(),
    ensures
        (picked(fires, labels).len() == 0) <==> (forall|i: int|
            0 <= i < fires.len() ==> !(#[trigger] fires[i])),
    decreases fires.len(),
{
    if fires.len() > 0 {
        let f = fires.drop_last();
        let l = labels.take(fires.len() - 1);
        lemma_picked_empty_iff(f, l);
        assert(forall|i: int| 0 <= i < f.len() ==> f[i] == fires[i]);
    }
}

/// A label is in the output iff some guard of an equal label fired.
pub proof fn lemma_picked_contains(fires: Seq<bool>, labels: Seq<Seq<char>>, x: Seq<char>)
    requires
        fires.len() == labels.len(),
    ensures
        picked(fires, labels).contains(x) <==> (exists|i: int|
            0 <= i < fires.len() && #[trigger] fires[i] && labels[i] == x),
    decreases fires.len(),
{
    if fires.len() > 0 {
        let n = fires.len() - 1;
        let f = fires.drop_last();
        let l = labels.take(n);
        lemma_picked_contains(f, l, x);
        assert(forall|i: int| 0 <= i < n ==> f[i] == fires[i] && l[i] == labels[i]);
        let rest = picked(f, l);
        if fires.last() {
            assert(picked(fires, labels) == rest.push(labels[n]));
            if picked(fires, labels).contains(x) {
                let j = choose|j: int|
                    0 <= j < rest.push(labels[n]).len() && rest.push(labels[n])[j] == x;
                if j < rest.len() {
                    assert(rest[j] == x);
                    assert(rest.contains(x));
                } else {
                    assert(fires[n] && labels[n] == x);
                }
            }
            if exists|i: int| 0 <= i < fires.len() && #[trigger] fires[i] && labels[i] == x {
                let i = choose|i: int| 0 <= i < fires.len() && #[trigger] fires[i] && labels[i] == x;
                if i < n {
                    assert(rest.contains(x));
                    let j = choose|j: int| 0 <= j < rest.len() && rest[j] == x;
                    assert(rest.push(labels[n])[j] == x);
                } else {
                    assert(rest.push(labels[n]).last() == x);
                }
            }
        } else {
            if exists|i: int| 0 <= i < fires.len() && #[trigger] fires[i] && labels[i] == x {
                let i = choose|i: int| 0 <= i < fires.len() && #[trigger] fires[i] && labels[i] == x;
                assert(i < n);
            }
        }
    }
}

/// With pairwise-distinct labels, no label comes out twice.
pub proof fn lemma_picked_no_duplicates(fires: Seq<bool>, labels: Seq<Seq<char>>)
    requires
        fires.len() == labels.len(),
        forall|i: int, j: int|
            0 <= i < j < labels.len() ==> #[trigger] labels[i] != #[trigger] labels[j],
    ensures
        picked(fires, labels).no_duplicates(),
    decreases fires.len(),
{
    if fires.len() > 0 {
        let n = fires.len() - 1;
        let f = fires.drop_last();
        let l = labels.take(n);
        assert(forall|i: int| 0 <= i < n ==> l[i] == labels[i]);
        lemma_picked_no_duplicates(f, l);
        if fires.last() {
            let rest = picked(f, l);
            lemma_picked_contains(f, l, labels[n]);
            assert(!rest.contains(labels[n]));
            assert(rest.push(labels[n]).no_duplicates()) by {
                assert(forall|i: int, j: int|
                    0 <= i < j < rest.push(labels[n]).len() ==> rest.push(labels[n])[i]
                        != rest.push(labels[n])[j]) by {
                    assert(forall|i: int|
                        0 <= i < rest.len() ==> rest.push(labels[n])[i] == rest[i]);
                    assert(forall|i: int|
                        0 <= i < rest.len() ==> rest[i] == labels[n] ==> rest.contains(
                            labels[n],
                        ));
                }
            }
        }
    }
}

/// Every label that comes out stands in the table.
pub proof fn lemma_picked_from_table(fires: Seq<bool>, labels: Seq<Seq<char>>)
    requires
        fires.len() == labels.len(),
    ensures
        forall|j: int|
            0 <= j < picked(fires, labels).len() ==> labels.contains(
                #[trigger] picked(fires, labels)[j],
            ),
{
    assert forall|j: int| 0 <= j < picked(fires, labels).len() implies labels.contains(
        picked(fires, labels)[j],
    ) by {
        let x = picked(fires, labels)[j];
        assert(picked(fires, labels).contains(x));
        lemma_picked_contains(fires, labels, x);
        let i = choose|i: int| 0 <= i < fires.len() && #[trigger] fires[i] && labels[i] == x;
        assert(labels[i] == x);
    }
}

} // verus!
