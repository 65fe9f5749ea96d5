//! Ordering of a directory's members: by publication timestamp, newest
//! first, stable on ties with the directory-listing order.

use vstd::prelude::*;
use vstd::seq_lib::lemma_multiset_commutative;
use crate::page::Page;
use crate::page::PageV;

verus! {

/// Dates never increase along the sequence.
pub open spec fn spec_sorted_desc(s: Seq<PageV>) -> bool {
    forall|i: int, j: int| 0 <= i <= j < s.len() ==> s[i].metadata.date >= s[j].metadata.date
}

/// The position where a page is placed among already sorted pages: after
/// every page at least as new, before the first strictly older one.
pub open spec fn first_older(p: PageV, s: Seq<PageV>) -> int
    decreases s.len(),
{
    if s.len() == 0 {
        0
    } else if p.metadata.date > s[0].metadata.date {
        0
    } else {
        1 + first_older(p, s.drop_first())
    }
}

/// One insertion step of the stable sort.
pub open spec fn insert_desc(p: PageV, s: Seq<PageV>) -> Seq<PageV>
    decreases s.len(),
{
    if s.len() == 0 {
        seq![p]
    } else if p.metadata.date > s[0].metadata.date {
        seq![p] + s
    } else {
        seq![s[0]] + insert_desc(p, s.drop_first())
    }
}

/// The members' order: insertion sort by date descending, stable on ties.
pub open spec fn sort_desc(s: Seq<PageV>) -> Seq<PageV>
    decreases s.len(),
{
    if s.len() == 0 {
        Seq::empty()
    } else {
        insert_desc(s.last(), sort_desc(s.drop_last()))
    }
}

/// The members of a sequence carrying one given date, in their order.
pub open spec fn with_date(s: Seq<PageV>, d: int) -> Seq<PageV> {
    s.filter(|p: PageV| p.metadata.date == d)
}

proof fn lemma_first_older_bounds(p: PageV, s: Seq<PageV>)
    ensures
        0 <= first_older(p, s) <= s.len(),
        forall|k: int| 0 <= k < first_older(p, s) ==> s[k].metadata.date >= p.metadata.date,
        first_older(p, s) < s.len() ==> s[first_older(p, s)].metadata.date < p.metadata.date,
    decreases s.len(),
{
    if s.len() == 0 || p.metadata.date > s[0].metadata.date {
    } else {
        lemma_first_older_bounds(p, s.drop_first());
        assert forall|k: int| 0 <= k < first_older(p, s) implies s[k].metadata.date
            >= p.metadata.date by {
            if k > 0 {
                assert(s.drop_first()[k - 1].metadata.date >= p.metadata.date);
            }
        }
    }
}

proof fn lemma_insert_desc_shape(p: PageV, s: Seq<PageV>)
    ensures
        insert_desc(p, s) == s.insert(first_older(p, s), p),
    decreases s.len(),
{
    lemma_first_older_bounds(p, s);
    if s.len() == 0 {
        assert(insert_desc(p, s) =~= s.insert(0, p));
    } else if p.metadata.date > s[0].metadata.date {
        assert(insert_desc(p, s) =~= s.insert(0, p));
    } else {
        lemma_insert_desc_shape(p, s.drop_first());
        lemma_first_older_bounds(p, s.drop_first());
        assert(insert_desc(p, s) =~= s.insert(first_older(p, s), p));
    }
}

proof fn lemma_insert_desc_sorted(p: PageV, s: Seq<PageV>)
    requires
        spec_sorted_desc(s),
    ensures
        spec_sorted_desc(insert_desc(p, s)),
{
    lemma_first_older_bounds(p, s);
    lemma_insert_desc_shape(p, s);
    let j = first_older(p, s);
    let t = insert_desc(p, s);
    assert forall|a: int, b: int| 0 <= a <= b < t.len() implies t[a].metadata.date
        >= t[b].metadata.date by {
        if a < j && b >= j {
            assert(s[a].metadata.date >= p.metadata.date);
            if b > j {
                assert(s[b - 1].metadata.date <= s[j].metadata.date);
            }
        } else if a == j && b > j {
            assert(s[b - 1].metadata.date <= s[j].metadata.date);
        }
    }
}

/// Sortedness of the members' order.
pub proof fn lemma_sort_desc_sorted(s: Seq<PageV>)
    ensures
        spec_sorted_desc(sort_desc(s)),
    decreases s.len(),
{
    if s.len() > 0 {
        lemma_sort_desc_sorted(s.drop_last());
        lemma_insert_desc_sorted(s.last(), sort_desc(s.drop_last()));
    }
}

proof fn lemma_insert_desc_multiset(p: PageV, s: Seq<PageV>)
    ensures
        insert_desc(p, s).to_multiset() == s.to_multiset().insert(p),
    decreases s.len(),
{
    broadcast use vstd::seq_lib::group_to_multiset_ensures;

    if s.len() == 0 {
        assert(seq![p] =~= Seq::<PageV>::empty().push(p));
        assert(insert_desc(p, s).to_multiset() =~= s.to_multiset().insert(p));
    } else if p.metadata.date > s[0].metadata.date {
        lemma_multiset_commutative(seq![p], s);
        assert(seq![p] =~= Seq::<PageV>::empty().push(p));
        assert(insert_desc(p, s).to_multiset() =~= s.to_multiset().insert(p));
    } else {
        lemma_insert_desc_multiset(p, s.drop_first());
        lemma_multiset_commutative(seq![s[0]], insert_desc(p, s.drop_first()));
        lemma_multiset_commutative(seq![s[0]], s.drop_first());
        assert(seq![s[0]] + s.drop_first() =~= s);
        assert(seq![s[0]] =~= Seq::<PageV>::empty().push(s[0]));
        assert(insert_desc(p, s).to_multiset() =~= s.to_multiset().insert(p));
    }
}

/// The members' order is a permutation of the collected members.
pub proof fn lemma_sort_desc_multiset(s: Seq<PageV>)
    ensures
        sort_desc(s).to_multiset() == s.to_multiset(),
    decreases s.len(),
{
    broadcast use vstd::seq_lib::group_to_multiset_ensures;

    if s.len() > 0 {
        lemma_sort_desc_multiset(s.drop_last());
        lemma_insert_desc_multiset(s.last(), sort_desc(s.drop_last()));
        assert(s =~= s.drop_last().push(s.last()));
        assert(sort_desc(s).to_multiset() =~= s.to_multiset());
    }
}

/// Filtering keeps nothing when the predicate holds nowhere.
proof fn lemma_filter_all_false(s: Seq<PageV>, pred: spec_fn(PageV) -> bool)
    requires
        forall|k: int| 0 <= k < s.len() ==> !pred(s[k]),
    ensures
        s.filter(pred) == Seq::<PageV>::empty(),
    decreases s.len(),
{
    reveal(Seq::filter);
    if s.len() > 0 {
        assert forall|k: int| 0 <= k < s.drop_last().len() implies !pred(s.drop_last()[k]) by {
            assert(s.drop_last()[k] == s[k]);
        }
        lemma_filter_all_false(s.drop_last(), pred);
        assert(!pred(s.last()));
    }
}

/// Filtering a single page keeps it exactly when the predicate holds of it.
proof fn lemma_filter_singleton(p: PageV, pred: spec_fn(PageV) -> bool)
    ensures
        seq![p].filter(pred) == if pred(p) {
            seq![p]
        } else {
            Seq::<PageV>::empty()
        },
{
    reveal_with_fuel(Seq::filter, 2);
    assert(seq![p].drop_last() =~= Seq::<PageV>::empty());
    if pred(p) {
        assert(seq![p].filter(pred) =~= seq![p]);
    } else {
        assert(seq![p].filter(pred) =~= Seq::<PageV>::empty());
    }
}

proof fn lemma_insert_desc_filter(p: PageV, s: Seq<PageV>, d: int)
    requires
        spec_sorted_desc(s),
    ensures
        with_date(insert_desc(p, s), d) == if p.metadata.date == d {
            with_date(s, d).push(p)
        } else {
            with_date(s, d)
        },
{
    broadcast use vstd::seq_lib::group_filter_ensures;

    let pred = |q: PageV| q.metadata.date == d;
    lemma_first_older_bounds(p, s);
    lemma_insert_desc_shape(p, s);
    let j = first_older(p, s);
    let front = s.subrange(0, j);
    let back = s.subrange(j, s.len() as int);
    assert(s.insert(j, p) == front.push(p) + back);
    Seq::filter_distributes_over_add(front.push(p), back, pred);
    assert(front.push(p) =~= front + seq![p]);
    Seq::filter_distributes_over_add(front, seq![p], pred);
    Seq::filter_distributes_over_add(front, back, pred);
    assert(front + back =~= s);
    lemma_filter_singleton(p, pred);
    if p.metadata.date == d {
        // Every page of `back` is strictly older than `p`, so none carries `d`.
        assert forall|k: int| 0 <= k < back.len() implies !pred(back[k]) by {
            if j < s.len() {
                assert(s[j].metadata.date < p.metadata.date);
                assert(back[k] == s[j + k]);
            }
        }
        lemma_filter_all_false(back, pred);
        assert(with_date(insert_desc(p, s), d) =~= with_date(s, d).push(p));
    } else {
        assert(with_date(insert_desc(p, s), d) =~= with_date(s, d));
    }
}

/// Stability of the members' order: for any date, the members carrying that
/// date stand in the same order as in the directory listing.
pub proof fn lemma_sort_desc_stable(s: Seq<PageV>, d: int)
    ensures
        with_date(sort_desc(s), d) == with_date(s, d),
    decreases s.len(),
{
    broadcast use vstd::seq_lib::group_filter_ensures;

    let pred = |q: PageV| q.metadata.date == d;
    if s.len() > 0 {
        lemma_sort_desc_stable(s.drop_last(), d);
        lemma_sort_desc_sorted(s.drop_last());
        lemma_insert_desc_filter(s.last(), sort_desc(s.drop_last()), d);
        assert(s =~= s.drop_last() + seq![s.last()]);
        Seq::filter_distributes_over_add(s.drop_last(), seq![s.last()], pred);
        lemma_filter_singleton(s.last(), pred);
        if pred(s.last()) {
            assert(with_date(s.drop_last(), d).push(s.last()) =~= with_date(s.drop_last(), d)
                + seq![s.last()]);
        }
        assert(with_date(sort_desc(s), d) =~= with_date(s, d));
    } else {
        assert(with_date(sort_desc(s), d) =~= with_date(s, d));
    }
}

/// Insert one page into already sorted pages, after every page at least as
/// new.
fn insert_page(out: &mut Vec<Page>, p: Page)
    ensures
        final(out).deep_view() == insert_desc(p@, old(out).deep_view()),
{
    let mut j: usize = 0;
    while j < out.len() && out[j].metadata.date >= p.metadata.date
        invariant
            j <= out.len(),
            out == old(out),
            out.len() == out.deep_view().len(),
            forall|k: int| 0 <= k < j ==> out.deep_view()[k].metadata.date >= p@.metadata.date,
        decreases out.len() - j,
    {
        j += 1;
    }
    proof {
        lemma_insert_desc_at(p@, out.deep_view(), j as int);
    }
    out.insert(j, p);
    proof {
        assert(final(out).deep_view() =~= old(out).deep_view().insert(
            j as int,
            p@,
        ));
    }
}

/// An insertion at the boundary position is exactly `insert_desc`.
proof fn lemma_insert_desc_at(p: PageV, s: Seq<PageV>, j: int)
    requires
        0 <= j <= s.len(),
        forall|k: int| 0 <= k < j ==> s[k].metadata.date >= p.metadata.date,
        j < s.len() ==> s[j].metadata.date < p.metadata.date,
    ensures
        insert_desc(p, s) == s.insert(j, p),
    decreases s.len(),
{
    if j == 0 {
        if s.len() == 0 {
            assert(insert_desc(p, s) =~= s.insert(0, p));
        } else {
            assert(insert_desc(p, s) =~= s.insert(0, p));
        }
    } else {
        assert(s[0].metadata.date >= p.metadata.date);
        assert forall|k: int| 0 <= k < j - 1 implies s.drop_first()[k].metadata.date
            >= p.metadata.date by {
            assert(s.drop_first()[k] == s[k + 1]);
        }
        if j - 1 < s.drop_first().len() {
            assert(s.drop_first()[j - 1] == s[j]);
        }
        lemma_insert_desc_at(p, s.drop_first(), j - 1);
        assert(insert_desc(p, s) =~= s.insert(j, p));
    }
}

/// Sort a directory's members by publication date, newest first, stable on
/// ties.
pub fn sort_pages(pages: Vec<Page>) -> (r: Vec<Page>)
    ensures
        r.deep_view() == sort_desc(pages.deep_view()),
{
    let mut out: Vec<Page> = Vec::new();
    let mut i: usize = 0;
    while i < pages.len()
        invariant
            i <= pages.len(),
            out.deep_view() == sort_desc(pages.deep_view().take(i as int)),
        decreases pages.len() - i,
    {
        insert_page(&mut out, pages[i].duplicate());
        proof {
            assert(pages.deep_view().take(i + 1 as int).drop_last() =~= pages.deep_view().take(
                i as int,
            ));
            assert(pages.deep_view().take(i + 1 as int).last() == pages.deep_view()[i as int]);
        }
        i += 1;
    }
    proof {
        assert(pages.deep_view().take(pages.deep_view().len() as int) =~= pages.deep_view());
    }
    out
}

} // verus!
