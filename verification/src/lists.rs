//! Lists of texts: keeping the first of equal entries, and counting distinct ones.

use vstd::prelude::*;

use crate::text::texts;

verus! {

/// `seen` followed by the entries of `more` that are neither in `seen` nor
/// earlier in `more`.
pub open spec fn absorbed(seen: Seq<Seq<char>>, more: Seq<Seq<char>>) -> Seq<Seq<char>>
    decreases more.len(),
{
    if more.len() == 0 {
        seen
    } else {
        let before = absorbed(seen, more.drop_last());
        if before.contains(more.last()) {
            before
        } else {
            before.push(more.last())
        }
    }
}

/// Each entry of `list` once, where it first occurs.
pub open spec fn distinct(list: Seq<Seq<char>>) -> Seq<Seq<char>> {
    absorbed(Seq::empty(), list)
}

/// How many different entries two lists have together.
pub open spec fn union_size(a: Seq<Seq<char>>, b: Seq<Seq<char>>) -> nat {
    a.to_set().union(b.to_set()).len()
}

/// What `absorbed` keeps: the entries of both lists, `seen` in front, nothing twice.
proof fn lemma_absorbed(seen: Seq<Seq<char>>, more: Seq<Seq<char>>)
    requires
        seen.no_duplicates(),
    ensures
        absorbed(seen, more).no_duplicates(),
        forall|x: Seq<char>|
            #[trigger] absorbed(seen, more).contains(x) <==> seen.contains(x) || more.contains(x),
        seen.len() <= absorbed(seen, more).len() <= seen.len() + more.len(),
        absorbed(seen, more).take(seen.len() as int) == seen,
    decreases more.len(),
{
    if more.len() == 0 {
        assert(seen.take(seen.len() as int) =~= seen);
    } else {
        let init = more.drop_last();
        let before = absorbed(seen, init);
        let after = absorbed(seen, more);
        lemma_absorbed(seen, init);
        assert forall|x: Seq<char>| #[trigger] after.contains(x) <==> seen.contains(x)
            || more.contains(x) by {
            if more.contains(x) {
                let i = choose|i: int| 0 <= i < more.len() && more[i] == x;
                if i < init.len() {
                    assert(init[i] == x);
                    assert(init.contains(x));
                }
            }
            if init.contains(x) {
                let i = choose|i: int| 0 <= i < init.len() && init[i] == x;
                assert(more[i] == x);
            }
            assert(more[more.len() - 1] == more.last());
            if !before.contains(more.last()) {
                assert(after == before.push(more.last()));
                if before.contains(x) {
                    let i = choose|i: int| 0 <= i < before.len() && before[i] == x;
                    assert(after[i] == x);
                }
                assert(after[before.len() as int] == more.last());
                if after.contains(x) {
                    let i = choose|i: int| 0 <= i < after.len() && after[i] == x;
                    if i < before.len() {
                        assert(before[i] == x);
                    }
                }
            }
        }
        assert(after.take(seen.len() as int) =~= before.take(seen.len() as int));
    }
}

/// A list without repeated entries absorbs into itself whole.
proof fn lemma_absorbed_all_new(seen: Seq<Seq<char>>, more: Seq<Seq<char>>)
    requires
        (seen + more).no_duplicates(),
    ensures
        absorbed(seen, more) == seen + more,
    decreases more.len(),
{
    if more.len() == 0 {
        assert(seen + more =~= seen);
    } else {
        let init = more.drop_last();
        let joined = seen + more;
        assert(seen + init =~= joined.drop_last());
        assert((seen + init).no_duplicates());
        lemma_absorbed_all_new(seen, init);
        if (seen + init).contains(more.last()) {
            let i = choose|i: int| 0 <= i < (seen + init).len() && (seen + init)[i] == more.last();
            assert(joined[i] == joined[joined.len() - 1]);
        }
        assert((seen + init).push(more.last()) =~= joined);
    }
}

/// Listing the distinct entries loses none, adds none, repeats none, keeps the first
/// one in front, and leaves a list alone that repeats nothing.
pub proof fn law_distinct(list: Seq<Seq<char>>)
    ensures
        distinct(list).no_duplicates(),
        distinct(list).to_set() == list.to_set(),
        distinct(list).len() <= list.len(),
        distinct(list).len() == 0 <==> list.len() == 0,
        list.len() > 0 ==> distinct(list).first() == list.first(),
        list.no_duplicates() ==> distinct(list) == list,
        distinct(distinct(list)) == distinct(list),
{
    let none = Seq::<Seq<char>>::empty();
    lemma_absorbed(none, list);
    assert(distinct(list).to_set() =~= list.to_set()) by {
        assert forall|x: Seq<char>| #[trigger]
            distinct(list).to_set().contains(x) <==> list.to_set().contains(x) by {
            assert(distinct(list).contains(x) <==> list.contains(x));
        }
    }
    if list.len() > 0 {
        lemma_distinct_first(list);
    }
    if list.no_duplicates() {
        assert(none + list =~= list);
        lemma_absorbed_all_new(none, list);
    }
    assert(none + distinct(list) =~= distinct(list));
    lemma_absorbed_all_new(none, distinct(list));
}

proof fn lemma_distinct_first(list: Seq<Seq<char>>)
    requires
        list.len() > 0,
    ensures
        distinct(list).len() > 0,
        distinct(list).first() == list.first(),
    decreases list.len(),
{
    let none = Seq::<Seq<char>>::empty();
    let init = list.drop_last();
    if init.len() > 0 {
        lemma_distinct_first(init);
        assert(init.first() == list.first());
    } else {
        assert(absorbed(none, init) == none);
        assert(list.last() == list.first());
    }
}

/// What a list takes in comes behind what it held, which stays as it is: each entry that it
/// did not hold yet, once.
pub proof fn law_absorbed(seen: Seq<Seq<char>>, more: Seq<Seq<char>>)
    ensures
        ({
            let all = absorbed(seen, more);
            &&& seen.len() <= all.len() <= seen.len() + more.len()
            &&& all.take(seen.len() as int) == seen
            &&& all.skip(seen.len() as int).no_duplicates()
            &&& forall|x: Seq<char>| #[trigger]
                all.skip(seen.len() as int).contains(x) <==> more.contains(x) && !seen.contains(x)
        }),
    decreases more.len(),
{
    let all = absorbed(seen, more);
    let n = seen.len() as int;
    if more.len() == 0 {
        assert(all.take(n) =~= seen);
        assert(all.skip(n) =~= Seq::empty());
    } else {
        let init = more.drop_last();
        let last = more.last();
        let before = absorbed(seen, init);
        law_absorbed(seen, init);
        assert(before =~= seen + before.skip(n));
        assert(more =~= init + seq![last]);
        assert(seq![last].contains(last)) by {
            assert(seq![last][0] == last);
        }
        lemma_concat_contains(seen, before.skip(n), last);
        if !before.contains(last) {
            assert(all.take(n) =~= before.take(n));
            assert(all.skip(n) =~= before.skip(n) + seq![last]);
        }
        assert forall|x: Seq<char>| #[trigger]
            all.skip(n).contains(x) <==> more.contains(x) && !seen.contains(x) by {
            lemma_concat_contains(init, seq![last], x);
            lemma_concat_contains(before.skip(n), seq![last], x);
            assert(before.skip(n).contains(x) <==> init.contains(x) && !seen.contains(x));
            if seq![last].contains(x) {
                assert(x == last);
            }
        }
    }
}

/// What a list takes in stands in the order in which it first occurs.
pub proof fn law_absorbed_keeps_order(
    seen: Seq<Seq<char>>,
    more: Seq<Seq<char>>,
    i: int,
    j: int,
)
    requires
        seen.len() <= i < j < absorbed(seen, more).len(),
    ensures
        more.index_of_first(absorbed(seen, more)[i]) matches Some(at_i)
            && more.index_of_first(absorbed(seen, more)[j]) matches Some(at_j) && at_i < at_j,
    decreases more.len(),
{
    let init = more.drop_last();
    let before = absorbed(seen, init);
    let n = seen.len() as int;
    law_absorbed(seen, init);
    law_absorbed(seen, more);
    let x = absorbed(seen, more)[i];
    let y = absorbed(seen, more)[j];
    assert(before.skip(n)[i - n] == x);
    assert(before.skip(n).contains(x));
    lemma_first_index_of_longer(init, more, x);
    if j < before.len() {
        assert(before.skip(n)[j - n] == y);
        assert(before.skip(n).contains(y));
        law_absorbed_keeps_order(seen, init, i, j);
        lemma_first_index_of_longer(init, more, y);
    } else {
        assert(y == more.last());
        assert(absorbed(seen, more).skip(n)[j - n] == y);
        assert(absorbed(seen, more).skip(n).contains(y));
        assert(!init.contains(y)) by {
            if init.contains(y) {
                assert(before.skip(n).contains(y));
                let at = choose|at: int| 0 <= at < before.skip(n).len() && before.skip(n)[at] == y;
                assert(before[n + at] == y);
                assert(before.contains(y));
            }
        }
        more.index_of_first_ensures(y);
        init.index_of_first_ensures(x);
        let at_y = more.index_of_first(y)->0;
        if at_y < init.len() {
            assert(init[at_y] == y);
        }
    }
}

/// The distinct entries stand in the order in which they first occur.
pub proof fn law_distinct_keeps_order(list: Seq<Seq<char>>, i: int, j: int)
    requires
        0 <= i < j < distinct(list).len(),
    ensures
        list.index_of_first(distinct(list)[i]) matches Some(at_i)
            && list.index_of_first(distinct(list)[j]) matches Some(at_j)
            && at_i < at_j,
{
    law_absorbed_keeps_order(Seq::empty(), list, i, j);
}

proof fn lemma_first_index_of_longer(init: Seq<Seq<char>>, list: Seq<Seq<char>>, x: Seq<char>)
    requires
        list.len() > 0,
        init == list.drop_last(),
        init.contains(x),
    ensures
        init.index_of_first(x) is Some,
        list.index_of_first(x) == init.index_of_first(x),
{
    init.index_of_first_ensures(x);
    let at = init.index_of_first(x)->0;
    assert(list[at] == x);
    assert(list.contains(x));
    list.index_of_first_ensures(x);
    let other = list.index_of_first(x)->0;
    if other < at {
        assert(init[other] == x);
    }
    if at < other {
        assert(list[at] == x);
    }
}

/// Counting the entries of two lists together: what both hold is counted once, the order
/// of the two does not matter, and nothing is counted exactly when both are empty.
pub proof fn law_union_size(a: Seq<Seq<char>>, b: Seq<Seq<char>>)
    ensures
        union_size(a, b) == a.to_set().union(b.to_set()).len(),
        union_size(a, b) == union_size(b, a),
        union_size(a, b) == distinct(a + b).len(),
        union_size(a, b) <= a.len() + b.len(),
        union_size(a, a) == distinct(a).len(),
        union_size(a, b) == 0 <==> a.len() == 0 && b.len() == 0,
        distinct(a).len() <= union_size(a, b),
{
    let none = Seq::<Seq<char>>::empty();
    assert(a.to_set().union(b.to_set()) =~= b.to_set().union(a.to_set()));
    lemma_absorbed(none, a + b);
    lemma_absorbed(none, a);
    assert(distinct(a + b).to_set() =~= a.to_set().union(b.to_set())) by {
        assert forall|x: Seq<char>| #[trigger]
            distinct(a + b).to_set().contains(x) <==> a.to_set().union(b.to_set()).contains(x) by {
            assert(distinct(a + b).contains(x) <==> (a + b).contains(x));
            lemma_concat_contains(a, b, x);
        }
    }
    distinct(a + b).unique_seq_to_set();
    assert(distinct(a).to_set() =~= a.to_set()) by {
        assert forall|x: Seq<char>| #[trigger]
            distinct(a).to_set().contains(x) <==> a.to_set().contains(x) by {
            assert(distinct(a).contains(x) <==> a.contains(x));
        }
    }
    distinct(a).unique_seq_to_set();
    assert(a.to_set().union(a.to_set()) =~= a.to_set());
    if a.len() > 0 {
        assert((a + b)[0] == a[0]);
    } else if b.len() > 0 {
        assert((a + b)[0] == b[0]);
    }
    if (a + b).len() > 0 {
        lemma_distinct_first(a + b);
    }
    vstd::set_lib::lemma_len_subset(a.to_set(), a.to_set().union(b.to_set()));
}

proof fn lemma_concat_contains(a: Seq<Seq<char>>, b: Seq<Seq<char>>, x: Seq<char>)
    ensures
        (a + b).contains(x) <==> a.contains(x) || b.contains(x),
{
    if a.contains(x) {
        let i = choose|i: int| 0 <= i < a.len() && a[i] == x;
        assert((a + b)[i] == x);
    }
    if b.contains(x) {
        let i = choose|i: int| 0 <= i < b.len() && b[i] == x;
        assert((a + b)[a.len() + i] == x);
    }
    if (a + b).contains(x) {
        let i = choose|i: int| 0 <= i < (a + b).len() && (a + b)[i] == x;
        if i < a.len() {
            assert(a[i] == x);
        } else {
            assert(b[i - a.len()] == x);
        }
    }
}

/// Whether `list` holds the text `x`.
pub(crate) fn contains_text(list: &Vec<String>, x: &String) -> (r: bool)
    ensures
        r == texts(list@).contains(x@),
{
    let mut i: usize = 0;
    while i < list.len()
        invariant
            i <= list@.len(),
            forall|j: int| 0 <= j < i ==> (#[trigger] texts(list@)[j]) != x@,
        decreases list@.len() - i,
    {
        if list[i] == *x {
            assert(texts(list@)[i as int] == x@);
            return true;
        }
        i = i + 1;
    }
    false
}

/// Adds to `seen` each entry of `more` that it does not hold yet.
pub fn absorb(seen: &mut Vec<String>, more: &Vec<String>)
    ensures
        texts(final(seen)@) == absorbed(texts(old(seen)@), texts(more@)),
{
    let ghost start = texts(seen@);
    let mut i: usize = 0;
    assert(texts(more@).take(0) =~= Seq::empty());
    while i < more.len()
        invariant
            i <= more@.len(),
            texts(seen@) == absorbed(start, texts(more@).take(i as int)),
        decreases more@.len() - i,
    {
        assert(texts(more@).take(i + 1).drop_last() =~= texts(more@).take(i as int));
        assert(texts(more@).take(i + 1).last() == more@[i as int]@);
        if !contains_text(seen, &more[i]) {
            let ghost earlier = seen@;
            seen.push(more[i].clone());
            assert(texts(seen@) =~= texts(earlier).push(more@[i as int]@));
        }
        i = i + 1;
    }
    assert(texts(more@).take(more@.len() as int) =~= texts(more@));
}

/// The entries of `list`, each where it first occurs.
pub fn keep_first(list: &Vec<String>) -> (r: Vec<String>)
    ensures
        texts(r@) == distinct(texts(list@)),
{
    let mut seen: Vec<String> = Vec::new();
    assert(texts(seen@) =~= Seq::empty());
    absorb(&mut seen, list);
    seen
}

/// Counts the different entries of two lists.
pub fn count_union(a: &Vec<String>, b: &Vec<String>) -> (r: usize)
    ensures
        r == union_size(texts(a@), texts(b@)),
{
    let mut seen: Vec<String> = Vec::new();
    assert(texts(seen@) =~= Seq::empty());
    absorb(&mut seen, a);
    absorb(&mut seen, b);
    proof {
        let x = texts(a@);
        let y = texts(b@);
        lemma_absorbed(Seq::empty(), x);
        lemma_absorbed(distinct(x), y);
        let all = absorbed(distinct(x), y);
        assert(all.to_set() =~= x.to_set().union(y.to_set())) by {
            assert forall|t: Seq<char>| #[trigger]
                all.to_set().contains(t) <==> x.to_set().union(y.to_set()).contains(t) by {
                assert(all.contains(t) <==> distinct(x).contains(t) || y.contains(t));
            }
        }
        all.unique_seq_to_set();
        assert(texts(seen@).len() == seen@.len());
    }
    seen.len()
}

/// Adds a copy of each entry of `more` to the end of `list`.
pub(crate) fn append_texts(list: &mut Vec<String>, more: &Vec<String>)
    ensures
        texts(final(list)@) == texts(old(list)@) + texts(more@),
{
    let ghost start = texts(list@);
    let mut i: usize = 0;
    assert(start + texts(more@).take(0) =~= start);
    while i < more.len()
        invariant
            i <= more@.len(),
            texts(list@) == start + texts(more@).take(i as int),
        decreases more@.len() - i,
    {
        let ghost earlier = list@;
        list.push(more[i].clone());
        assert(texts(list@) =~= texts(earlier).push(more@[i as int]@));
        assert(texts(list@) =~= start + texts(more@).take(i + 1));
        i = i + 1;
    }
    assert(texts(more@).take(more@.len() as int) =~= texts(more@));
}

/// Adds one text to the end of `list`.
pub(crate) fn push_text(list: &mut Vec<String>, x: String)
    ensures
        texts(final(list)@) == texts(old(list)@).push(x@),
{
    let ghost start = list@;
    list.push(x);
    assert(texts(list@) =~= texts(start).push(x@));
}

} // verus!
