//! Sorting by label, in alphabetical order, without reordering equal labels.

use crate::text::{label_le, str_le};
use vstd::prelude::*;

verus! {

/// Something that has a label.
pub trait Labelled {
    /// The label, as text.
    spec fn label_seq(&self) -> Seq<char>;

    /// The label.
    fn label_text(&self) -> (label: &str)
        ensures
            label@ == self.label_seq(),
    ;
}

/// Where `x` goes into a list that is sorted by label: behind the last item whose
/// label does not come after the label of `x`.
pub open spec fn insert_position<T: Labelled>(s: Seq<T>, x: T) -> int
    decreases s.len(),
{
    if s.len() == 0 {
        0
    } else if label_le(s.last().label_seq(), x.label_seq()) {
        s.len() as int
    } else {
        insert_position(s.drop_last(), x)
    }
}

/// The list sorted by label; items with equal labels keep their order.
pub open spec fn sorted_by_label<T: Labelled>(s: Seq<T>) -> Seq<T>
    decreases s.len(),
{
    if s.len() == 0 {
        s
    } else {
        let front = sorted_by_label(s.drop_last());
        front.insert(insert_position(front, s.last()), s.last())
    }
}

/// Each item's label does not come after the label of the next.
pub open spec fn is_sorted<T: Labelled>(s: Seq<T>) -> bool {
    forall|i: int| 0 <= i < s.len() - 1 ==> label_le((#[trigger] s[i]).label_seq(), s[i + 1].label_seq())
}

/// The place where an item goes lies within the list or just behind it.
pub proof fn lemma_insert_position_range<T: Labelled>(s: Seq<T>, x: T)
    ensures
        0 <= insert_position(s, x) <= s.len(),
    decreases s.len(),
{
    if s.len() > 0 && !label_le(s.last().label_seq(), x.label_seq()) {
        lemma_insert_position_range(s.drop_last(), x);
    }
}

/// Sorting keeps the length of the list.
pub proof fn lemma_sorted_len<T: Labelled>(s: Seq<T>)
    ensures
        sorted_by_label(s).len() == s.len(),
    decreases s.len(),
{
    if s.len() > 0 {
        lemma_sorted_len(s.drop_last());
        lemma_insert_position_range(sorted_by_label(s.drop_last()), s.last());
    }
}

/// Sorting keeps the items of the list, each as often as it was there.
pub proof fn lemma_sorted_permutes<T: Labelled>(s: Seq<T>)
    ensures
        sorted_by_label(s).to_multiset() == s.to_multiset(),
    decreases s.len(),
{
    broadcast use vstd::seq_lib::group_to_multiset_ensures;

    if s.len() > 0 {
        let front = sorted_by_label(s.drop_last());
        lemma_sorted_permutes(s.drop_last());
        lemma_insert_position_range(front, s.last());
        let p = insert_position(front, s.last());
        assert(front.insert(p, s.last()).to_multiset() == front.to_multiset().insert(s.last()));
        assert(s =~= s.drop_last().push(s.last()));
        assert(s.to_multiset() == s.drop_last().to_multiset().insert(s.last()));
    }
}

/// The label order is total: of two labels, one does not come after the other.
pub proof fn lemma_label_le_total(a: Seq<char>, b: Seq<char>)
    ensures
        label_le(a, b) || label_le(b, a),
    decreases a.len(),
{
    if a.len() > 0 && b.len() > 0 {
        if a[0] == b[0] {
            lemma_label_le_total(a.drop_first(), b.drop_first());
        } else {
            assert(a[0] as int != b[0] as int);
        }
    }
}

/// The label order is transitive.
pub proof fn lemma_label_le_transitive(a: Seq<char>, b: Seq<char>, c: Seq<char>)
    requires
        label_le(a, b),
        label_le(b, c),
    ensures
        label_le(a, c),
    decreases a.len(),
{
    if a.len() > 0 && b.len() > 0 && c.len() > 0 {
        if a[0] == b[0] && b[0] == c[0] {
            lemma_label_le_transitive(a.drop_first(), b.drop_first(), c.drop_first());
        }
    }
}

/// In a sorted list every item behind the place where `x` goes has a label that
/// comes after the label of `x`, and every item before it has one that does not.
proof fn lemma_insert_position_splits<T: Labelled>(s: Seq<T>, x: T)
    requires
        is_sorted(s),
    ensures
        forall|i: int| insert_position(s, x) <= i < s.len() ==> !label_le((#[trigger] s[i]).label_seq(), x.label_seq()),
        forall|i: int| 0 <= i < insert_position(s, x) ==> label_le((#[trigger] s[i]).label_seq(), x.label_seq()),
    decreases s.len(),
{
    if s.len() > 0 {
        let front = s.drop_last();
        assert(is_sorted(front)) by {
            assert forall|i: int| 0 <= i < front.len() - 1 implies label_le(
                (#[trigger] front[i]).label_seq(),
                front[i + 1].label_seq(),
            ) by {
                assert(front[i] == s[i]);
                assert(front[i + 1] == s[i + 1]);
            }
        }
        if label_le(s.last().label_seq(), x.label_seq()) {
            assert forall|i: int| 0 <= i < s.len() implies label_le((#[trigger] s[i]).label_seq(), x.label_seq()) by {
                lemma_sorted_pair(s, i, s.len() - 1);
                lemma_label_le_transitive(s[i].label_seq(), s.last().label_seq(), x.label_seq());
            }
        } else {
            lemma_insert_position_splits(front, x);
            lemma_insert_position_range(front, x);
            assert forall|i: int| insert_position(s, x) <= i < s.len() implies !label_le(
                (#[trigger] s[i]).label_seq(),
                x.label_seq(),
            ) by {
                if i < s.len() - 1 {
                    assert(front[i] == s[i]);
                }
            }
            assert forall|i: int| 0 <= i < insert_position(s, x) implies label_le(
                (#[trigger] s[i]).label_seq(),
                x.label_seq(),
            ) by {
                assert(front[i] == s[i]);
            }
        }
    }
}

/// In a sorted list an item's label does not come after the label of any later item.
proof fn lemma_sorted_pair<T: Labelled>(s: Seq<T>, i: int, j: int)
    requires
        is_sorted(s),
        0 <= i <= j < s.len(),
    ensures
        label_le(s[i].label_seq(), s[j].label_seq()),
    decreases j - i,
{
    if i == j {
        lemma_label_le_total(s[i].label_seq(), s[i].label_seq());
    } else {
        lemma_sorted_pair(s, i + 1, j);
        assert(label_le(s[i].label_seq(), s[i + 1].label_seq()));
        lemma_label_le_transitive(s[i].label_seq(), s[i + 1].label_seq(), s[j].label_seq());
    }
}

/// The sorted list is sorted.
pub proof fn lemma_sorted_is_sorted<T: Labelled>(s: Seq<T>)
    ensures
        is_sorted(sorted_by_label(s)),
    decreases s.len(),
{
    if s.len() > 0 {
        let front = sorted_by_label(s.drop_last());
        let x = s.last();
        lemma_sorted_is_sorted(s.drop_last());
        lemma_insert_position_range(front, x);
        lemma_insert_position_splits(front, x);
        let p = insert_position(front, x);
        let out = front.insert(p, x);
        assert forall|i: int| 0 <= i < out.len() - 1 implies label_le(
            (#[trigger] out[i]).label_seq(),
            out[i + 1].label_seq(),
        ) by {
            if i + 1 < p {
                assert(out[i] == front[i]);
                assert(out[i + 1] == front[i + 1]);
            } else if i + 1 == p {
                assert(out[i] == front[i]);
                assert(out[i + 1] == x);
            } else if i == p {
                assert(out[i] == x);
                assert(out[i + 1] == front[i]);
                lemma_label_le_total(front[i].label_seq(), x.label_seq());
            } else {
                assert(out[i] == front[i - 1]);
                assert(out[i + 1] == front[i]);
                assert(label_le(front[i - 1].label_seq(), front[i - 1 + 1].label_seq()));
            }
        }
    }
}

/// Sorts a list by label, in alphabetical order; items with equal labels keep their
/// order.
pub fn sort_by_label<T: Labelled>(v: &mut Vec<T>)
    ensures
        final(v)@ == sorted_by_label(old(v)@),
{
    let n = v.len();
    let mut i: usize = 0;
    assert(v@.take(0) =~= sorted_by_label(old(v)@.take(0)));
    while i < n
        invariant
            v.len() == n,
            n == old(v).len(),
            i <= n,
            v@.take(i as int) == sorted_by_label(old(v)@.take(i as int)),
            v@.skip(i as int) == old(v)@.skip(i as int),
        decreases n - i,
    {
        let ghost before = v@;
        assert(before[i as int] == old(v)@.skip(i as int)[0]);
        let x = v.remove(i);
        let ghost front = before.take(i as int);
        assert(v@.take(i as int) =~= front);
        assert(front.take(i as int) =~= front);
        let mut p: usize = i;
        let mut searching = true;
        while searching && p > 0
            invariant
                p <= i,
                i < n,
                v.len() == n - 1,
                v@.take(i as int) == front,
                insert_position(front, x) == insert_position(front.take(p as int), x),
                !searching ==> p > 0 && label_le(front[p as int - 1].label_seq(), x.label_seq()),
            decreases p + if searching { 1int } else { 0int },
        {
            assert(v@[p as int - 1] == front[p as int - 1]);
            if str_le(v[p - 1].label_text(), x.label_text()) {
                searching = false;
            } else {
                proof {
                    let s = front.take(p as int);
                    assert(s.last() == front[p as int - 1]);
                    assert(s.drop_last() =~= front.take(p as int - 1));
                }
                p -= 1;
            }
        }
        proof {
            let s = front.take(p as int);
            if p > 0 {
                assert(s.last() == front[p as int - 1]);
            }
            assert(insert_position(front, x) == p);
            assert(front.take(i as int) =~= front);
        }
        v.insert(p, x);
        proof {
            let grown = old(v)@.take(i as int + 1);
            assert(grown.drop_last() =~= old(v)@.take(i as int));
            assert(grown.last() == x);
            assert(v@.take(i as int + 1) =~= front.insert(p as int, x));
            let rest = v@.skip(i as int + 1);
            let want = old(v)@.skip(i as int + 1);
            assert(rest =~= want) by {
                assert forall|k: int| 0 <= k < n - i - 1 implies #[trigger] rest[k] == want[k] by {
                    assert(before.skip(i as int)[k + 1] == old(v)@.skip(i as int)[k + 1]);
                }
            }
        }
        i += 1;
    }
    assert(v@.take(n as int) =~= v@);
    assert(old(v)@.take(n as int) =~= old(v)@);
}

} // verus!
