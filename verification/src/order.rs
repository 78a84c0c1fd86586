//! The order of package names: bytewise, as strings are ordered, and the
//! sorting of a list by it.

use vstd::prelude::*;
use vstd::string::*;
use vstd::utf8::encode_utf8;

use crate::gateway::{SizeEntry, SizeEntryView};

verus! {

/// Whether `a` stands before `b` in the lexicographic order of bytes.
pub open spec fn bytes_lt(a: Seq<u8>, b: Seq<u8>) -> bool
    decreases a.len(),
{
    if b.len() == 0 {
        false
    } else if a.len() == 0 {
        true
    } else if a[0] != b[0] {
        a[0] < b[0]
    } else {
        bytes_lt(a.drop_first(), b.drop_first())
    }
}

/// Whether the name `a` stands before the name `b`: by the bytes of their
/// UTF-8 forms.
pub open spec fn name_lt(a: Seq<char>, b: Seq<char>) -> bool {
    bytes_lt(encode_utf8(a), encode_utf8(b))
}

/// A sorted list with `x` put in before the first name that stands after
/// it.
pub open spec fn insert_sorted(sorted: Seq<Seq<char>>, x: Seq<char>) -> Seq<Seq<char>>
    decreases sorted.len(),
{
    if sorted.len() == 0 {
        seq![x]
    } else if name_lt(x, sorted[0]) {
        seq![x] + sorted
    } else {
        seq![sorted[0]] + insert_sorted(sorted.drop_first(), x)
    }
}

/// The names of `names` in rising order; names that are equal keep their
/// order.
pub open spec fn sorted_names(names: Seq<Seq<char>>) -> Seq<Seq<char>>
    decreases names.len(),
{
    if names.len() == 0 {
        Seq::empty()
    } else {
        insert_sorted(sorted_names(names.drop_last()), names.last())
    }
}

/// Where the insertion goes: `x` is put in at `p` when it stands before
/// none of the first `p` names and before the name at `p`, or `p` is the
/// end.
pub proof fn lemma_insert_at(sorted: Seq<Seq<char>>, x: Seq<char>, p: int)
    requires
        0 <= p <= sorted.len(),
        forall|j: int| 0 <= j < p ==> !name_lt(x, #[trigger] sorted[j]),
        p < sorted.len() ==> name_lt(x, sorted[p]),
    ensures
        insert_sorted(sorted, x) == sorted.insert(p, x),
    decreases p,
{
    if p == 0 {
        if sorted.len() == 0 {
            assert(sorted.insert(0, x) =~= seq![x]);
        } else {
            assert(sorted.insert(0, x) =~= seq![x] + sorted);
        }
    } else {
        let rest = sorted.drop_first();
        assert forall|j: int| 0 <= j < p - 1 implies !name_lt(x, #[trigger] rest[j]) by {
            assert(rest[j] == sorted[j + 1]);
        }
        assert(!name_lt(x, sorted[0]));
        lemma_insert_at(rest, x, p - 1);
        assert(sorted.insert(p, x) =~= seq![sorted[0]] + rest.insert(p - 1, x));
    }
}

/// Whether a list of names rises: no name stands before one that precedes
/// it in the list.
pub open spec fn rises(names: Seq<Seq<char>>) -> bool {
    forall|i: int, j: int|
        0 <= i < j < names.len() ==> !name_lt(#[trigger] names[j], #[trigger] names[i])
}

/// The order of bytes is transitive.
pub proof fn lemma_bytes_lt_transitive(a: Seq<u8>, b: Seq<u8>, c: Seq<u8>)
    requires
        bytes_lt(a, b),
        bytes_lt(b, c),
    ensures
        bytes_lt(a, c),
    decreases a.len(),
{
    if a.len() > 0 && a[0] == b[0] && b[0] == c[0] {
        lemma_bytes_lt_transitive(a.drop_first(), b.drop_first(), c.drop_first());
    }
}

/// Where `x` goes in a sorted list: before the first name that stands
/// after it.
pub open spec fn insertion_point(sorted: Seq<Seq<char>>, x: Seq<char>) -> int
    decreases sorted.len(),
{
    if sorted.len() == 0 || name_lt(x, sorted[0]) {
        0
    } else {
        1 + insertion_point(sorted.drop_first(), x)
    }
}

proof fn lemma_insertion_point(sorted: Seq<Seq<char>>, x: Seq<char>)
    ensures
        0 <= insertion_point(sorted, x) <= sorted.len(),
        forall|j: int| 0 <= j < insertion_point(sorted, x) ==> !name_lt(x, #[trigger] sorted[j]),
        insertion_point(sorted, x) < sorted.len() ==> name_lt(x, sorted[insertion_point(sorted, x)]),
        insert_sorted(sorted, x) == sorted.insert(insertion_point(sorted, x), x),
    decreases sorted.len(),
{
    if sorted.len() > 0 && !name_lt(x, sorted[0]) {
        let rest = sorted.drop_first();
        lemma_insertion_point(rest, x);
        assert forall|j: int| 0 <= j < insertion_point(sorted, x) implies !name_lt(
            x,
            #[trigger] sorted[j],
        ) by {
            if j > 0 {
                assert(rest[j - 1] == sorted[j]);
            }
        }
    }
    lemma_insert_at(sorted, x, insertion_point(sorted, x));
}

/// Putting a name into a rising list leaves it rising.
pub proof fn lemma_insert_sorted_rises(sorted: Seq<Seq<char>>, x: Seq<char>)
    requires
        rises(sorted),
    ensures
        rises(insert_sorted(sorted, x)),
{
    lemma_insertion_point(sorted, x);
    let p = insertion_point(sorted, x);
    let all = insert_sorted(sorted, x);
    assert forall|i: int, j: int| 0 <= i < j < all.len() implies !name_lt(
        #[trigger] all[j],
        #[trigger] all[i],
    ) by {
        if j < p {
            assert(all[i] == sorted[i] && all[j] == sorted[j]);
        } else if j == p {
            assert(all[i] == sorted[i]);
        } else if i < p {
            assert(all[i] == sorted[i] && all[j] == sorted[j - 1]);
        } else if i == p {
            assert(all[j] == sorted[j - 1]);
            if name_lt(all[j], x) {
                lemma_bytes_lt_transitive(
                    encode_utf8(sorted[j - 1]),
                    encode_utf8(x),
                    encode_utf8(sorted[p]),
                );
                if j - 1 > p {
                    assert(!name_lt(sorted[j - 1], sorted[p]));
                } else {
                    lemma_bytes_lt_irreflexive(encode_utf8(sorted[p]));
                }
            }
        } else {
            assert(all[i] == sorted[i - 1] && all[j] == sorted[j - 1]);
        }
    }
}

/// No byte string stands before itself.
pub proof fn lemma_bytes_lt_irreflexive(a: Seq<u8>)
    ensures
        !bytes_lt(a, a),
    decreases a.len(),
{
    if a.len() > 0 {
        lemma_bytes_lt_irreflexive(a.drop_first());
    }
}

/// The sorted names rise.
pub proof fn lemma_sorted_names_rise(names: Seq<Seq<char>>)
    ensures
        rises(sorted_names(names)),
    decreases names.len(),
{
    if names.len() > 0 {
        lemma_sorted_names_rise(names.drop_last());
        lemma_insert_sorted_rises(sorted_names(names.drop_last()), names.last());
    }
}

/// Sorting neither adds nor loses a name.
pub proof fn lemma_sorted_names_same_names(names: Seq<Seq<char>>)
    ensures
        sorted_names(names).len() == names.len(),
        sorted_names(names).to_multiset() == names.to_multiset(),
    decreases names.len(),
{
    broadcast use vstd::seq_lib::group_to_multiset_ensures;

    if names.len() > 0 {
        let head = names.drop_last();
        lemma_sorted_names_same_names(head);
        lemma_insert_sorted_same_names(sorted_names(head), names.last());
        assert(names == head.push(names.last()));
    } else {
        assert(sorted_names(names) =~= names);
    }
}

proof fn lemma_insert_names(s: Seq<Seq<char>>, p: int, x: Seq<char>)
    requires
        0 <= p <= s.len(),
    ensures
        s.insert(p, x).to_multiset() == s.to_multiset().insert(x),
{
    broadcast use vstd::seq_lib::group_to_multiset_ensures;

    let t = s.insert(p, x);
    assert(t.remove(p) =~= s);
    assert(t[p] == x);
    assert(t.to_multiset().remove(x).insert(x) =~= t.to_multiset());
}

/// Putting in a name adds that name and no other.
pub proof fn lemma_insert_sorted_same_names(sorted: Seq<Seq<char>>, x: Seq<char>)
    ensures
        insert_sorted(sorted, x).len() == sorted.len() + 1,
        insert_sorted(sorted, x).to_multiset() == sorted.to_multiset().insert(x),
    decreases sorted.len(),
{
    broadcast use vstd::seq_lib::group_to_multiset_ensures;

    if sorted.len() == 0 {
        assert(seq![x] =~= Seq::<Seq<char>>::empty().push(x));
        assert(sorted =~= Seq::<Seq<char>>::empty());
    } else if name_lt(x, sorted[0]) {
        assert(seq![x] + sorted =~= sorted.insert(0, x));
        lemma_insert_names(sorted, 0, x);
    } else {
        let rest = sorted.drop_first();
        lemma_insert_sorted_same_names(rest, x);
        let tail = insert_sorted(rest, x);
        assert(seq![sorted[0]] + tail =~= tail.insert(0, sorted[0]));
        lemma_insert_names(tail, 0, sorted[0]);
        assert(sorted =~= rest.insert(0, sorted[0]));
        lemma_insert_names(rest, 0, sorted[0]);
        assert(rest.to_multiset().insert(x).insert(sorted[0]) =~= rest.to_multiset().insert(
            sorted[0],
        ).insert(x));
    }
}

fn bytes_before(a: &[u8], b: &[u8]) -> (before: bool)
    ensures
        before == bytes_lt(a@, b@),
{
    let mut i: usize = 0;
    proof {
        assert(a@.skip(0) == a@);
        assert(b@.skip(0) == b@);
    }
    while i < a.len() && i < b.len()
        invariant
            i <= a@.len(),
            i <= b@.len(),
            bytes_lt(a@, b@) == bytes_lt(a@.skip(i as int), b@.skip(i as int)),
        decreases a@.len() - i,
    {
        proof {
            assert(a@.skip(i as int)[0] == a@[i as int]);
            assert(b@.skip(i as int)[0] == b@[i as int]);
            assert(a@.skip(i as int).drop_first() == a@.skip(i + 1));
            assert(b@.skip(i as int).drop_first() == b@.skip(i + 1));
        }
        if a[i] != b[i] {
            return a[i] < b[i];
        }
        i = i + 1;
    }
    i < b.len()
}

/// Whether the name `a` stands before the name `b`.
pub fn name_before(a: &str, b: &str) -> (before: bool)
    ensures
        before == name_lt(a@, b@),
{
    bytes_before(a.as_bytes(), b.as_bytes())
}

/// Sorts names into rising order.
pub fn sort_names(names: Vec<String>) -> (out: Vec<String>)
    ensures
        out.deep_view() == sorted_names(names.deep_view()),
{
    let mut out: Vec<String> = Vec::new();
    let mut names = names;
    let ghost all = names.deep_view();
    let mut taken: usize = 0;
    let total = names.len();
    proof {
        assert(out.deep_view() =~= sorted_names(all.take(0)));
    }
    while taken < total
        invariant
            taken <= total,
            total == names.len(),
            names.deep_view() == all,
            out.len() == taken,
            out.deep_view() == sorted_names(all.take(taken as int)),
        decreases total - taken,
    {
        let name = names[taken].clone();
        let mut p: usize = 0;
        while p < out.len() && !name_before(name.as_str(), out[p].as_str())
            invariant
                p <= out.len(),
                forall|j: int| 0 <= j < p ==> !name_lt(name@, #[trigger] out.deep_view()[j]),
            decreases out.len() - p,
        {
            p = p + 1;
        }
        proof {
            lemma_insert_at(out.deep_view(), name@, p as int);
            assert(all.take(taken + 1).drop_last() == all.take(taken as int));
            assert(all.take(taken + 1).last() == name@);
        }
        let ghost before = out.deep_view();
        out.insert(p, name);
        proof {
            assert(out.deep_view() =~= before.insert(p as int, name@));
        }
        taken = taken + 1;
    }
    proof {
        assert(all.take(total as int) == all);
    }
    out
}

/// A list of footprints, largest first, with `x` put in before the first
/// entry that is smaller.
pub open spec fn insert_by_size(sorted: Seq<SizeEntryView>, x: SizeEntryView) -> Seq<SizeEntryView>
    decreases sorted.len(),
{
    if sorted.len() == 0 {
        seq![x]
    } else if sorted[0].size_kb < x.size_kb {
        seq![x] + sorted
    } else {
        seq![sorted[0]] + insert_by_size(sorted.drop_first(), x)
    }
}

/// The footprints with the largest first; entries of equal size keep
/// their order.
pub open spec fn sorted_sizes(sizes: Seq<SizeEntryView>) -> Seq<SizeEntryView>
    decreases sizes.len(),
{
    if sizes.len() == 0 {
        Seq::empty()
    } else {
        insert_by_size(sorted_sizes(sizes.drop_last()), sizes.last())
    }
}

proof fn lemma_insert_size_at(sorted: Seq<SizeEntryView>, x: SizeEntryView, p: int)
    requires
        0 <= p <= sorted.len(),
        forall|j: int| 0 <= j < p ==> (#[trigger] sorted[j]).size_kb >= x.size_kb,
        p < sorted.len() ==> sorted[p].size_kb < x.size_kb,
    ensures
        insert_by_size(sorted, x) == sorted.insert(p, x),
    decreases p,
{
    if p == 0 {
        if sorted.len() == 0 {
            assert(sorted.insert(0, x) =~= seq![x]);
        } else {
            assert(sorted.insert(0, x) =~= seq![x] + sorted);
        }
    } else {
        let rest = sorted.drop_first();
        assert forall|j: int| 0 <= j < p - 1 implies (#[trigger] rest[j]).size_kb >= x.size_kb by {
            assert(rest[j] == sorted[j + 1]);
        }
        assert(sorted[0].size_kb >= x.size_kb);
        lemma_insert_size_at(rest, x, p - 1);
        assert(sorted.insert(p, x) =~= seq![sorted[0]] + rest.insert(p - 1, x));
    }
}

/// Whether sizes fall: no entry is larger than one before it.
pub open spec fn falls(sizes: Seq<SizeEntryView>) -> bool {
    forall|i: int, j: int|
        0 <= i < j < sizes.len() ==> (#[trigger] sizes[i]).size_kb >= (#[trigger] sizes[j]).size_kb
}

/// Putting an entry into a falling list leaves it falling, one entry
/// longer.
pub proof fn lemma_insert_by_size_falls(sorted: Seq<SizeEntryView>, x: SizeEntryView)
    requires
        falls(sorted),
    ensures
        falls(insert_by_size(sorted, x)),
        insert_by_size(sorted, x).len() == sorted.len() + 1,
    decreases sorted.len(),
{
    if sorted.len() > 0 && sorted[0].size_kb >= x.size_kb {
        let rest = sorted.drop_first();
        assert forall|i: int, j: int| 0 <= i < j < rest.len() implies (#[trigger] rest[i]).size_kb
            >= (#[trigger] rest[j]).size_kb by {
            assert(rest[i] == sorted[i + 1]);
            assert(rest[j] == sorted[j + 1]);
        }
        lemma_insert_by_size_falls(rest, x);
        lemma_insert_by_size_bounded(rest, x, sorted[0].size_kb);
        let tail = insert_by_size(rest, x);
        let all = insert_by_size(sorted, x);
        assert forall|i: int, j: int| 0 <= i < j < all.len() implies (#[trigger] all[i]).size_kb
            >= (#[trigger] all[j]).size_kb by {
            assert(all[j] == tail[j - 1]);
            if i > 0 {
                assert(all[i] == tail[i - 1]);
            }
        }
    } else if sorted.len() > 0 {
        let all = insert_by_size(sorted, x);
        assert forall|i: int, j: int| 0 <= i < j < all.len() implies (#[trigger] all[i]).size_kb
            >= (#[trigger] all[j]).size_kb by {
            assert(all[j] == sorted[j - 1]);
            if i > 0 {
                assert(all[i] == sorted[i - 1]);
            } else {
                assert(sorted[0].size_kb >= sorted[j - 1].size_kb) by {
                    if j - 1 > 0 {
                    }
                }
            }
        }
    }
}

proof fn lemma_insert_by_size_bounded(sorted: Seq<SizeEntryView>, x: SizeEntryView, top: u64)
    requires
        forall|j: int| 0 <= j < sorted.len() ==> (#[trigger] sorted[j]).size_kb <= top,
        x.size_kb <= top,
    ensures
        forall|j: int|
            0 <= j < insert_by_size(sorted, x).len() ==> (#[trigger] insert_by_size(
                sorted,
                x,
            )[j]).size_kb <= top,
    decreases sorted.len(),
{
    if sorted.len() > 0 && sorted[0].size_kb >= x.size_kb {
        let rest = sorted.drop_first();
        assert forall|j: int| 0 <= j < rest.len() implies (#[trigger] rest[j]).size_kb <= top by {
            assert(rest[j] == sorted[j + 1]);
        }
        lemma_insert_by_size_bounded(rest, x, top);
        let tail = insert_by_size(rest, x);
        let all = insert_by_size(sorted, x);
        assert forall|j: int| 0 <= j < all.len() implies (#[trigger] all[j]).size_kb <= top by {
            if j > 0 {
                assert(all[j] == tail[j - 1]);
            }
        }
    } else if sorted.len() > 0 {
        let all = insert_by_size(sorted, x);
        assert forall|j: int| 0 <= j < all.len() implies (#[trigger] all[j]).size_kb <= top by {
            if j > 0 {
                assert(all[j] == sorted[j - 1]);
            }
        }
    }
}

/// The sorted footprints fall, and there are as many as before.
pub proof fn lemma_sorted_sizes_fall(sizes: Seq<SizeEntryView>)
    ensures
        falls(sorted_sizes(sizes)),
        sorted_sizes(sizes).len() == sizes.len(),
    decreases sizes.len(),
{
    if sizes.len() > 0 {
        lemma_sorted_sizes_fall(sizes.drop_last());
        lemma_insert_by_size_falls(sorted_sizes(sizes.drop_last()), sizes.last());
    }
}

/// Sorts footprints, the largest first.
pub fn sort_sizes(sizes: Vec<SizeEntry>) -> (out: Vec<SizeEntry>)
    ensures
        out.deep_view() == sorted_sizes(sizes.deep_view()),
{
    let mut out: Vec<SizeEntry> = Vec::new();
    let mut sizes = sizes;
    let ghost all = sizes.deep_view();
    let mut taken: usize = 0;
    let total = sizes.len();
    proof {
        assert(out.deep_view() =~= sorted_sizes(all.take(0)));
    }
    while taken < total
        invariant
            taken <= total,
            total == sizes.len(),
            sizes.deep_view() == all,
            out.len() == taken,
            out.deep_view() == sorted_sizes(all.take(taken as int)),
        decreases total - taken,
    {
        let entry = SizeEntry { name: sizes[taken].name.clone(), size_kb: sizes[taken].size_kb };
        let mut p: usize = 0;
        while p < out.len() && out[p].size_kb >= entry.size_kb
            invariant
                p <= out.len(),
                forall|j: int| 0 <= j < p ==> (#[trigger] out.deep_view()[j]).size_kb >= entry.size_kb,
            decreases out.len() - p,
        {
            proof {
                assert(out.deep_view()[p as int].size_kb == out[p as int].size_kb);
            }
            p = p + 1;
        }
        proof {
            if p < out.len() {
                assert(out.deep_view()[p as int].size_kb == out[p as int].size_kb);
            }
            lemma_insert_size_at(out.deep_view(), entry@, p as int);
            assert(all.take(taken + 1).drop_last() == all.take(taken as int));
            assert(all.take(taken + 1).last() == entry@);
        }
        let ghost before = out.deep_view();
        let ghost added = entry@;
        out.insert(p, entry);
        proof {
            assert(out.deep_view() =~= before.insert(p as int, added));
        }
        taken = taken + 1;
    }
    proof {
        assert(all.take(total as int) == all);
    }
    out
}

} // verus!
