//! The filter index: which entries of a list a query leaves visible, and
//! how the selection follows.

use vstd::prelude::*;

use crate::matching::{contains_name, leaf_matches_query, lowercase, lowercase_text, query_matches};
use crate::text::{trim, trimmed};

verus! {

/// Whether entry `i` of `names` is visible: it passes the text query and,
/// where the view is restricted to the names in `only`, is one of them.
pub open spec fn keeps(
    names: Seq<Seq<char>>,
    query: Seq<char>,
    only: Option<Seq<Seq<char>>>,
    i: int,
) -> bool {
    &&& match only {
        Some(allowed) => allowed.contains(names[i]),
        None => true,
    }
    &&& query_matches(names[i], query)
}

/// The visible indices among the first `n` entries, in rising order.
pub open spec fn visible_upto(
    names: Seq<Seq<char>>,
    query: Seq<char>,
    only: Option<Seq<Seq<char>>>,
    n: int,
) -> Seq<usize>
    decreases n,
{
    if n <= 0 {
        Seq::empty()
    } else {
        let head = visible_upto(names, query, only, n - 1);
        if keeps(names, query, only, n - 1) {
            head.push((n - 1) as usize)
        } else {
            head
        }
    }
}

/// The visible indices of `names` under the query `query`, which is
/// trimmed first, in rising order.
pub open spec fn visible(names: Seq<Seq<char>>, query: Seq<char>, only: Option<Seq<Seq<char>>>) -> Seq<
    usize,
> {
    visible_upto(names, trimmed(query), only, names.len() as int)
}

/// Index of the first occurrence of `x` in `s`, or -1 when there is none.
pub open spec fn first_index_of(s: Seq<usize>, x: usize) -> int
    decreases s.len(),
{
    if s.len() == 0 {
        -1
    } else if s[0] == x {
        0
    } else {
        let r = first_index_of(s.drop_first(), x);
        if r < 0 {
            -1
        } else {
            r + 1
        }
    }
}

/// The invariant of a filter index over a list of `len` entries: every
/// visible index points into the list, the visible indices rise strictly,
/// and what is selected is visible.
pub open spec fn index_wf(len: nat, visible: Seq<usize>, selected: Option<usize>) -> bool {
    &&& forall|k: int| 0 <= k < visible.len() ==> #[trigger] visible[k] < len
    &&& forall|a: int, b: int| 0 <= a < b < visible.len() ==> #[trigger] visible[a] < #[trigger] visible[b]
    &&& selected is Some ==> visible.contains(selected->0)
}

/// The selection after the visible set changed: it stays where it is
/// still visible, else it snaps to the first visible entry, else there is
/// none.
pub open spec fn reconciled(visible: Seq<usize>, selected: Option<usize>) -> Option<usize> {
    if visible.len() == 0 {
        None
    } else if selected is Some && first_index_of(visible, selected->0) >= 0 {
        selected
    } else {
        Some(visible[0])
    }
}

/// The selection after one step forward or backward: the neighbour in the
/// visible set, the same entry at either end, and the first visible entry
/// where nothing visible was selected.
pub open spec fn stepped(visible: Seq<usize>, selected: Option<usize>, forward: bool) -> Option<
    usize,
> {
    if visible.len() == 0 {
        None
    } else {
        let pos = if selected is Some {
            first_index_of(visible, selected->0)
        } else {
            -1
        };
        if pos < 0 {
            Some(visible[0])
        } else if forward {
            if pos + 1 < visible.len() {
                Some(visible[pos + 1])
            } else {
                Some(visible[visible.len() - 1])
            }
        } else {
            if pos > 0 {
                Some(visible[pos - 1])
            } else {
                Some(visible[0])
            }
        }
    }
}

/// Where `first_index_of` points, `x` stands, and not before; where it
/// points nowhere, `x` does not occur.
pub proof fn lemma_first_index_of(s: Seq<usize>, x: usize)
    ensures
        -1 <= first_index_of(s, x) < s.len(),
        first_index_of(s, x) >= 0 ==> s[first_index_of(s, x)] == x,
        first_index_of(s, x) >= 0 <==> s.contains(x),
        forall|j: int| 0 <= j < s.len() && j < first_index_of(s, x) ==> #[trigger] s[j] != x,
    decreases s.len(),
{
    if s.len() > 0 && s[0] != x {
        let rest = s.drop_first();
        lemma_first_index_of(rest, x);
        if rest.contains(x) {
            let k = choose|k: int| 0 <= k < rest.len() && rest[k] == x;
            assert(s[k + 1] == x);
        }
        if s.contains(x) {
            let k = choose|k: int| 0 <= k < s.len() && s[k] == x;
            assert(rest[k - 1] == x);
        }
        assert forall|j: int| 0 <= j < s.len() && j < first_index_of(s, x) implies #[trigger] s[j]
            != x by {
            if j > 0 {
                assert(rest[j - 1] == s[j]);
            }
        }
    }
}

/// What is visible among the first `n` entries: indices below `n`, in
/// strictly rising order, each of an entry that is kept, and every kept
/// entry's index is among them.
pub proof fn lemma_visible_upto(
    names: Seq<Seq<char>>,
    query: Seq<char>,
    only: Option<Seq<Seq<char>>>,
    n: int,
)
    requires
        0 <= n <= names.len(),
        n <= usize::MAX,
    ensures
        visible_upto(names, query, only, n).len() <= n,
        forall|k: int|
            0 <= k < visible_upto(names, query, only, n).len() ==> {
                &&& (#[trigger] visible_upto(names, query, only, n)[k]) < n
                &&& keeps(names, query, only, visible_upto(names, query, only, n)[k] as int)
            },
        forall|a: int, b: int|
            0 <= a < b < visible_upto(names, query, only, n).len() ==> (#[trigger] visible_upto(
                names,
                query,
                only,
                n,
            )[a]) < (#[trigger] visible_upto(names, query, only, n)[b]),
        forall|i: int|
            0 <= i < n && keeps(names, query, only, i) ==> visible_upto(names, query, only, n).contains(
                i as usize,
            ),
    decreases n,
{
    if n > 0 {
        lemma_visible_upto(names, query, only, n - 1);
        let head = visible_upto(names, query, only, n - 1);
        let all = visible_upto(names, query, only, n);
        assert forall|i: int| 0 <= i < n && keeps(names, query, only, i) implies all.contains(
            i as usize,
        ) by {
            if i < n - 1 {
                let k = choose|k: int| 0 <= k < head.len() && head[k] == i as usize;
                assert(all[k] == i as usize);
            } else {
                assert(all[all.len() - 1] == i as usize);
            }
        }
    }
}

/// After a rebuild followed by reconciliation the index is well formed: in
/// particular the selection is a visible entry, and there is none exactly
/// when nothing is visible.
pub proof fn lemma_rebuilt_index(
    names: Seq<Seq<char>>,
    query: Seq<char>,
    only: Option<Seq<Seq<char>>>,
    selected: Option<usize>,
)
    requires
        names.len() <= usize::MAX,
    ensures
        index_wf(
            names.len(),
            visible(names, query, only),
            reconciled(visible(names, query, only), selected),
        ),
        reconciled(visible(names, query, only), selected) is None <==> visible(names, query, only).len()
            == 0,
{
    let v = visible(names, query, only);
    lemma_visible_upto(names, trimmed(query), only, names.len() as int);
    lemma_reconciled(v, selected);
}

/// Reconciliation selects a visible entry, and none exactly when nothing
/// is visible; a selection that is visible stays.
pub proof fn lemma_reconciled(visible: Seq<usize>, selected: Option<usize>)
    ensures
        reconciled(visible, selected) is None <==> visible.len() == 0,
        reconciled(visible, selected) is Some ==> visible.contains(reconciled(visible, selected)->0),
        selected is Some && visible.contains(selected->0) ==> reconciled(visible, selected) == selected,
{
    if selected is Some {
        lemma_first_index_of(visible, selected->0);
    }
    if visible.len() > 0 {
        assert(visible[0] == visible[0]);
    }
}

/// A step selects a visible entry, and none exactly when nothing is
/// visible.
pub proof fn lemma_stepped(visible: Seq<usize>, selected: Option<usize>, forward: bool)
    ensures
        stepped(visible, selected, forward) is None <==> visible.len() == 0,
        stepped(visible, selected, forward) is Some ==> visible.contains(
            stepped(visible, selected, forward)->0,
        ),
{
    if selected is Some {
        lemma_first_index_of(visible, selected->0);
    }
    if visible.len() > 0 {
        let r = stepped(visible, selected, forward)->0;
        let pos = if selected is Some {
            first_index_of(visible, selected->0)
        } else {
            -1
        };
        if pos < 0 {
            assert(visible[0] == r);
        } else if forward {
            if pos + 1 < visible.len() {
                assert(visible[pos + 1] == r);
            } else {
                assert(visible[visible.len() - 1] == r);
            }
        } else {
            if pos > 0 {
                assert(visible[pos - 1] == r);
            } else {
                assert(visible[0] == r);
            }
        }
    }
}

/// The visible indices of `full_list` under `query`, restricted to the
/// names in `only` where that is given.
pub fn rebuild(full_list: &Vec<String>, query: &str, only: Option<&Vec<String>>) -> (indices: Vec<
    usize,
>)
    ensures
        indices@ == visible(full_list.deep_view(), query@, only.deep_view()),
{
    let query = trim(query);
    let has_query = !query.is_empty();
    let query_is_ascii = query.is_ascii();
    let lowered: Option<String> = if !query_is_ascii && has_query {
        Some(lowercase_text(query))
    } else {
        None
    };
    let mut indices: Vec<usize> = Vec::new();
    let mut i: usize = 0;
    while i < full_list.len()
        invariant
            i <= full_list.len(),
            has_query == (query@.len() > 0),
            query_is_ascii == vstd::utf8::is_ascii_chars(query@),
            lowered.deep_view() == if !query_is_ascii && has_query {
                Some(lowercase(query@))
            } else {
                None::<Seq<char>>
            },
            indices@ == visible_upto(full_list.deep_view(), query@, only.deep_view(), i as int),
        decreases full_list.len() - i,
    {
        let item = full_list[i].as_str();
        proof {
            assert(full_list.deep_view()[i as int] == item@);
        }
        let allowed = match only {
            Some(names) => contains_name(names, item),
            None => true,
        };
        let hit = allowed && (!has_query || leaf_matches_query(
            item,
            query,
            match &lowered {
                Some(l) => Some(l.as_str()),
                None => None,
            },
            query_is_ascii,
        ));
        if hit {
            indices.push(i);
        }
        i = i + 1;
    }
    indices
}

/// Position of `target` in `visible`.
pub fn find_position(visible: &Vec<usize>, target: usize) -> (pos: Option<usize>)
    ensures
        match pos {
            Some(p) => p == first_index_of(visible@, target) && p < visible@.len(),
            None => first_index_of(visible@, target) < 0,
        },
{
    let mut i: usize = 0;
    while i < visible.len()
        invariant
            i <= visible.len(),
            forall|j: int| 0 <= j < i ==> visible@[j] != target,
        decreases visible.len() - i,
    {
        if visible[i] == target {
            proof {
                lemma_first_index_of(visible@, target);
            }
            return Some(i);
        }
        i = i + 1;
    }
    proof {
        lemma_first_index_of(visible@, target);
    }
    None
}

/// The selection after the visible set changed.
pub fn reconcile(visible: &Vec<usize>, selected: Option<usize>) -> (now: Option<usize>)
    ensures
        now == reconciled(visible@, selected),
{
    if visible.len() == 0 {
        return None;
    }
    match selected {
        Some(s) => {
            if find_position(visible, s).is_some() {
                return selected;
            }
        },
        None => {},
    }
    Some(visible[0])
}

/// The selection one step further down the visible set.
pub fn next(visible: &Vec<usize>, selected: Option<usize>) -> (now: Option<usize>)
    ensures
        now == stepped(visible@, selected, true),
{
    if visible.len() == 0 {
        return None;
    }
    let pos = match selected {
        Some(s) => find_position(visible, s),
        None => None,
    };
    match pos {
        Some(p) => {
            if p + 1 < visible.len() {
                Some(visible[p + 1])
            } else {
                Some(visible[visible.len() - 1])
            }
        },
        None => Some(visible[0]),
    }
}

/// The selection one step further up the visible set.
pub fn prev(visible: &Vec<usize>, selected: Option<usize>) -> (now: Option<usize>)
    ensures
        now == stepped(visible@, selected, false),
{
    if visible.len() == 0 {
        return None;
    }
    let pos = match selected {
        Some(s) => find_position(visible, s),
        None => None,
    };
    match pos {
        Some(p) => {
            if p > 0 {
                Some(visible[p - 1])
            } else {
                Some(visible[0])
            }
        },
        None => Some(visible[0]),
    }
}

} // verus!
