//! The IDs under which requests wait.
//!
//! IDs are given out in their order, with zero after the largest, and those that are taken are
//! passed over.

use vstd::prelude::*;

verus! {

/// The ID that stands this many places after `first`.
///
/// After the largest ID comes zero.
pub open spec fn nth_id(first: u32, index: nat) -> u32 {
    ((first + index) % 0x1_0000_0000) as u32
}

/// Whether the ID this many places after `first` is the first that is not taken.
pub open spec fn is_first_free(taken: Set<u32>, first: u32, index: nat) -> bool {
    &&& !taken.contains(nth_id(first, index))
    &&& forall|j: nat| j < index ==> taken.contains(#[trigger] nth_id(first, j))
}

/// The first ID from `first` on that is not taken.
pub open spec fn free_id(taken: Set<u32>, first: u32) -> u32 {
    nth_id(first, choose|index: nat| is_first_free(taken, first, index))
}

/// The IDs that are given out to `n` requests from `first` on, and the ID to go on from.
pub open spec fn give(taken: Set<u32>, first: u32, n: nat) -> (Seq<u32>, u32)
    decreases n,
{
    if n == 0 {
        (Seq::empty(), first)
    } else {
        let (ids, next) = give(taken, first, (n - 1) as nat);
        let id = free_id(taken.union(ids.to_set()), next);
        (ids.push(id), nth_id(id, 1))
    }
}

/// The IDs that are given out to `n` requests from `first` on, in order.
pub open spec fn free_ids(taken: Set<u32>, first: u32, n: nat) -> Seq<u32> {
    give(taken, first, n).0
}

/// The ID to go on from once `n` requests have theirs.
pub open spec fn next_id_after(taken: Set<u32>, first: u32, n: nat) -> u32 {
    give(taken, first, n).1
}

/// Counting on from an ID is counting further from the first.
pub proof fn lemma_ids_continue(first: u32, i: nat, j: nat)
    ensures
        nth_id(nth_id(first, i), j) == nth_id(first, i + j),
{
}

/// IDs that stand close enough to each other are different.
pub proof fn lemma_ids_distinct(first: u32, i: nat, j: nat)
    requires
        i < j < i + 0x1_0000_0000,
    ensures
        nth_id(first, i) != nth_id(first, j),
{
}

/// There are only so many IDs.
pub proof fn lemma_ids_finite(taken: Set<u32>)
    ensures
        taken.finite(),
{
    <u32 as vstd::set_lib::FiniteFull>::full_properties();
    vstd::set_lib::lemma_set_subset_finite(Set::<u32>::full(), taken);
}

/// Where a run of IDs is taken, at least so many are.
pub proof fn lemma_run_of_ids(taken: Set<u32>, first: u32, n: nat)
    requires
        n <= 0x1_0000_0000,
        forall|j: nat| j < n ==> taken.contains(#[trigger] nth_id(first, j)),
    ensures
        taken.len() >= n,
    decreases n,
{
    if n > 0 {
        let last = (n - 1) as nat;
        let id = nth_id(first, last);
        let others = taken.remove(id);
        lemma_ids_finite(taken);
        assert forall|j: nat| j < last implies others.contains(#[trigger] nth_id(first, j)) by {
            lemma_ids_distinct(first, j, last);
        }
        assert(taken.contains(id));
        lemma_run_of_ids(others, first, last);
    }
}

proof fn lemma_some_first_free(taken: Set<u32>, first: u32, index: nat)
    requires
        !taken.contains(nth_id(first, index)),
    ensures
        exists|k: nat| is_first_free(taken, first, k),
    decreases index,
{
    if exists|j: nat| j < index && !taken.contains(#[trigger] nth_id(first, j)) {
        let j = choose|j: nat| j < index && !taken.contains(#[trigger] nth_id(first, j));
        lemma_some_first_free(taken, first, j);
    } else {
        assert(is_first_free(taken, first, index));
    }
}

/// The first ID that is not taken is the one that [`free_id`] speaks of.
pub proof fn lemma_first_free(taken: Set<u32>, first: u32, index: nat)
    requires
        is_first_free(taken, first, index),
    ensures
        free_id(taken, first) == nth_id(first, index),
{
    let chosen = choose|k: nat| is_first_free(taken, first, k);
    assert(is_first_free(taken, first, chosen));
    if chosen < index {
        assert(taken.contains(nth_id(first, chosen)));
    } else if index < chosen {
        assert(taken.contains(nth_id(first, index)));
    }
}

/// Where not all IDs are taken, a free one is found.
pub proof fn lemma_free_id(taken: Set<u32>, first: u32)
    requires
        taken.len() < 0x1_0000_0000,
    ensures
        !taken.contains(free_id(taken, first)),
{
    if forall|j: nat| j < 0x1_0000_0000 ==> taken.contains(#[trigger] nth_id(first, j)) {
        lemma_run_of_ids(taken, first, 0x1_0000_0000);
    } else {
        let j = choose|j: nat|
            j < 0x1_0000_0000 && !taken.contains(#[trigger] nth_id(first, j));
        lemma_some_first_free(taken, first, j);
        let k = choose|k: nat| is_first_free(taken, first, k);
        lemma_first_free(taken, first, k);
    }
}

/// The IDs that are given out are not taken yet, and no two of them are the same.
pub proof fn lemma_ids_unique(taken: Set<u32>, first: u32, n: nat)
    requires
        taken.len() + n <= 0x1_0000_0000,
    ensures
        free_ids(taken, first, n).len() == n,
        free_ids(taken, first, n).no_duplicates(),
        forall|i: int| 0 <= i < n ==> !taken.contains(#[trigger] free_ids(taken, first, n)[i]),
        taken.union(free_ids(taken, first, n).to_set()).len() == taken.len() + n,
    decreases n,
{
    let ids = free_ids(taken, first, n);
    if n == 0 {
        assert(taken.union(ids.to_set()) =~= taken);
    } else {
        let last = (n - 1) as nat;
        let (front, next) = give(taken, first, last);
        lemma_ids_unique(taken, first, last);
        let used = taken.union(front.to_set());
        lemma_free_id(used, next);
        let id = free_id(used, next);
        lemma_ids_finite(used);
        assert(ids == front.push(id));
        assert(!front.contains(id)) by {
            assert(front.to_set().contains(id) == front.contains(id));
        }
        assert(taken.union(ids.to_set()) =~= used.insert(id)) by {
            assert forall|x: u32| #[trigger] ids.to_set().contains(x) == (front.to_set().contains(
                x,
            ) || x == id) by {
                if ids.contains(x) {
                    let i = choose|i: int| 0 <= i < ids.len() && ids[i] == x;
                    if i < last {
                        assert(front[i] == x);
                    }
                }
                if front.contains(x) {
                    let i = choose|i: int| 0 <= i < front.len() && front[i] == x;
                    assert(ids[i] == x);
                }
                assert(ids[last as int] == id);
            }
        }
        assert forall|i: int| 0 <= i < n implies !taken.contains(#[trigger] ids[i]) by {
            if i < last {
                assert(ids[i] == front[i]);
            }
        }
    }
}

/// Where none of the next IDs is taken, they are given out one after the other.
pub proof fn lemma_ids_in_order(taken: Set<u32>, first: u32, n: nat)
    requires
        n <= 0x1_0000_0000,
        forall|k: nat| k < n ==> !taken.contains(#[trigger] nth_id(first, k)),
    ensures
        free_ids(taken, first, n) == Seq::new(n, |k: int| nth_id(first, k as nat)),
        next_id_after(taken, first, n) == nth_id(first, n),
    decreases n,
{
    if n > 0 {
        let last = (n - 1) as nat;
        let (front, next) = give(taken, first, last);
        lemma_ids_in_order(taken, first, last);
        let used = taken.union(front.to_set());
        assert(!front.contains(next)) by {
            if front.contains(next) {
                let i = choose|i: int| 0 <= i < front.len() && front[i] == next;
                lemma_ids_distinct(first, i as nat, last);
            }
        }
        assert(nth_id(next, 0) == next);
        assert(is_first_free(used, next, 0));
        lemma_first_free(used, next, 0);
        lemma_ids_continue(first, last, 1);
    }
}

/// Counting IDs is counting numbers, with zero after the largest ID.
pub proof fn lemma_ids_wrap(first: u32, index: nat)
    ensures
        first + index < 0x1_0000_0000 ==> nth_id(first, index) == first + index,
        0x1_0000_0000 <= first + index < 0x2_0000_0000 ==> nth_id(first, index) == first + index
            - 0x1_0000_0000,
{
}

/// Each request gets the nearest ID that is free: those between where the search for it starts,
/// which is `first` or the ID after the one that was given before, and the ID that it gets are all
/// taken or were given before.
pub proof fn lemma_nearest_id_is_given(taken: Set<u32>, first: u32, n: nat, k: int, id: u32)
    requires
        taken.len() + n <= 0x1_0000_0000,
        0 <= k < n,
    ensures
        ({
            let ids = free_ids(taken, first, n);
            let start = if k == 0 {
                first as int
            } else {
                ids[k - 1] + 1
            };
            (id - start) % 0x1_0000_0000 < (ids[k] - start) % 0x1_0000_0000 ==> taken.contains(id)
                || exists|i: int| 0 <= i < k && #[trigger] ids[i] == id
        }),
    decreases n,
{
    let last = (n - 1) as nat;
    let (front, next) = give(taken, first, last);
    let ids = free_ids(taken, first, n);
    lemma_ids_unique(taken, first, last);
    lemma_ids_unique(taken, first, n);
    lemma_next_id(taken, first, last);
    assert(ids == front.push(free_id(taken.union(front.to_set()), next)));
    if k < last {
        lemma_nearest_id_is_given(taken, first, last, k, id);
        assert(forall|i: int| 0 <= i <= k ==> #[trigger] ids[i] == front[i]);
        let start = if k == 0 {
            first as int
        } else {
            ids[k - 1] + 1
        };
        if (id - start) % 0x1_0000_0000 < (ids[k] - start) % 0x1_0000_0000 && !taken.contains(id) {
            let i = choose|i: int| 0 <= i < k && #[trigger] front[i] == id;
            assert(ids[i] == id);
        }
    } else {
        let used = taken.union(front.to_set());
        let start = if k == 0 {
            first as int
        } else {
            ids[k - 1] + 1
        };
        assert(next == start % 0x1_0000_0000);
        let index = lemma_free_id_is_near(used, next);
        let distance = (id - start) % 0x1_0000_0000;
        lemma_distance(start, next, id);
        lemma_distance(start, next, ids[k]);
        if distance < (ids[k] - start) % 0x1_0000_0000 {
            assert(nth_id(next, distance as nat) == id);
            assert(used.contains(id));
            if !taken.contains(id) {
                let i = choose|i: int| 0 <= i < front.len() && front[i] == id;
                assert(ids[i] == id);
            }
        }
    }
}

proof fn lemma_distance(start: int, next: u32, id: u32)
    requires
        0 <= start <= 0x1_0000_0000,
        next == start % 0x1_0000_0000,
    ensures
        0 <= (id - start) % 0x1_0000_0000 < 0x1_0000_0000,
        (next + (id - start) % 0x1_0000_0000) % 0x1_0000_0000 == id,
        forall|index: nat|
            index < 0x1_0000_0000 && #[trigger] nth_id(next, index) == id ==> index == (id - start)
                % 0x1_0000_0000,
{
}

proof fn lemma_free_id_is_near(taken: Set<u32>, first: u32) -> (index: nat)
    requires
        taken.len() < 0x1_0000_0000,
    ensures
        index < 0x1_0000_0000,
        free_id(taken, first) == nth_id(first, index),
        forall|j: nat| j < index ==> taken.contains(#[trigger] nth_id(first, j)),
{
    if forall|j: nat| j < 0x1_0000_0000 ==> taken.contains(#[trigger] nth_id(first, j)) {
        lemma_run_of_ids(taken, first, 0x1_0000_0000);
    }
    let j = choose|j: nat| j < 0x1_0000_0000 && !taken.contains(#[trigger] nth_id(first, j));
    lemma_some_first_free(taken, first, j);
    let index = choose|k: nat| is_first_free(taken, first, k);
    lemma_first_free(taken, first, index);
    assert(index <= j) by {
        if j < index {
            assert(taken.contains(nth_id(first, j)));
        }
    }
    index
}

/// Where requests were given IDs, the next search starts after the last of these, with zero after
/// the largest ID. Where none was, it starts where the last one would have.
pub proof fn lemma_next_id(taken: Set<u32>, first: u32, n: nat)
    ensures
        n == 0 ==> next_id_after(taken, first, n) == first,
        n > 0 ==> next_id_after(taken, first, n) == (free_ids(taken, first, n).last() + 1)
            % 0x1_0000_0000,
{
}

} // verus!
