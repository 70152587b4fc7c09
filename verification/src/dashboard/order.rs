//! The order of the process lists: a stable sort by the process order, so
//! that processes that compare equal keep the order in which they were
//! listed, ascending or descending alike.
use vstd::prelude::*;

use crate::config::ProcessSort;
use crate::dashboard::app::{KeyOrder, ProcessKey, flipped, key_order, text_order};
use crate::sort::{
    lemma_text_lt_irrefl, lemma_text_lt_total, lemma_text_lt_trans, num_lt, reorder, reversed,
    sort_by_number, sort_by_text, stable_order, text_lt,
};
use crate::text::chars_of;

verus! {

/// The order of two processes under a sort, reversed when descending.
pub open spec fn directed_order(sort: ProcessSort, descending: bool, a: ProcessKey, b: ProcessKey) -> KeyOrder {
    if descending {
        flipped(key_order(sort, a, b))
    } else {
        key_order(sort, a, b)
    }
}

/// Whether `p` lists every place of `keys` once, in the order of a stable
/// sort by the process order: ordered by key and, among equal keys, by
/// place.
pub open spec fn process_sorted(keys: Seq<ProcessKey>, sort: ProcessSort, descending: bool, p: Seq<int>) -> bool {
    &&& p.len() == keys.len()
    &&& forall|j: int| 0 <= j < p.len() ==> 0 <= #[trigger] p[j] < keys.len()
    &&& forall|a: int, b: int|
        #![trigger p[a], p[b]]
        0 <= a < b < p.len() ==> directed_order(sort, descending, keys[p[a]], keys[p[b]]) == KeyOrder::Less
            || (key_order(sort, keys[p[a]], keys[p[b]]) == KeyOrder::Equal && p[a] < p[b])
}

/// Every process compares equal to itself.
pub proof fn lemma_key_order_refl(sort: ProcessSort, a: ProcessKey)
    ensures
        key_order(sort, a, a) == KeyOrder::Equal,
{
    lemma_text_lt_irrefl(a.name@);
    lemma_text_lt_irrefl(a.user@);
}

/// The numeric key of a sort by pid or memory.
pub open spec fn num_key(sort: ProcessSort, k: ProcessKey) -> u64 {
    if sort == ProcessSort::Pid {
        k.pid as u64
    } else {
        k.mem
    }
}

/// The text key of a sort by name or owner.
pub open spec fn text_key(sort: ProcessSort, k: ProcessKey) -> Seq<char> {
    if sort == ProcessSort::Name {
        k.name@
    } else {
        k.user@
    }
}

/// The place in `0..n` of the `j`th element, counted from the end when
/// `back`.
pub open spec fn from_end(n: int, j: int, back: bool) -> int {
    if back {
        n - 1 - j
    } else {
        j
    }
}

/// The order that a stable sort of the reversed list gives, read backwards.
pub open spec fn back_order(q: Seq<int>) -> Seq<int> {
    Seq::new(q.len(), |j: int| q.len() - 1 - q[q.len() - 1 - j])
}

/// Sorts by a number: the pid or the memory.
fn sort_numeric<T>(v: Vec<T>, keys: &Vec<ProcessKey>, sort: ProcessSort, descending: bool) -> (r: Vec<T>)
    requires
        keys.len() == v.len(),
        sort == ProcessSort::Pid || sort == ProcessSort::Mem,
    ensures
        exists|p: Seq<int>| process_sorted(keys@, sort, descending, p) && r@ == reorder(v@, p),
{
    let n = v.len();
    let ghost orig = v@;
    let src = if descending {
        reversed(v)
    } else {
        v
    };
    let mut nk: Vec<u64> = Vec::new();
    let mut j: usize = 0;
    while j < n
        invariant
            n == keys.len(),
            0 <= j <= n,
            nk@.len() == j,
            forall|k: int| 0 <= k < j ==> #[trigger] nk@[k] == num_key(sort, keys@[from_end(n as int, k, descending)]),
        decreases n - j,
    {
        let idx = if descending {
            n - 1 - j
        } else {
            j
        };
        let x: u64 = match sort {
            ProcessSort::Pid => keys[idx].pid as u64,
            _ => keys[idx].mem,
        };
        nk.push(x);
        j += 1;
    }
    let sorted = sort_by_number(src, &nk);
    let ghost q = choose|q: Seq<int>|
        stable_order(nk@, q, |a: u64, b: u64| num_lt(a, b)) && sorted@ == reorder(src@, q);
    if descending {
        let out = reversed(sorted);
        proof {
            let p = back_order(q);
            assert forall|j: int| 0 <= j < p.len() implies 0 <= #[trigger] p[j] < keys@.len() by {
                assert(0 <= q[n - 1 - j] < n);
            }
            assert forall|a: int, b: int| 0 <= a < b < p.len() implies directed_order(
                sort,
                descending,
                keys@[#[trigger] p[a]],
                keys@[#[trigger] p[b]],
            ) == KeyOrder::Less || (key_order(sort, keys@[p[a]], keys@[p[b]]) == KeyOrder::Equal && p[a]
                < p[b]) by {
                let a2 = n - 1 - b;
                let b2 = n - 1 - a;
                assert(0 <= q[a2] < n && 0 <= q[b2] < n);
                assert(nk@[q[a2]] == num_key(sort, keys@[p[b]]));
                assert(nk@[q[b2]] == num_key(sort, keys@[p[a]]));
                assert(num_lt(nk@[q[a2]], nk@[q[b2]]) || (nk@[q[a2]] == nk@[q[b2]] && q[a2] < q[b2]));
            }
            assert(out@ =~= reorder(orig, p));
        }
        out
    } else {
        proof {
            assert forall|a: int, b: int| 0 <= a < b < q.len() implies directed_order(
                sort,
                descending,
                keys@[#[trigger] q[a]],
                keys@[#[trigger] q[b]],
            ) == KeyOrder::Less || (key_order(sort, keys@[q[a]], keys@[q[b]]) == KeyOrder::Equal && q[a]
                < q[b]) by {
                assert(nk@[q[a]] == num_key(sort, keys@[q[a]]));
                assert(nk@[q[b]] == num_key(sort, keys@[q[b]]));
                assert(num_lt(nk@[q[a]], nk@[q[b]]) || (nk@[q[a]] == nk@[q[b]] && q[a] < q[b]));
            }
            assert(sorted@ =~= reorder(orig, q));
        }
        sorted
    }
}

/// How the text order decides the process order of two keys.
proof fn lemma_text_orders(a: Seq<char>, b: Seq<char>)
    ensures
        text_lt(a, b) ==> text_order(a, b) == KeyOrder::Less,
        text_lt(b, a) ==> text_order(a, b) == KeyOrder::Greater,
        a == b ==> text_order(a, b) == KeyOrder::Equal,
{
    lemma_text_lt_irrefl(a);
    if text_lt(a, b) && text_lt(b, a) {
        lemma_text_lt_trans(a, b, a);
    }
}

/// Sorts by a text: the name or the owner's name.
fn sort_textual<T>(v: Vec<T>, keys: &Vec<ProcessKey>, sort: ProcessSort, descending: bool) -> (r: Vec<T>)
    requires
        keys.len() == v.len(),
        sort == ProcessSort::Name || sort == ProcessSort::User,
    ensures
        exists|p: Seq<int>| process_sorted(keys@, sort, descending, p) && r@ == reorder(v@, p),
{
    let n = v.len();
    let ghost orig = v@;
    let src = if descending {
        reversed(v)
    } else {
        v
    };
    let mut tk: Vec<Vec<char>> = Vec::new();
    let mut j: usize = 0;
    while j < n
        invariant
            n == keys.len(),
            0 <= j <= n,
            tk@.len() == j,
            forall|k: int| 0 <= k < j ==> (#[trigger] tk@[k])@ == text_key(sort, keys@[from_end(n as int, k, descending)]),
        decreases n - j,
    {
        let idx = if descending {
            n - 1 - j
        } else {
            j
        };
        let x = match sort {
            ProcessSort::Name => chars_of(keys[idx].name.as_str()),
            _ => chars_of(keys[idx].user.as_str()),
        };
        tk.push(x);
        j += 1;
    }
    let ghost kv = tk@.map_values(|k: Vec<char>| k@);
    let sorted = sort_by_text(src, &tk);
    let ghost q = choose|q: Seq<int>|
        stable_order(kv, q, |a: Seq<char>, b: Seq<char>| text_lt(a, b)) && sorted@ == reorder(src@, q);
    if descending {
        let out = reversed(sorted);
        proof {
            let p = back_order(q);
            assert forall|j: int| 0 <= j < p.len() implies 0 <= #[trigger] p[j] < keys@.len() by {
                assert(0 <= q[n - 1 - j] < n);
            }
            assert forall|a: int, b: int| 0 <= a < b < p.len() implies directed_order(
                sort,
                descending,
                keys@[#[trigger] p[a]],
                keys@[#[trigger] p[b]],
            ) == KeyOrder::Less || (key_order(sort, keys@[p[a]], keys@[p[b]]) == KeyOrder::Equal && p[a]
                < p[b]) by {
                let a2 = n - 1 - b;
                let b2 = n - 1 - a;
                assert(0 <= q[a2] < n && 0 <= q[b2] < n);
                assert(kv[q[a2]] == text_key(sort, keys@[p[b]]));
                assert(kv[q[b2]] == text_key(sort, keys@[p[a]]));
                assert(text_lt(kv[q[a2]], kv[q[b2]]) || (kv[q[a2]] == kv[q[b2]] && q[a2] < q[b2]));
                lemma_text_orders(text_key(sort, keys@[p[a]]), text_key(sort, keys@[p[b]]));
            }
            assert(out@ =~= reorder(orig, p));
        }
        out
    } else {
        proof {
            assert forall|a: int, b: int| 0 <= a < b < q.len() implies directed_order(
                sort,
                descending,
                keys@[#[trigger] q[a]],
                keys@[#[trigger] q[b]],
            ) == KeyOrder::Less || (key_order(sort, keys@[q[a]], keys@[q[b]]) == KeyOrder::Equal && q[a]
                < q[b]) by {
                assert(kv[q[a]] == text_key(sort, keys@[q[a]]));
                assert(kv[q[b]] == text_key(sort, keys@[q[b]]));
                assert(text_lt(kv[q[a]], kv[q[b]]) || (kv[q[a]] == kv[q[b]] && q[a] < q[b]));
                lemma_text_orders(text_key(sort, keys@[q[a]]), text_key(sort, keys@[q[b]]));
            }
            assert(sorted@ =~= reorder(orig, q));
        }
        sorted
    }
}

/// Sorts `v` by the process order of its keys (one per element), as a
/// stable sort does: processes that compare equal keep their order, in
/// either direction.
pub fn sort_by_process_key<T>(v: Vec<T>, keys: &Vec<ProcessKey>, sort: ProcessSort, descending: bool) -> (r: Vec<T>)
    requires
        keys.len() == v.len(),
        sort != ProcessSort::Cpu,
    ensures
        exists|p: Seq<int>| process_sorted(keys@, sort, descending, p) && r@ == reorder(v@, p),
{
    match sort {
        ProcessSort::Pid | ProcessSort::Mem => sort_numeric(v, keys, sort, descending),
        _ => sort_textual(v, keys, sort, descending),
    }
}

/// The places of the processes in the order of the lists: by pid, memory,
/// name or owner, ascending or descending, processes that compare equal in
/// the order in which they were listed.
pub fn sorted_process_indices(keys: &Vec<ProcessKey>, sort: ProcessSort, descending: bool) -> (r: Vec<usize>)
    requires
        sort != ProcessSort::Cpu,
    ensures
        exists|p: Seq<int>| process_sorted(keys@, sort, descending, p) && r@ == p.map_values(|k: int| k as usize),
{
    let mut idx: Vec<usize> = Vec::new();
    let mut i: usize = 0;
    while i < keys.len()
        invariant
            0 <= i <= keys.len(),
            idx@.len() == i,
            forall|j: int| 0 <= j < i ==> #[trigger] idx@[j] == j,
        decreases keys.len() - i,
    {
        idx.push(i);
        i += 1;
    }
    let ghost before = idx@;
    let r = sort_by_process_key(idx, keys, sort, descending);
    proof {
        let p = choose|p: Seq<int>| process_sorted(keys@, sort, descending, p) && r@ == reorder(before, p);
        assert forall|j: int| 0 <= j < p.len() implies r@[j] == (#[trigger] p[j]) as usize by {}
        assert(r@ =~= p.map_values(|k: int| k as usize));
    }
    r
}

} // verus!
