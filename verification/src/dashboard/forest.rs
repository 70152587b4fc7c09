//! The process tree: every listed process under its parent, with the
//! memory totals of its subtree, and the processes of each level in the
//! order of the lists.
use vstd::prelude::*;
use vstd::set_lib::{lemma_int_range, lemma_len_subset, set_int_range};

use crate::config::ProcessSort;
use crate::dashboard::app::{
    KeyOrder, ProcessKey, ProcessLink, flipped, forest_links, is_root, key_order, listed_pid, num_order,
    places, process_forest,
};
use crate::dashboard::order::{lemma_key_order_refl, process_sorted, sort_by_process_key};
use crate::dashboard::rss::MemoryStats;
use crate::sort::reorder;

verus! {

/// A process of the tree: its place in the listing, its depth, the memory
/// totals of its subtree (its own figures and those of its descendants)
/// and its children. The figures of the process itself are those of its
/// place in the listing.
pub struct ProcessTreeNode {
    pub index: usize,
    pub depth: u32,
    pub total_mem: u64,
    pub total_virt: u64,
    pub total_shared: u64,
    pub children: Vec<ProcessTreeNode>,
}

/// One of the memory figures of a process.
pub enum MemFigure {
    Resident,
    Virtual,
    Shared,
}

/// A memory figure of a process.
pub open spec fn figure(m: MemoryStats, w: MemFigure) -> int {
    match w {
        MemFigure::Resident => m.rss as int,
        MemFigure::Virtual => m.virt as int,
        MemFigure::Shared => m.shared as int,
    }
}

/// The total of a memory figure over the subtree of a node.
pub open spec fn node_total(t: ProcessTreeNode, w: MemFigure) -> int {
    match w {
        MemFigure::Resident => t.total_mem as int,
        MemFigure::Virtual => t.total_virt as int,
        MemFigure::Shared => t.total_shared as int,
    }
}

/// The sum of the subtree totals of several nodes.
pub open spec fn totals_sum(ts: Seq<ProcessTreeNode>, w: MemFigure) -> int
    decreases ts.len(),
{
    if ts.len() == 0 {
        0
    } else {
        totals_sum(ts.drop_last(), w) + node_total(ts.last(), w)
    }
}

/// The order of two processes of the tree: by memory the totals of their
/// subtrees are compared, otherwise as in the lists.
pub open spec fn tree_order(sort: ProcessSort, a: ProcessKey, ta: u64, b: ProcessKey, tb: u64) -> KeyOrder {
    if sort == ProcessSort::Mem {
        num_order(ta as int, tb as int)
    } else {
        key_order(sort, a, b)
    }
}

/// The tree order, reversed when descending.
pub open spec fn directed_tree_order(
    sort: ProcessSort,
    descending: bool,
    a: ProcessKey,
    ta: u64,
    b: ProcessKey,
    tb: u64,
) -> KeyOrder {
    if descending {
        flipped(tree_order(sort, a, ta, b, tb))
    } else {
        tree_order(sort, a, ta, b, tb)
    }
}

/// Whether `ts` are nodes of the processes at the places `members` (listed
/// in ascending order), each once, in the order of a stable sort by the
/// tree order: ordered by key and, among equal keys, by place.
pub open spec fn ordered_members(
    ts: Seq<ProcessTreeNode>,
    members: Seq<usize>,
    keys: Seq<ProcessKey>,
    sort: ProcessSort,
    descending: bool,
) -> bool {
    &&& ts.len() == members.len()
    &&& forall|k: int| 0 <= k < ts.len() ==> members.contains(#[trigger] ts[k].index)
    &&& forall|a: int, b: int|
        #![trigger ts[a], ts[b]]
        0 <= a < b < ts.len() ==> ts[a].index != ts[b].index && (directed_tree_order(
            sort,
            descending,
            keys[ts[a].index as int],
            ts[a].total_mem,
            keys[ts[b].index as int],
            ts[b].total_mem,
        ) == KeyOrder::Less || (tree_order(
            sort,
            keys[ts[a].index as int],
            ts[a].total_mem,
            keys[ts[b].index as int],
            ts[b].total_mem,
        ) == KeyOrder::Equal && ts[a].index < ts[b].index))
}

/// Whether `t` is the tree of its process at `depth`: its children are the
/// trees of the processes whose parent it is, one level deeper, in the tree
/// order; its totals are its own figures plus the totals of its children.
pub open spec fn is_tree_of(
    t: ProcessTreeNode,
    depth: nat,
    ls: Seq<ProcessLink>,
    ms: Seq<MemoryStats>,
    keys: Seq<ProcessKey>,
    sort: ProcessSort,
    descending: bool,
) -> bool
    decreases t, 1nat,
{
    let i = t.index as int;
    &&& i < ls.len()
    &&& t.depth == depth
    &&& t.total_mem == ms[i].rss + totals_sum(t.children@, MemFigure::Resident)
    &&& t.total_virt == ms[i].virt + totals_sum(t.children@, MemFigure::Virtual)
    &&& t.total_shared == ms[i].shared + totals_sum(t.children@, MemFigure::Shared)
    &&& ordered_members(t.children@, forest_links(ls).1[i], keys, sort, descending)
    &&& all_trees(t.children@, depth + 1, ls, ms, keys, sort, descending)
}

/// Whether every node of `ts` is the tree of its process at `depth`.
pub open spec fn all_trees(
    ts: Seq<ProcessTreeNode>,
    depth: nat,
    ls: Seq<ProcessLink>,
    ms: Seq<MemoryStats>,
    keys: Seq<ProcessKey>,
    sort: ProcessSort,
    descending: bool,
) -> bool
    decreases ts, 0nat,
{
    if ts.len() == 0 {
        true
    } else {
        is_tree_of(ts[0], depth, ls, ms, keys, sort, descending) && all_trees(
            ts.subrange(1, ts.len() as int),
            depth,
            ls,
            ms,
            keys,
            sort,
            descending,
        )
    }
}

/// Whether no two processes of the listing have the same pid.
pub open spec fn distinct_pids(ls: Seq<ProcessLink>) -> bool {
    forall|a: int, b: int|
        #![trigger ls[a], ls[b]]
        0 <= a < ls.len() && 0 <= b < ls.len() && a != b ==> ls[a].pid != ls[b].pid
}

/// Whether the process at `p` is the parent of the one at `x`.
pub open spec fn is_parent(ls: Seq<ProcessLink>, p: int, x: int) -> bool {
    ls[x].parent == Some(ls[p].pid)
}

/// Whether `c` is a chain of places each of which is the parent of the
/// next.
pub open spec fn descent(ls: Seq<ProcessLink>, c: Seq<int>) -> bool {
    &&& c.len() > 0
    &&& forall|k: int| 0 <= k < c.len() ==> 0 <= #[trigger] c[k] < ls.len()
    &&& forall|a: int, b: int|
        #![trigger c[a], c[b]]
        0 <= a && b == a + 1 && b < c.len() ==> is_parent(ls, c[a], c[b])
}

/// Whether the process at `x` is the one at `r` or one of its descendants.
pub open spec fn descends(ls: Seq<ProcessLink>, r: int, x: int) -> bool {
    exists|c: Seq<int>| descent(ls, c) && c[0] == r && c.last() == x
}

/// The processes of the tree of the process at `r`.
pub open spec fn tree_set(ls: Seq<ProcessLink>, r: int) -> Set<int> {
    Set::new(|x: int| 0 <= x < ls.len() && descends(ls, r, x))
}

/// The sum of a memory figure over the processes of a tree: the total that
/// its root gets.
pub open spec fn tree_figure_sum(ls: Seq<ProcessLink>, ms: Seq<MemoryStats>, r: int, w: MemFigure) -> int {
    wsum(figures(ms, w), tree_set(ls, r), ms.len())
}

/// Whether the memory totals of every tree of the listing fit in 64 bits.
pub open spec fn totals_fit(ls: Seq<ProcessLink>, ms: Seq<MemoryStats>) -> bool {
    forall|r: int|
        0 <= r < ls.len() && is_root(ls, r) ==> {
            &&& #[trigger] tree_figure_sum(ls, ms, r, MemFigure::Resident) <= u64::MAX
            &&& tree_figure_sum(ls, ms, r, MemFigure::Virtual) <= u64::MAX
            &&& tree_figure_sum(ls, ms, r, MemFigure::Shared) <= u64::MAX
        }
}

/// A chain of parents shows that its last place descends from its first.
proof fn lemma_descends_by(ls: Seq<ProcessLink>, c: Seq<int>)
    requires
        descent(ls, c),
    ensures
        descends(ls, c[0], c.last()),
{
    assert(descent(ls, c) && c[0] == c[0] && c.last() == c.last());
}

/// A process descends from itself, and from its parent's ancestors.
proof fn lemma_descends_step(ls: Seq<ProcessLink>, r: int, i: int, c: int)
    requires
        0 <= i < ls.len(),
        0 <= c < ls.len(),
        is_parent(ls, i, c),
        descends(ls, r, i),
    ensures
        descends(ls, r, c),
        descends(ls, c, c),
{
    lemma_descends_self(ls, c);
    let two = seq![i, c];
    assert(two[0] == i && two[1] == c && two.last() == c);
    assert(descent(ls, two));
    lemma_descends_by(ls, two);
    lemma_descends_trans(ls, r, i, c);
}

/// A process descends from itself.
proof fn lemma_descends_self(ls: Seq<ProcessLink>, c: int)
    requires
        0 <= c < ls.len(),
    ensures
        descends(ls, c, c),
{
    let one = seq![c];
    assert(one[0] == c && one.last() == c);
    assert(descent(ls, one));
    lemma_descends_by(ls, one);
}

/// Descent is transitive.
proof fn lemma_descends_trans(ls: Seq<ProcessLink>, r: int, i: int, x: int)
    requires
        descends(ls, r, i),
        descends(ls, i, x),
    ensures
        descends(ls, r, x),
{
    let c1 = choose|c: Seq<int>| descent(ls, c) && c[0] == r && c.last() == i;
    let c2 = choose|c: Seq<int>| descent(ls, c) && c[0] == i && c.last() == x;
    let j = c1 + c2.subrange(1, c2.len() as int);
    let n1 = c1.len() as int;
    assert forall|k: int| 0 <= k < j.len() implies 0 <= #[trigger] j[k] < ls.len() by {
        if k < n1 {
            assert(j[k] == c1[k]);
        } else {
            assert(j[k] == c2[k - n1 + 1]);
        }
    }
    assert forall|a: int, b: int| #![trigger j[a], j[b]] 0 <= a && b == a + 1 && b < j.len() implies is_parent(
        ls,
        j[a],
        j[b],
    ) by {
        if b < n1 {
            assert(j[a] == c1[a] && j[b] == c1[b]);
        } else if a < n1 {
            assert(j[a] == c1[n1 - 1] && c1[n1 - 1] == c2[0]);
            assert(j[b] == c2[1]);
            assert(is_parent(ls, c2[0], c2[1]));
        } else {
            let a2 = a - n1 + 1;
            assert(j[a] == c2[a2] && j[b] == c2[a2 + 1]);
        }
    }
    assert(descent(ls, j));
    assert(j[0] == r);
    if c2.len() > 1 {
        assert(j.last() == c2[c2.len() - 1]);
    } else {
        assert(j =~= c1);
    }
}

/// The trees of a list are the trees of each of its nodes.
proof fn lemma_all_trees(
    ts: Seq<ProcessTreeNode>,
    depth: nat,
    ls: Seq<ProcessLink>,
    ms: Seq<MemoryStats>,
    keys: Seq<ProcessKey>,
    sort: ProcessSort,
    descending: bool,
)
    ensures
        all_trees(ts, depth, ls, ms, keys, sort, descending) <==> forall|k: int|
            0 <= k < ts.len() ==> is_tree_of(#[trigger] ts[k], depth, ls, ms, keys, sort, descending),
    decreases ts.len(),
{
    if ts.len() > 0 {
        let rest = ts.subrange(1, ts.len() as int);
        lemma_all_trees(rest, depth, ls, ms, keys, sort, descending);
        assert forall|k: int| 1 <= k < ts.len() implies ts[k] == rest[k - 1] by {}
        if forall|k: int| 0 <= k < ts.len() ==> is_tree_of(#[trigger] ts[k], depth, ls, ms, keys, sort, descending) {
            assert forall|k: int| 0 <= k < rest.len() implies is_tree_of(
                #[trigger] rest[k],
                depth,
                ls,
                ms,
                keys,
                sort,
                descending,
            ) by {
                assert(rest[k] == ts[k + 1]);
            }
        }
    }
}

/// The places that satisfy `f` are below `n`, satisfy it, and ascend.
proof fn lemma_places(n: nat, f: spec_fn(int) -> bool)
    requires
        n <= usize::MAX,
    ensures
        forall|m: int|
            0 <= m < places(n, f).len() ==> 0 <= #[trigger] places(n, f)[m] < n && f(places(n, f)[m] as int),
        forall|a: int, b: int|
            #![trigger places(n, f)[a], places(n, f)[b]]
            0 <= a < b < places(n, f).len() ==> places(n, f)[a] < places(n, f)[b],
    decreases n,
{
    if n > 0 {
        let rest = places((n - 1) as nat, f);
        let all = places(n, f);
        lemma_places((n - 1) as nat, f);
        if f(n - 1) {
            assert(all == rest.push((n - 1) as usize));
            assert forall|m: int| 0 <= m < all.len() implies 0 <= #[trigger] all[m] < n && f(all[m] as int) by {
                if m < rest.len() {
                    assert(all[m] == rest[m]);
                }
            }
            assert forall|a: int, b: int| #![trigger all[a], all[b]] 0 <= a < b < all.len() implies all[a] < all[b] by {
                assert(all[a] == rest[a]);
                if b < rest.len() {
                    assert(all[b] == rest[b]);
                }
            }
        } else {
            assert(all == rest);
        }
    }
}

/// A parent chain from a root: each place is a parent of the next, none
/// occurs twice.
spec fn chain(ls: Seq<ProcessLink>, s: Seq<int>) -> bool {
    &&& s.len() > 0
    &&& s.no_duplicates()
    &&& forall|k: int| 0 <= k < s.len() ==> 0 <= #[trigger] s[k] < ls.len()
    &&& is_root(ls, s[0])
    &&& forall|a: int, b: int|
        #![trigger s[a], s[b]]
        0 <= a && b == a + 1 && b < s.len() ==> is_parent(ls, s[a], s[b])
}

/// Every place of `d` is a root or has its parent in `d` or on `open`.
spec fn closed(ls: Seq<ProcessLink>, d: Set<int>, open: Seq<int>) -> bool {
    forall|x: int|
        #[trigger] d.contains(x) ==> is_root(ls, x) || exists|p: int|
            0 <= p < ls.len() && (d.contains(p) || open.contains(p)) && is_parent(ls, p, x)
}

/// A process with a listed parent is no root.
proof fn lemma_parent_not_root(ls: Seq<ProcessLink>, p: int, x: int)
    requires
        0 <= p < ls.len(),
        is_parent(ls, p, x),
    ensures
        !is_root(ls, x),
{
    assert(listed_pid(ls, ls[p].pid));
}

/// A process has at most one parent.
proof fn lemma_one_parent(ls: Seq<ProcessLink>, p: int, q: int, x: int)
    requires
        distinct_pids(ls),
        0 <= p < ls.len(),
        0 <= q < ls.len(),
        is_parent(ls, p, x),
        is_parent(ls, q, x),
    ensures
        p == q,
{
    if p != q {
        assert(ls[p].pid != ls[q].pid);
    }
}

/// A child of the last place of a chain is not on the chain.
proof fn lemma_child_off_chain(ls: Seq<ProcessLink>, s: Seq<int>, c: int)
    requires
        distinct_pids(ls),
        chain(ls, s),
        0 <= c < ls.len(),
        is_parent(ls, s.last(), c),
    ensures
        !s.contains(c),
{
    if s.contains(c) {
        let m = choose|m: int| 0 <= m < s.len() && s[m] == c;
        assert(0 <= s[s.len() - 1] < ls.len());
        if m == 0 {
            lemma_parent_not_root(ls, s.last(), c);
        } else {
            let a = m - 1;
            assert(0 <= s[a] < ls.len());
            assert(is_parent(ls, s[a], s[m]));
            lemma_one_parent(ls, s[a], s.last(), c);
            assert(s[a] == s[s.len() - 1]);
        }
    }
}

/// A list of distinct places below `hi` is no longer than `hi`.
proof fn lemma_distinct_len(s: Seq<int>, hi: int)
    requires
        0 <= hi,
        s.no_duplicates(),
        forall|k: int| 0 <= k < s.len() ==> 0 <= #[trigger] s[k] < hi,
    ensures
        s.len() <= hi,
{
    s.unique_seq_to_set();
    lemma_int_range(0, hi);
    assert(s.to_set().subset_of(set_int_range(0, hi)));
    lemma_len_subset(s.to_set(), set_int_range(0, hi));
}

/// A listing of distinct pids has at most as many processes as there are
/// pids.
proof fn lemma_listing_len(ls: Seq<ProcessLink>)
    requires
        distinct_pids(ls),
    ensures
        ls.len() <= 0x1_0000_0000,
{
    let s = Seq::new(ls.len(), |k: int| ls[k].pid as int);
    assert forall|a: int, b: int| 0 <= a < s.len() && 0 <= b < s.len() && a != b implies s[a] != s[b] by {
        assert(ls[a].pid != ls[b].pid);
    }
    lemma_distinct_len(s, 0x1_0000_0000);
}

/// The sum of a weight over the places of `s` below `k`.
pub open spec fn wsum(f: spec_fn(int) -> int, s: Set<int>, k: nat) -> int
    decreases k,
{
    if k == 0 {
        0
    } else {
        wsum(f, s, (k - 1) as nat) + if s.contains(k - 1) {
            f(k - 1)
        } else {
            0
        }
    }
}

/// A memory figure of each place.
pub open spec fn figures(ms: Seq<MemoryStats>, w: MemFigure) -> spec_fn(int) -> int {
    |j: int| figure(ms[j], w)
}

/// The subtree total of each node.
spec fn totals(ts: Seq<ProcessTreeNode>, w: MemFigure) -> spec_fn(int) -> int {
    |j: int| node_total(ts[j], w)
}

proof fn lemma_wsum_same(f: spec_fn(int) -> int, a: Set<int>, b: Set<int>, k: nat)
    requires
        forall|j: int| 0 <= j < k ==> (a.contains(j) <==> b.contains(j)),
    ensures
        wsum(f, a, k) == wsum(f, b, k),
    decreases k,
{
    if k > 0 {
        lemma_wsum_same(f, a, b, (k - 1) as nat);
    }
}

proof fn lemma_wsum_insert(f: spec_fn(int) -> int, s: Set<int>, x: int, k: nat)
    requires
        !s.contains(x),
        0 <= x < k,
    ensures
        wsum(f, s.insert(x), k) == wsum(f, s, k) + f(x),
    decreases k,
{
    if x == k - 1 {
        lemma_wsum_same(f, s.insert(x), s, (k - 1) as nat);
    } else {
        lemma_wsum_insert(f, s, x, (k - 1) as nat);
    }
}

proof fn lemma_wsum_union(f: spec_fn(int) -> int, a: Set<int>, b: Set<int>, k: nat)
    requires
        forall|j: int| !(a.contains(j) && b.contains(j)),
    ensures
        wsum(f, a.union(b), k) == wsum(f, a, k) + wsum(f, b, k),
    decreases k,
{
    if k > 0 {
        lemma_wsum_union(f, a, b, (k - 1) as nat);
    }
}

proof fn lemma_wsum_mono(f: spec_fn(int) -> int, a: Set<int>, b: Set<int>, k: nat)
    requires
        forall|j: int| 0 <= j < k && a.contains(j) ==> b.contains(j),
        forall|j: int| 0 <= j < k ==> #[trigger] f(j) >= 0,
    ensures
        wsum(f, a, k) <= wsum(f, b, k),
    decreases k,
{
    if k > 0 {
        lemma_wsum_mono(f, a, b, (k - 1) as nat);
    }
}

/// The totals summed over all of the first `k` nodes.
proof fn lemma_wsum_totals(ts: Seq<ProcessTreeNode>, w: MemFigure, s: Set<int>, k: nat)
    requires
        k <= ts.len(),
        forall|j: int| 0 <= j < k ==> s.contains(j),
    ensures
        wsum(totals(ts, w), s, k) == totals_sum(ts.take(k as int), w),
    decreases k,
{
    if k > 0 {
        lemma_wsum_totals(ts, w, s, (k - 1) as nat);
        assert(ts.take(k as int).drop_last() =~= ts.take(k - 1));
    }
    assert(ts.take(0) =~= Seq::<ProcessTreeNode>::empty());
}

/// The places that the first `k` entries of `p` name.
spec fn prefix_set(p: Seq<int>, k: int) -> Set<int> {
    Set::new(|x: int| exists|m: int| 0 <= m < k && p[m] == x)
}

/// Whether `p` names `n` places below `n`, none twice.
pub open spec fn injective_places(p: Seq<int>, n: int) -> bool {
    &&& p.len() == n
    &&& forall|j: int| 0 <= j < p.len() ==> 0 <= #[trigger] p[j] < n
    &&& forall|a: int, b: int| #![trigger p[a], p[b]] 0 <= a < b < p.len() ==> p[a] != p[b]
}

/// A reordering of nodes, summed over any prefix, is at most the sum over
/// all of them.
proof fn lemma_reorder_prefix(v: Seq<ProcessTreeNode>, p: Seq<int>, w: MemFigure, k: int)
    requires
        injective_places(p, v.len() as int),
        0 <= k <= p.len(),
    ensures
        totals_sum(reorder(v, p).take(k), w) == wsum(totals(v, w), prefix_set(p, k), v.len()),
        totals_sum(reorder(v, p).take(k), w) <= totals_sum(v, w),
    decreases k,
{
    let n = v.len();
    if k == 0 {
        assert(reorder(v, p).take(0) =~= Seq::<ProcessTreeNode>::empty());
        lemma_wsum_same(totals(v, w), prefix_set(p, 0), Set::empty(), n);
        lemma_wsum_zero(totals(v, w), n);
    } else {
        lemma_reorder_prefix(v, p, w, k - 1);
        assert(reorder(v, p).take(k).drop_last() =~= reorder(v, p).take(k - 1));
        assert(!prefix_set(p, k - 1).contains(p[k - 1])) by {
            if prefix_set(p, k - 1).contains(p[k - 1]) {
                let m = choose|m: int| 0 <= m < k - 1 && #[trigger] p[m] == p[k - 1];
                assert(p[m] != p[k - 1]);
            }
        }
        assert(prefix_set(p, k) =~= prefix_set(p, k - 1).insert(p[k - 1])) by {
            assert forall|x: int| prefix_set(p, k).contains(x) implies prefix_set(p, k - 1).insert(
                p[k - 1],
            ).contains(x) by {
                let m = choose|m: int| 0 <= m < k && p[m] == x;
                if m < k - 1 {
                    assert(prefix_set(p, k - 1).contains(x));
                }
            }
            assert forall|x: int| prefix_set(p, k - 1).insert(p[k - 1]).contains(x) implies prefix_set(
                p,
                k,
            ).contains(x) by {
                if x == p[k - 1] {
                    assert(0 <= k - 1 < k && p[k - 1] == x);
                } else {
                    let m = choose|m: int| 0 <= m < k - 1 && p[m] == x;
                    assert(0 <= m < k && p[m] == x);
                }
            }
        }
        assert(0 <= p[k - 1] < n);
        lemma_wsum_insert(totals(v, w), prefix_set(p, k - 1), p[k - 1], n);
    }
    lemma_wsum_mono(totals(v, w), prefix_set(p, k), Set::full(), n);
    lemma_wsum_totals(v, w, Set::full(), n);
    assert(v.take(n as int) =~= v);
}

proof fn lemma_wsum_zero(f: spec_fn(int) -> int, k: nat)
    ensures
        wsum(f, Set::empty(), k) == 0,
    decreases k,
{
    if k > 0 {
        lemma_wsum_zero(f, (k - 1) as nat);
    }
}

/// Orders nodes of the processes at `members` by the tree order.
fn order_nodes(
    nodes: Vec<ProcessTreeNode>,
    members: &Vec<usize>,
    keys: &Vec<ProcessKey>,
    sort: ProcessSort,
    descending: bool,
) -> (r: Vec<ProcessTreeNode>)
    requires
        sort != ProcessSort::Cpu,
        nodes.len() == members.len(),
        forall|m: int| 0 <= m < nodes.len() ==> #[trigger] nodes@[m].index == members@[m] && members@[m] < keys.len(),
        forall|a: int, b: int| #![trigger members@[a], members@[b]] 0 <= a < b < members.len() ==> members@[a] < members@[b],
    ensures
        ordered_members(r@, members@, keys@, sort, descending),
        exists|p: Seq<int>| injective_places(p, nodes.len() as int) && r@ == reorder(nodes@, p),
{
    let mut bk: Vec<ProcessKey> = Vec::new();
    let mut m: usize = 0;
    while m < nodes.len()
        invariant
            0 <= m <= nodes.len(),
            bk@.len() == m,
            forall|j: int| 0 <= j < nodes.len() ==> #[trigger] nodes@[j].index < keys.len(),
            forall|j: int|
                0 <= j < m ==> {
                    let k = keys@[nodes@[j].index as int];
                    &&& (#[trigger] bk@[j]).pid == k.pid
                    &&& bk@[j].mem == nodes@[j].total_mem
                    &&& bk@[j].name@ == k.name@
                    &&& bk@[j].user@ == k.user@
                },
        decreases nodes.len() - m,
    {
        let k = &keys[nodes[m].index];
        bk.push(ProcessKey { pid: k.pid, mem: nodes[m].total_mem, name: k.name.clone(), user: k.user.clone() });
        m += 1;
    }
    let ghost before = nodes@;
    let r = sort_by_process_key(nodes, &bk, sort, descending);
    proof {
        let p = choose|p: Seq<int>| process_sorted(bk@, sort, descending, p) && r@ == reorder(before, p);
        lemma_sorted_members(before, members@, keys@, bk@, p, sort, descending);
    }
    r
}

/// Nodes reordered by a stable sort of keys that carry, for each node, the
/// sort key of its process with its subtree total as memory, are in the
/// tree order.
proof fn lemma_sorted_members(
    before: Seq<ProcessTreeNode>,
    members: Seq<usize>,
    keys: Seq<ProcessKey>,
    bk: Seq<ProcessKey>,
    p: Seq<int>,
    sort: ProcessSort,
    descending: bool,
)
    requires
        before.len() == members.len(),
        bk.len() == before.len(),
        forall|m: int| 0 <= m < before.len() ==> #[trigger] before[m].index == members[m] && members[m] < keys.len(),
        forall|a: int, b: int| #![trigger members[a], members[b]] 0 <= a < b < members.len() ==> members[a] < members[b],
        forall|j: int|
            0 <= j < bk.len() ==> {
                let k = keys[before[j].index as int];
                &&& (#[trigger] bk[j]).pid == k.pid
                &&& bk[j].mem == before[j].total_mem
                &&& bk[j].name@ == k.name@
                &&& bk[j].user@ == k.user@
            },
        process_sorted(bk, sort, descending, p),
    ensures
        ordered_members(reorder(before, p), members, keys, sort, descending),
        injective_places(p, before.len() as int),
{
    let n = before.len() as int;
    let r = reorder(before, p);
    assert forall|a: int, b: int| #![trigger p[a], p[b]] 0 <= a < b < p.len() implies p[a] != p[b] by {
        assert(0 <= p[a] < n);
        lemma_key_order_refl(sort, bk[p[a]]);
    }
    assert forall|a: int, b: int|
        #![trigger r[a], r[b]]
        0 <= a < b < r.len() implies r[a].index != r[b].index && (directed_tree_order(
        sort,
        descending,
        keys[r[a].index as int],
        r[a].total_mem,
        keys[r[b].index as int],
        r[b].total_mem,
    ) == KeyOrder::Less || (tree_order(
        sort,
        keys[r[a].index as int],
        r[a].total_mem,
        keys[r[b].index as int],
        r[b].total_mem,
    ) == KeyOrder::Equal && r[a].index < r[b].index)) by {
        let x = p[a];
        let y = p[b];
        assert(0 <= x < n && 0 <= y < n);
        assert(x != y);
        assert(r[a] == before[x] && r[b] == before[y]);
        assert(before[x].index == members[x] && before[y].index == members[y]);
        let kx = bk[x];
        let ky = bk[y];
        assert(key_order(sort, kx, ky) == tree_order(
            sort,
            keys[members[x] as int],
            before[x].total_mem,
            keys[members[y] as int],
            before[y].total_mem,
        ));
        if x < y {
            assert(members[x] < members[y]);
        } else {
            assert(members[y] < members[x]);
        }
    }
    assert forall|k: int| 0 <= k < r.len() implies members.contains(#[trigger] r[k].index) by {
        assert(0 <= p[k] < n);
        assert(r[k] == before[p[k]]);
        assert(members[p[k]] == r[k].index);
    }
}

/// Going down from the last place of a chain to one of its children that
/// is not built yet: the chain grows, stays within the listing, and no
/// child of the new place is built yet.
proof fn lemma_descend(ls: Seq<ProcessLink>, s: Seq<int>, cur: Set<int>, ci: int)
    requires
        distinct_pids(ls),
        chain(ls, s),
        0 <= ci < ls.len(),
        is_parent(ls, s.last(), ci),
        !cur.contains(ci),
        forall|x: int| cur.contains(x) ==> 0 <= x < ls.len() && !s.contains(x),
        closed(ls, cur, s),
    ensures
        chain(ls, s.push(ci)),
        s.len() + 1 <= ls.len(),
        forall|x: int| cur.contains(x) ==> 0 <= x < ls.len() && !s.push(ci).contains(x),
        closed(ls, cur, s.push(ci)),
        forall|x: int| cur.contains(x) ==> !is_parent(ls, ci, x),
{
    lemma_child_off_chain(ls, s, ci);
    let s2 = s.push(ci);
    assert forall|a: int, b: int| #![trigger s2[a], s2[b]] 0 <= a && b == a + 1 && b < s2.len() implies is_parent(
        ls,
        s2[a],
        s2[b],
    ) by {
        if b < s.len() {
            assert(s2[a] == s[a] && s2[b] == s[b]);
            assert(is_parent(ls, s[a], s[b]));
        }
    }
    assert forall|j: int| 0 <= j < s2.len() implies 0 <= #[trigger] s2[j] < ls.len() by {
        if j < s.len() {
            assert(s2[j] == s[j]);
        }
    }
    assert(s2.no_duplicates()) by {
        assert forall|a: int, b: int| 0 <= a < s2.len() && 0 <= b < s2.len() && a != b implies s2[a] != s2[b] by {
            if a < s.len() && b < s.len() {
                assert(s2[a] == s[a] && s2[b] == s[b]);
            } else if a < s.len() {
                assert(s2[a] == s[a]);
                assert(s.contains(s2[a]));
            } else {
                assert(s2[b] == s[b]);
                assert(s.contains(s2[b]));
            }
        }
    }
    assert(s2[0] == s[0]);
    assert(chain(ls, s2));
    lemma_distinct_len(s2, ls.len() as int);
    assert forall|x: int| cur.contains(x) implies 0 <= x < ls.len() && !s2.contains(x) by {
        if s2.contains(x) {
            let j = choose|j: int| 0 <= j < s2.len() && s2[j] == x;
            if j < s.len() {
                assert(s[j] == x);
                assert(s.contains(x));
            }
        }
    }
    assert forall|x: int| #[trigger] cur.contains(x) implies is_root(ls, x) || exists|p: int|
        0 <= p < ls.len() && (cur.contains(p) || s2.contains(p)) && is_parent(ls, p, x) by {
        if !is_root(ls, x) {
            let p = choose|p: int| 0 <= p < ls.len() && (cur.contains(p) || s.contains(p)) && is_parent(ls, p, x);
            if s.contains(p) {
                let j = choose|j: int| 0 <= j < s.len() && s[j] == p;
                assert(s2[j] == p);
                assert(s2.contains(p));
            }
        }
    }
    assert forall|x: int| cur.contains(x) implies !is_parent(ls, ci, x) by {
        if is_parent(ls, ci, x) {
            lemma_parent_not_root(ls, ci, x);
            let p = choose|p: int| 0 <= p < ls.len() && (cur.contains(p) || s.contains(p)) && is_parent(ls, p, x);
            lemma_one_parent(ls, p, ci, x);
        }
    }
}

/// After the tree of the `k`th child is built: the later children are
/// still not built, and every newly built process hangs below the parent.
proof fn lemma_after_child(
    ls: Seq<ProcessLink>,
    s: Seq<int>,
    kids: Seq<usize>,
    k: int,
    done: Set<int>,
    cur: Set<int>,
    nd: Set<int>,
)
    requires
        distinct_pids(ls),
        s.len() > 0,
        0 <= s.last() < ls.len(),
        0 <= k < kids.len(),
        forall|m: int| 0 <= m < kids.len() ==> 0 <= #[trigger] kids[m] < ls.len() && is_parent(ls, s.last(), kids[m] as int),
        forall|a: int, b: int| #![trigger kids[a], kids[b]] 0 <= a < b < kids.len() ==> kids[a] < kids[b],
        forall|m: int| k <= m < kids.len() ==> !cur.contains(#[trigger] kids[m] as int),
        forall|x: int| done.contains(x) ==> cur.contains(x),
        forall|x: int|
            cur.contains(x) && !done.contains(x) ==> exists|p: int|
                0 <= p < ls.len() && (p == s.last() || (cur.contains(p) && !done.contains(p))) && is_parent(ls, p, x),
        forall|x: int| cur.contains(x) ==> nd.contains(x),
        forall|x: int| nd.contains(x) ==> 0 <= x < ls.len() && !s.contains(x),
        forall|x: int|
            nd.contains(x) && !cur.contains(x) ==> x == kids[k] as int || exists|p: int|
                0 <= p < ls.len() && nd.contains(p) && !cur.contains(p) && is_parent(ls, p, x),
    ensures
        forall|m: int| k + 1 <= m < kids.len() ==> !nd.contains(#[trigger] kids[m] as int),
        forall|x: int|
            nd.contains(x) && !done.contains(x) ==> exists|p: int|
                0 <= p < ls.len() && (p == s.last() || (nd.contains(p) && !done.contains(p))) && is_parent(ls, p, x),
{
    let i = s.last();
    assert(s[s.len() - 1] == i);
    assert(s.contains(i));
    assert forall|m: int| k + 1 <= m < kids.len() implies !nd.contains(#[trigger] kids[m] as int) by {
        let x = kids[m] as int;
        assert(kids[k] < kids[m]);
        assert(!cur.contains(x));
        if nd.contains(x) {
            let p = choose|p: int| 0 <= p < ls.len() && nd.contains(p) && !cur.contains(p) && is_parent(ls, p, x);
            lemma_one_parent(ls, p, i, x);
        }
    }
    assert forall|x: int| nd.contains(x) && !done.contains(x) implies exists|p: int|
        0 <= p < ls.len() && (p == i || (nd.contains(p) && !done.contains(p))) && is_parent(ls, p, x) by {
        if cur.contains(x) {
            let p = choose|p: int|
                0 <= p < ls.len() && (p == i || (cur.contains(p) && !done.contains(p))) && is_parent(ls, p, x);
            assert(p == i || (nd.contains(p) && !done.contains(p)));
        } else if x == kids[k] as int {
            assert(is_parent(ls, i, x));
        } else {
            let p = choose|p: int| 0 <= p < ls.len() && nd.contains(p) && !cur.contains(p) && is_parent(ls, p, x);
            assert(nd.contains(p) && !done.contains(p));
        }
    }
}

/// Once its children are built, the tree of the last place of a chain is
/// closed: every built process is a root or has its parent built or among
/// the ancestors, and the new processes hang below it.
proof fn lemma_close(ls: Seq<ProcessLink>, path: Seq<int>, i: int, cur: Set<int>, done: Set<int>)
    requires
        chain(ls, path.push(i)),
        forall|x: int| cur.contains(x) ==> 0 <= x < ls.len() && !path.push(i).contains(x),
        closed(ls, cur, path.push(i)),
        forall|x: int| done.contains(x) ==> cur.contains(x),
        forall|x: int|
            cur.contains(x) && !done.contains(x) ==> exists|p: int|
                0 <= p < ls.len() && (p == i || (cur.contains(p) && !done.contains(p))) && is_parent(ls, p, x),
    ensures
        ({
            let d = cur.insert(i);
            &&& closed(ls, d, path)
            &&& forall|x: int| d.contains(x) ==> 0 <= x < ls.len() && !path.contains(x)
            &&& forall|x: int|
                d.contains(x) && !done.contains(x) ==> x == i || exists|p: int|
                    0 <= p < ls.len() && d.contains(p) && !done.contains(p) && is_parent(ls, p, x)
            &&& !done.contains(i)
        }),
{
    let s = path.push(i);
    let d = cur.insert(i);
    assert(s[s.len() - 1] == i);
    assert(s.contains(i));
    assert(0 <= s[s.len() - 1] < ls.len());
    assert forall|x: int| #[trigger] d.contains(x) implies is_root(ls, x) || exists|q: int|
        0 <= q < ls.len() && (d.contains(q) || path.contains(q)) && is_parent(ls, q, x) by {
        if x == i {
            if path.len() > 0 {
                let a = path.len() - 1;
                let q = s[a];
                assert(s[a] == path[a] && s[a + 1] == i);
                assert(is_parent(ls, s[a], s[a + 1]));
                assert(path.contains(q));
                assert(0 <= q < ls.len());
                assert(0 <= q < ls.len() && (d.contains(q) || path.contains(q)) && is_parent(ls, q, x));
            } else {
                assert(s[0] == i);
            }
        } else {
            assert(cur.contains(x));
            if !is_root(ls, x) {
                let q = choose|q: int| 0 <= q < ls.len() && (cur.contains(q) || s.contains(q)) && is_parent(ls, q, x);
                if s.contains(q) && q != i {
                    let j2 = choose|j2: int| 0 <= j2 < s.len() && s[j2] == q;
                    assert(j2 != s.len() - 1);
                    assert(path[j2] == q);
                    assert(path.contains(q));
                }
                assert(0 <= q < ls.len() && (d.contains(q) || path.contains(q)) && is_parent(ls, q, x));
            }
        }
    }
    assert forall|x: int| d.contains(x) implies 0 <= x < ls.len() && !path.contains(x) by {
        if path.contains(x) {
            let j2 = choose|j2: int| 0 <= j2 < path.len() && path[j2] == x;
            assert(s[j2] == x);
            assert(s.contains(x));
            if x == i {
                assert(s[s.len() - 1] == x);
            }
        }
    }
    assert forall|x: int| d.contains(x) && !done.contains(x) implies x == i || exists|q: int|
        0 <= q < ls.len() && d.contains(q) && !done.contains(q) && is_parent(ls, q, x) by {
        if x != i {
            assert(cur.contains(x));
            assert(!cur.contains(i));
            let q = choose|q: int|
                0 <= q < ls.len() && (q == i || (cur.contains(q) && !done.contains(q))) && is_parent(ls, q, x);
            assert(0 <= q < ls.len() && d.contains(q) && !done.contains(q) && is_parent(ls, q, x));
        }
    }
    assert(!cur.contains(i));
}

/// Builds the tree of the process at `i`, whose ancestors are `path`;
/// `done` holds the processes whose trees are already built. Returns the
/// tree and `done` with the processes of the new tree added.
fn build(
    ls: &Vec<ProcessLink>,
    children: &Vec<Vec<usize>>,
    mems: &Vec<MemoryStats>,
    keys: &Vec<ProcessKey>,
    sort: ProcessSort,
    descending: bool,
    i: usize,
    depth: u32,
    Ghost(path): Ghost<Seq<int>>,
    Ghost(done): Ghost<Set<int>>,
) -> (res: (ProcessTreeNode, Ghost<Set<int>>))
    requires
        sort != ProcessSort::Cpu,
        ls.len() == mems.len(),
        ls.len() == keys.len(),
        ls.len() == children.len(),
        ls.len() <= 0x1_0000_0000,
        forall|k: int| 0 <= k < ls.len() ==> (#[trigger] children@[k])@ == forest_links(ls@).1[k],
        distinct_pids(ls@),
        chain(ls@, path.push(i as int)),
        depth == path.len(),
        forall|x: int| done.contains(x) ==> 0 <= x < ls.len() && !path.push(i as int).contains(x),
        closed(ls@, done, path.push(i as int)),
        forall|x: int| done.contains(x) ==> !is_parent(ls@, i as int, x),
        tree_figure_sum(ls@, mems@, path.push(i as int)[0], MemFigure::Resident) <= u64::MAX,
        tree_figure_sum(ls@, mems@, path.push(i as int)[0], MemFigure::Virtual) <= u64::MAX,
        tree_figure_sum(ls@, mems@, path.push(i as int)[0], MemFigure::Shared) <= u64::MAX,
    ensures
        ({
            let (t, g) = res;
            let d = g@;
            &&& t.index == i
            &&& is_tree_of(t, depth as nat, ls@, mems@, keys@, sort, descending)
            &&& forall|x: int| done.contains(x) ==> d.contains(x)
            &&& forall|x: int| d.contains(x) ==> 0 <= x < ls.len() && !path.contains(x)
            &&& d.contains(i as int)
            &&& closed(ls@, d, path)
            &&& forall|x: int|
                d.contains(x) && !done.contains(x) ==> x == i || exists|p: int|
                    0 <= p < ls.len() && d.contains(p) && !done.contains(p) && is_parent(ls@, p, x)
            &&& forall|x: int| d.contains(x) && !done.contains(x) ==> descends(ls@, i as int, x)
            &&& t.total_mem <= wsum(figures(mems@, MemFigure::Resident), d.difference(done), ls.len() as nat)
            &&& t.total_virt <= wsum(figures(mems@, MemFigure::Virtual), d.difference(done), ls.len() as nat)
            &&& t.total_shared <= wsum(figures(mems@, MemFigure::Shared), d.difference(done), ls.len() as nat)
        }),
    decreases ls.len() - path.len(),
{
    let ghost s = path.push(i as int);
    let ghost n = ls.len() as nat;
    assert(s[s.len() - 1] == i as int);
    assert(0 <= s[s.len() - 1] < ls.len());
    let kids = &children[i];
    proof {
        lemma_places(n, |x: int| ls@[x].parent == Some(ls@[i as int].pid));
    }
    let mut built: Vec<ProcessTreeNode> = Vec::new();
    let ghost mut cur = done;
    proof {
        assert(done.difference(done) =~= Set::empty());
        lemma_wsum_zero(figures(mems@, MemFigure::Resident), n);
        lemma_wsum_zero(figures(mems@, MemFigure::Virtual), n);
        lemma_wsum_zero(figures(mems@, MemFigure::Shared), n);
    }
    let mut k: usize = 0;
    while k < kids.len()
        invariant
            sort != ProcessSort::Cpu,
            ls.len() == mems.len(),
            ls.len() == keys.len(),
            ls.len() == children.len(),
            ls.len() <= 0x1_0000_0000,
            forall|j: int| 0 <= j < ls.len() ==> (#[trigger] children@[j])@ == forest_links(ls@).1[j],
            distinct_pids(ls@),
            s == path.push(i as int),
            n == ls.len(),
            chain(ls@, s),
            depth == path.len(),
            i < ls.len(),
            kids@ == forest_links(ls@).1[i as int],
            forall|m: int| 0 <= m < kids@.len() ==> 0 <= #[trigger] kids@[m] < n && is_parent(ls@, i as int, kids@[m] as int),
            forall|a: int, b: int| #![trigger kids@[a], kids@[b]] 0 <= a < b < kids@.len() ==> kids@[a] < kids@[b],
            0 <= k <= kids.len(),
            forall|x: int| done.contains(x) ==> cur.contains(x),
            forall|x: int| cur.contains(x) ==> 0 <= x < ls.len() && !s.contains(x),
            closed(ls@, cur, s),
            forall|m: int| k <= m < kids@.len() ==> !cur.contains(#[trigger] kids@[m] as int),
            forall|x: int|
                cur.contains(x) && !done.contains(x) ==> exists|p: int|
                    0 <= p < ls.len() && (p == i || (cur.contains(p) && !done.contains(p))) && is_parent(ls@, p, x),
            built@.len() == k,
            forall|m: int|
                0 <= m < k ==> (#[trigger] built@[m]).index == kids@[m] && is_tree_of(
                    built@[m],
                    (depth + 1) as nat,
                    ls@,
                    mems@,
                    keys@,
                    sort,
                    descending,
                ),
            totals_sum(built@, MemFigure::Resident) <= wsum(figures(mems@, MemFigure::Resident), cur.difference(done), n),
            totals_sum(built@, MemFigure::Virtual) <= wsum(figures(mems@, MemFigure::Virtual), cur.difference(done), n),
            totals_sum(built@, MemFigure::Shared) <= wsum(figures(mems@, MemFigure::Shared), cur.difference(done), n),
            forall|x: int| cur.contains(x) && !done.contains(x) ==> descends(ls@, i as int, x),
            tree_figure_sum(ls@, mems@, s[0], MemFigure::Resident) <= u64::MAX,
            tree_figure_sum(ls@, mems@, s[0], MemFigure::Virtual) <= u64::MAX,
            tree_figure_sum(ls@, mems@, s[0], MemFigure::Shared) <= u64::MAX,
        decreases kids.len() - k,
    {
        let c = kids[k];
        let ghost ci = c as int;
        proof {
            assert(0 <= ci < n && is_parent(ls@, i as int, ci));
            lemma_descend(ls@, s, cur, ci);
        }
        let (node, Ghost(nd)) = build(
            ls,
            children,
            mems,
            keys,
            sort,
            descending,
            c,
            depth + 1,
            Ghost(s),
            Ghost(cur),
        );
        proof {
            lemma_after_child(ls@, s, kids@, k as int, done, cur, nd);
            lemma_descends_self(ls@, i as int);
            assert forall|x: int| nd.contains(x) && !done.contains(x) implies descends(ls@, i as int, x) by {
                if !cur.contains(x) {
                    lemma_descends_step(ls@, i as int, i as int, ci);
                    lemma_descends_trans(ls@, i as int, ci, x);
                }
            }
            let a = cur.difference(done);
            let b = nd.difference(cur);
            assert(a.union(b) =~= nd.difference(done));
            lemma_wsum_union(figures(mems@, MemFigure::Resident), a, b, n);
            lemma_wsum_union(figures(mems@, MemFigure::Virtual), a, b, n);
            lemma_wsum_union(figures(mems@, MemFigure::Shared), a, b, n);
            assert(built@.push(node).drop_last() =~= built@);
        }
        built.push(node);
        proof {
            cur = nd;
        }
        k += 1;
    }
    let sorted = order_nodes(built, kids, keys, sort, descending);
    let ghost before = built@;
    let ghost p = choose|p: Seq<int>| injective_places(p, before.len() as int) && sorted@ == reorder(before, p);
    let ghost rest = cur.difference(done);
    let ghost whole = cur.insert(i as int).difference(done);
    proof {
        assert(whole =~= rest.insert(i as int));
        assert(!rest.contains(i as int));
        lemma_wsum_insert(figures(mems@, MemFigure::Resident), rest, i as int, n);
        lemma_wsum_insert(figures(mems@, MemFigure::Virtual), rest, i as int, n);
        lemma_wsum_insert(figures(mems@, MemFigure::Shared), rest, i as int, n);
        let r0 = s[0];
        assert(descent(ls@, s));
        lemma_descends_by(ls@, s);
        lemma_descends_self(ls@, i as int);
        assert forall|x: int| 0 <= x < n && whole.contains(x) implies tree_set(ls@, r0).contains(x) by {
            if x != i as int {
                lemma_descends_trans(ls@, r0, i as int, x);
            }
        }
        assert forall|x: int| 0 <= x < n implies #[trigger] figures(mems@, MemFigure::Resident)(x) >= 0 by {}
        assert forall|x: int| 0 <= x < n implies #[trigger] figures(mems@, MemFigure::Virtual)(x) >= 0 by {}
        assert forall|x: int| 0 <= x < n implies #[trigger] figures(mems@, MemFigure::Shared)(x) >= 0 by {}
        lemma_wsum_mono(figures(mems@, MemFigure::Resident), whole, tree_set(ls@, r0), n);
        lemma_wsum_mono(figures(mems@, MemFigure::Virtual), whole, tree_set(ls@, r0), n);
        lemma_wsum_mono(figures(mems@, MemFigure::Shared), whole, tree_set(ls@, r0), n);
    }
    let mut tm: u64 = mems[i].rss;
    let mut tv: u64 = mems[i].virt;
    let mut ts: u64 = mems[i].shared;
    let mut j: usize = 0;
    while j < sorted.len()
        invariant
            sorted@ == reorder(before, p),
            injective_places(p, before.len() as int),
            0 <= j <= sorted.len(),
            i < mems.len(),
            tm == mems@[i as int].rss + totals_sum(sorted@.take(j as int), MemFigure::Resident),
            tv == mems@[i as int].virt + totals_sum(sorted@.take(j as int), MemFigure::Virtual),
            ts == mems@[i as int].shared + totals_sum(sorted@.take(j as int), MemFigure::Shared),
            mems@[i as int].rss + totals_sum(before, MemFigure::Resident) <= u64::MAX,
            mems@[i as int].virt + totals_sum(before, MemFigure::Virtual) <= u64::MAX,
            mems@[i as int].shared + totals_sum(before, MemFigure::Shared) <= u64::MAX,
        decreases sorted.len() - j,
    {
        proof {
            lemma_reorder_prefix(before, p, MemFigure::Resident, j + 1);
            lemma_reorder_prefix(before, p, MemFigure::Virtual, j + 1);
            lemma_reorder_prefix(before, p, MemFigure::Shared, j + 1);
            assert(sorted@.take(j + 1).drop_last() =~= sorted@.take(j as int));
        }
        tm = tm + sorted[j].total_mem;
        tv = tv + sorted[j].total_virt;
        ts = ts + sorted[j].total_shared;
        j += 1;
    }
    proof {
        assert(sorted@.take(sorted@.len() as int) =~= sorted@);
        lemma_reorder_prefix(before, p, MemFigure::Resident, before.len() as int);
        lemma_reorder_prefix(before, p, MemFigure::Virtual, before.len() as int);
        lemma_reorder_prefix(before, p, MemFigure::Shared, before.len() as int);
        lemma_all_trees(sorted@, (depth + 1) as nat, ls@, mems@, keys@, sort, descending);
        assert forall|m: int| 0 <= m < sorted@.len() implies is_tree_of(
            #[trigger] sorted@[m],
            (depth + 1) as nat,
            ls@,
            mems@,
            keys@,
            sort,
            descending,
        ) by {
            assert(0 <= p[m] < before.len());
            assert(sorted@[m] == before[p[m]]);
        }
    }
    let node = ProcessTreeNode {
        index: i,
        depth,
        total_mem: tm,
        total_virt: tv,
        total_shared: ts,
        children: sorted,
    };
    proof {
        assert(cur.insert(i as int).difference(done) =~= whole);
        lemma_close(ls@, path, i as int, cur, done);
    }
    (node, Ghost(cur.insert(i as int)))
}

/// The process tree of a listing: each process under its parent (a process
/// whose parent is not listed starts a tree), with the totals of its
/// subtree, and the trees of each level in the order of the lists, where
/// memory compares the totals of the subtrees. Processes that compare equal
/// keep the order of the listing. `mems` and `keys` give the figures and
/// the sort keys of each listed process; the CPU share is compared by the
/// front end.
pub fn process_tree(
    links: &Vec<ProcessLink>,
    mems: &Vec<MemoryStats>,
    keys: &Vec<ProcessKey>,
    sort: ProcessSort,
    descending: bool,
) -> (r: Vec<ProcessTreeNode>)
    requires
        sort != ProcessSort::Cpu,
        links.len() == mems.len(),
        links.len() == keys.len(),
        distinct_pids(links@),
        totals_fit(links@, mems@),
    ensures
        ordered_members(r@, forest_links(links@).0, keys@, sort, descending),
        all_trees(r@, 0, links@, mems@, keys@, sort, descending),
{
    let (roots, children) = process_forest(links);
    let ghost n = links.len() as nat;
    proof {
        lemma_listing_len(links@);
        lemma_places(n, |x: int| is_root(links@, x));
    }
    let mut built: Vec<ProcessTreeNode> = Vec::new();
    let ghost mut cur: Set<int> = Set::empty();
    let mut k: usize = 0;
    while k < roots.len()
        invariant
            sort != ProcessSort::Cpu,
            links.len() == mems.len(),
            links.len() == keys.len(),
            links.len() == children.len(),
            links.len() <= 0x1_0000_0000,
            n == links.len(),
            forall|j: int| 0 <= j < links.len() ==> (#[trigger] children@[j])@ == forest_links(links@).1[j],
            distinct_pids(links@),
            roots@ == forest_links(links@).0,
            forall|m: int| 0 <= m < roots@.len() ==> 0 <= #[trigger] roots@[m] < n && is_root(links@, roots@[m] as int),
            forall|a: int, b: int| #![trigger roots@[a], roots@[b]] 0 <= a < b < roots@.len() ==> roots@[a] < roots@[b],
            0 <= k <= roots.len(),
            forall|x: int| cur.contains(x) ==> 0 <= x < links.len(),
            closed(links@, cur, Seq::empty()),
            forall|m: int| k <= m < roots@.len() ==> !cur.contains(#[trigger] roots@[m] as int),
            built@.len() == k,
            forall|m: int|
                0 <= m < k ==> (#[trigger] built@[m]).index == roots@[m] && is_tree_of(
                    built@[m],
                    0,
                    links@,
                    mems@,
                    keys@,
                    sort,
                    descending,
                ),
            totals_fit(links@, mems@),
        decreases roots.len() - k,
    {
        let r = roots[k];
        let ghost ri = r as int;
        let ghost s = Seq::<int>::empty().push(ri);
        proof {
            assert(s[0] == ri);
            assert(chain(links@, s));
            assert(tree_figure_sum(links@, mems@, ri, MemFigure::Resident) <= u64::MAX);
            assert forall|x: int| cur.contains(x) implies 0 <= x < links.len() && !s.contains(x) by {
                if s.contains(x) {
                    assert(x == ri);
                }
            }
            assert(closed(links@, cur, s)) by {
                assert forall|x: int| #[trigger] cur.contains(x) implies is_root(links@, x) || exists|p: int|
                    0 <= p < links.len() && (cur.contains(p) || s.contains(p)) && is_parent(links@, p, x) by {
                    if !is_root(links@, x) {
                        let p = choose|p: int|
                            0 <= p < links.len() && (cur.contains(p) || Seq::<int>::empty().contains(p))
                                && is_parent(links@, p, x);
                    }
                }
            }
            assert forall|x: int| cur.contains(x) implies !is_parent(links@, ri, x) by {
                if is_parent(links@, ri, x) {
                    lemma_parent_not_root(links@, ri, x);
                    let p = choose|p: int|
                        0 <= p < links.len() && (cur.contains(p) || Seq::<int>::empty().contains(p))
                            && is_parent(links@, p, x);
                    lemma_one_parent(links@, p, ri, x);
                }
            }
        }
        let (node, Ghost(nd)) = build(
            links,
            &children,
            mems,
            keys,
            sort,
            descending,
            r,
            0,
            Ghost(Seq::empty()),
            Ghost(cur),
        );
        proof {
            assert forall|m: int| k + 1 <= m < roots@.len() implies !nd.contains(#[trigger] roots@[m] as int) by {
                let x = roots@[m] as int;
                assert(roots@[k as int] < roots@[m]);
                if nd.contains(x) && !cur.contains(x) && x != ri {
                    let p = choose|p: int|
                        0 <= p < links.len() && nd.contains(p) && !cur.contains(p) && is_parent(links@, p, x);
                    lemma_parent_not_root(links@, p, x);
                }
            }
        }
        built.push(node);
        proof {
            cur = nd;
        }
        k += 1;
    }
    let ghost before = built@;
    let sorted = order_nodes(built, &roots, keys, sort, descending);
    proof {
        let p = choose|p: Seq<int>| injective_places(p, before.len() as int) && sorted@ == reorder(before, p);
        lemma_all_trees(sorted@, 0, links@, mems@, keys@, sort, descending);
        assert forall|m: int| 0 <= m < sorted@.len() implies is_tree_of(
            #[trigger] sorted@[m],
            0,
            links@,
            mems@,
            keys@,
            sort,
            descending,
        ) by {
            assert(0 <= p[m] < before.len());
            assert(sorted@[m] == before[p[m]]);
        }
    }
    sorted
}

} // verus!
