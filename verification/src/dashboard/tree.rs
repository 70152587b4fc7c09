//! The process tree as rows of the process table: each process followed by
//! its children while the tree is expanded, with totals where it is folded.
use vstd::prelude::*;

use crate::dashboard::app::FlattenedTreeNode;
use crate::dashboard::utils::{dash_bytes_text, format_bytes};
use crate::num::{dec, dec_string};
use crate::text::owned;

verus! {

/// A process of the tree, with its own figures and the totals of its
/// subtree. The CPU shares come rendered (`{:.1}%`), as the front end
/// measures them.
pub struct ProcessNode {
    pub pid: u32,
    pub name: String,
    pub user: String,
    pub cpu: String,
    pub total_cpu: String,
    pub memory: u64,
    pub virt_mem: u64,
    pub shared_mem: u64,
    pub total_mem: u64,
    pub total_virt: u64,
    pub total_shared: u64,
    pub depth: u32,
    pub children: Vec<ProcessNode>,
}

/// Two spaces for each level.
pub open spec fn indent(depth: nat) -> Seq<char>
    decreases depth,
{
    if depth == 0 {
        seq![]
    } else {
        indent((depth - 1) as nat) + "  "@
    }
}

/// Whether the children of a node at `depth` are shown.
pub open spec fn expanded(depth: nat, max_depth: nat) -> bool {
    depth + 1 < max_depth
}

/// The cells of a row: pid, user, CPU, memory, virtual and shared memory,
/// threads, descriptors and the indented name. A folded node with children
/// shows the totals of its subtree.
pub open spec fn node_cells(n: ProcessNode, max_depth: nat) -> Seq<Seq<char>> {
    let total = !expanded(n.depth as nat, max_depth) && n.children@.len() > 0;
    seq![
        dec(n.pid as nat),
        n.user@,
        if total { n.total_cpu@ } else { n.cpu@ },
        dash_bytes_text(if total { n.total_mem as nat } else { n.memory as nat }),
        dash_bytes_text(if total { n.total_virt as nat } else { n.virt_mem as nat }),
        dash_bytes_text(if total { n.total_shared as nat } else { n.shared_mem as nat }),
        seq![],
        seq![],
        indent(n.depth as nat) + (if n.depth > 0 { "└─ "@ } else { seq![] }) + n.name@,
    ]
}

/// The rows of a node and, while expanded, of its descendants.
pub open spec fn tree_rows(n: ProcessNode, max_depth: nat) -> Seq<(Seq<Seq<char>>, u32)>
    decreases n, 1nat,
{
    let row = (node_cells(n, max_depth), n.depth);
    if expanded(n.depth as nat, max_depth) {
        seq![row] + forest_rows(n.children@, max_depth)
    } else {
        seq![row]
    }
}

/// The rows of several trees, one after the other.
pub open spec fn forest_rows(ns: Seq<ProcessNode>, max_depth: nat) -> Seq<(Seq<Seq<char>>, u32)>
    decreases ns, 0nat,
{
    if ns.len() == 0 {
        seq![]
    } else {
        tree_rows(ns[0], max_depth) + forest_rows(ns.subrange(1, ns.len() as int), max_depth)
    }
}

impl FlattenedTreeNode {
    pub open spec fn row(&self) -> (Seq<Seq<char>>, u32) {
        (
            seq![
                self.pid@,
                self.user@,
                self.cpu@,
                self.mem@,
                self.virt@,
                self.shared@,
                self.threads@,
                self.fds@,
                self.name@,
            ],
            self.depth,
        )
    }
}

pub open spec fn rows_of(s: Seq<FlattenedTreeNode>) -> Seq<(Seq<Seq<char>>, u32)> {
    s.map_values(|r: FlattenedTreeNode| r.row())
}

/// What a row of the table shows of its process: the pid, the owner, the
/// indented name and the depth; and its figures (CPU, resident, virtual
/// and shared memory) are those of the process alone, except in a folded
/// row (one whose children are not shown) of a process with children,
/// where every figure is the total of its subtree.
pub proof fn lemma_row_figures(r: FlattenedTreeNode, n: ProcessNode, max_depth: nat)
    requires
        r.row() == (node_cells(n, max_depth), n.depth),
    ensures
        r.pid@ == dec(n.pid as nat),
        r.user@ == n.user@,
        r.depth == n.depth,
        r.name@ == indent(n.depth as nat) + (if n.depth > 0 { "└─ "@ } else { seq![] }) + n.name@,
        n.depth + 1 >= max_depth && n.children@.len() > 0 ==> {
            &&& r.cpu@ == n.total_cpu@
            &&& r.mem@ == dash_bytes_text(n.total_mem as nat)
            &&& r.virt@ == dash_bytes_text(n.total_virt as nat)
            &&& r.shared@ == dash_bytes_text(n.total_shared as nat)
        },
        !(n.depth + 1 >= max_depth && n.children@.len() > 0) ==> {
            &&& r.cpu@ == n.cpu@
            &&& r.mem@ == dash_bytes_text(n.memory as nat)
            &&& r.virt@ == dash_bytes_text(n.virt_mem as nat)
            &&& r.shared@ == dash_bytes_text(n.shared_mem as nat)
        },
{
    let c = node_cells(n, max_depth);
    assert(r.row().0 == c);
    assert(r.pid@ == c[0] && r.user@ == c[1] && r.cpu@ == c[2] && r.mem@ == c[3]);
    assert(r.virt@ == c[4] && r.shared@ == c[5] && r.name@ == c[8]);
}

/// The rows of a tree start with the row of its root; the rows of its
/// children follow only while the tree is expanded below the root's depth
/// (depth + 1 < the expansion depth), and a folded root stands alone.
pub proof fn lemma_root_row_first(n: ProcessNode, max_depth: nat)
    ensures
        tree_rows(n, max_depth).len() > 0,
        tree_rows(n, max_depth)[0] == (node_cells(n, max_depth), n.depth),
        n.depth + 1 < max_depth ==> tree_rows(n, max_depth) == seq![(node_cells(n, max_depth), n.depth)]
            + forest_rows(n.children@, max_depth),
        n.depth + 1 >= max_depth ==> tree_rows(n, max_depth) == seq![(node_cells(n, max_depth), n.depth)],
{
}

/// Two spaces for each level, as a string.
fn indent_of(depth: u32) -> (r: String)
    ensures
        r@ == indent(depth as nat),
{
    let mut s = String::new();
    let mut i: u32 = 0;
    while i < depth
        invariant
            0 <= i <= depth,
            s@ == indent(i as nat),
        decreases depth - i,
    {
        s.append("  ");
        i += 1;
    }
    s
}

/// The row of one node.
fn node_row(n: &ProcessNode, max_depth: u32) -> (r: FlattenedTreeNode)
    ensures
        r.row() == (node_cells(*n, max_depth as nat), n.depth),
{
    let total = !((n.depth as u64) + 1 < max_depth as u64) && n.children.len() > 0;
    let mut name = indent_of(n.depth);
    if n.depth > 0 {
        name.append("└─ ");
    }
    name.append(n.name.as_str());
    proof {
        reveal_strlit("");
    }
    let r = FlattenedTreeNode {
        pid: dec_string(n.pid as u64),
        user: n.user.clone(),
        cpu: if total { n.total_cpu.clone() } else { n.cpu.clone() },
        mem: format_bytes(if total { n.total_mem } else { n.memory }),
        virt: format_bytes(if total { n.total_virt } else { n.virt_mem }),
        shared: format_bytes(if total { n.total_shared } else { n.shared_mem }),
        threads: String::new(),
        fds: String::new(),
        name,
        depth: n.depth,
    };
    assert(r.row().0 =~= node_cells(*n, max_depth as nat));
    r
}

/// Appends the rows of a node and its shown descendants.
fn flatten_into(n: &ProcessNode, max_depth: u32, rows: &mut Vec<FlattenedTreeNode>)
    ensures
        rows_of(final(rows)@) == rows_of(old(rows)@) + tree_rows(*n, max_depth as nat),
    decreases n, 1nat,
{
    let r = node_row(n, max_depth);
    let ghost before = rows@;
    rows.push(r);
    assert(rows_of(rows@) =~= rows_of(before) + seq![(node_cells(*n, max_depth as nat), n.depth)]);
    if (n.depth as u64) + 1 < max_depth as u64 {
        proof {
            assert(decreases_to!(*n => n.children));
        }
        let ghost mid = rows@;
        forest_into(&n.children, max_depth, rows);
        assert(rows_of(rows@) =~= rows_of(before) + tree_rows(*n, max_depth as nat));
    }
}

/// Appends the rows of several trees.
fn forest_into(ns: &Vec<ProcessNode>, max_depth: u32, rows: &mut Vec<FlattenedTreeNode>)
    ensures
        rows_of(final(rows)@) == rows_of(old(rows)@) + forest_rows(ns@, max_depth as nat),
    decreases ns, 0nat,
{
    let ghost start = rows@;
    let mut i: usize = 0;
    assert(ns@.subrange(0, ns@.len() as int) =~= ns@);
    assert(rows_of(start) + forest_rows(ns@, max_depth as nat) =~= rows_of(start) + forest_rows(
        ns@.subrange(0, ns@.len() as int),
        max_depth as nat,
    ));
    while i < ns.len()
        invariant
            0 <= i <= ns.len(),
            rows_of(rows@) + forest_rows(ns@.subrange(i as int, ns@.len() as int), max_depth as nat) == rows_of(start)
                + forest_rows(ns@, max_depth as nat),
        decreases ns.len() - i,
    {
        let ghost rest = ns@.subrange(i as int, ns@.len() as int);
        assert(rest[0] == ns@[i as int]);
        assert(rest.subrange(1, rest.len() as int) =~= ns@.subrange(i + 1, ns@.len() as int));
        proof {
            assert(decreases_to!(ns => ns@));
            assert(decreases_to!(ns@ => ns@[i as int]));
        }
        let ghost before = rows@;
        flatten_into(&ns[i], max_depth, rows);
        assert(rows_of(rows@) + forest_rows(ns@.subrange(i + 1, ns@.len() as int), max_depth as nat) =~= rows_of(
            before,
        ) + forest_rows(rest, max_depth as nat));
        i += 1;
    }
    assert(ns@.subrange(ns@.len() as int, ns@.len() as int) =~= seq![]);
    assert(rows_of(rows@) + forest_rows(seq![], max_depth as nat) =~= rows_of(rows@));
}

/// The rows of the process table for the tree, expanded to
/// `tree_expansion_depth` levels.
pub fn calculate_flattened_tree(process_tree: &Vec<ProcessNode>, tree_expansion_depth: u32) -> (r: Vec<
    FlattenedTreeNode,
>)
    ensures
        rows_of(r@) == forest_rows(process_tree@, tree_expansion_depth as nat),
{
    let mut flat: Vec<FlattenedTreeNode> = Vec::new();
    assert(rows_of(flat@) =~= seq![]);
    forest_into(process_tree, tree_expansion_depth, &mut flat);
    assert(rows_of(flat@) =~= forest_rows(process_tree@, tree_expansion_depth as nat));
    flat
}

} // verus!
