use ao_cli::config::{ProcessSort, UiConfig};
use ao_cli::dashboard::app::{DetailsCursor, ProcessKey, ProcessLink, ProcessResource};
use ao_cli::dashboard::forest::{process_tree, ProcessTreeNode};
use ao_cli::dashboard::keys::{DashboardState, DetailsView};
use ao_cli::dashboard::order::{sort_by_process_key, sorted_process_indices};
use ao_cli::dashboard::rss::MemoryStats;

fn key(pid: u32, mem: u64, name: &str, user: &str) -> ProcessKey {
    ProcessKey { pid, mem, name: name.to_string(), user: user.to_string() }
}

fn keys() -> Vec<ProcessKey> {
    vec![
        key(30, 500, "bash", "root"),
        key(10, 100, "sshd", "alice"),
        key(20, 500, "bash", "bob"),
        key(40, 100, "cron", "alice"),
    ]
}

#[test]
fn lists_sort_by_pid_both_ways() {
    assert_eq!(sorted_process_indices(&keys(), ProcessSort::Pid, false), vec![1, 2, 0, 3]);
    assert_eq!(sorted_process_indices(&keys(), ProcessSort::Pid, true), vec![3, 0, 2, 1]);
}

#[test]
fn equal_keys_keep_their_order_in_either_direction() {
    assert_eq!(sorted_process_indices(&keys(), ProcessSort::Mem, false), vec![1, 3, 0, 2]);
    assert_eq!(sorted_process_indices(&keys(), ProcessSort::Mem, true), vec![0, 2, 1, 3]);
    assert_eq!(sorted_process_indices(&keys(), ProcessSort::Name, false), vec![0, 2, 3, 1]);
    assert_eq!(sorted_process_indices(&keys(), ProcessSort::Name, true), vec![1, 3, 0, 2]);
    assert_eq!(sorted_process_indices(&keys(), ProcessSort::User, false), vec![1, 3, 2, 0]);
    assert_eq!(sorted_process_indices(&keys(), ProcessSort::User, true), vec![0, 2, 1, 3]);
}

#[test]
fn an_empty_list_sorts_to_nothing() {
    assert!(sorted_process_indices(&Vec::new(), ProcessSort::Name, true).is_empty());
}

#[test]
fn values_follow_their_keys() {
    let sorted = sort_by_process_key(vec!['a', 'b', 'c', 'd'], &keys(), ProcessSort::Pid, false);
    assert_eq!(sorted, vec!['b', 'c', 'a', 'd']);
}

fn link(pid: u32, parent: Option<u32>) -> ProcessLink {
    ProcessLink { pid, parent }
}

fn mem(rss: u64) -> MemoryStats {
    MemoryStats { rss, virt: rss * 2, shared: rss / 2 }
}

fn shape(n: &ProcessTreeNode) -> (usize, u32, u64, Vec<(usize, u32, u64)>) {
    (n.index, n.depth, n.total_mem, n.children.iter().map(|c| (c.index, c.depth, c.total_mem)).collect())
}

// 1 ─┬─ 2 ── 4
//    └─ 3
// 5 (its parent 99 is not listed)
fn listing() -> (Vec<ProcessLink>, Vec<MemoryStats>, Vec<ProcessKey>) {
    let links = vec![link(1, None), link(2, Some(1)), link(3, Some(1)), link(4, Some(2)), link(5, Some(99))];
    let mems = vec![mem(10), mem(20), mem(300), mem(40), mem(5)];
    let keys = vec![
        key(1, 10, "init", "root"),
        key(2, 20, "a", "root"),
        key(3, 300, "b", "root"),
        key(4, 40, "c", "root"),
        key(5, 5, "d", "root"),
    ];
    (links, mems, keys)
}

#[test]
fn the_tree_hangs_each_process_under_its_parent() {
    let (links, mems, keys) = listing();
    let roots = process_tree(&links, &mems, &keys, ProcessSort::Pid, false);
    assert_eq!(roots.len(), 2);
    assert_eq!(shape(&roots[0]), (0, 0, 370, vec![(1, 1, 60), (2, 1, 300)]));
    assert_eq!(shape(&roots[1]), (4, 0, 5, vec![]));
    assert_eq!(shape(&roots[0].children[0]), (1, 1, 60, vec![(3, 2, 40)]));
    assert_eq!(roots[0].total_virt, 740);
    assert_eq!(roots[0].total_shared, 5 + 10 + 150 + 20);
}

#[test]
fn the_tree_orders_memory_by_subtree_totals() {
    let (links, mems, keys) = listing();
    let roots = process_tree(&links, &mems, &keys, ProcessSort::Mem, true);
    assert_eq!(roots.iter().map(|n| n.index).collect::<Vec<_>>(), vec![0, 4]);
    assert_eq!(roots[0].children.iter().map(|n| n.index).collect::<Vec<_>>(), vec![2, 1]);
    let roots = process_tree(&links, &mems, &keys, ProcessSort::Name, true);
    assert_eq!(roots.iter().map(|n| n.index).collect::<Vec<_>>(), vec![0, 4]);
    assert_eq!(roots[0].children.iter().map(|n| n.index).collect::<Vec<_>>(), vec![2, 1]);
}

#[test]
fn an_empty_listing_has_no_tree() {
    assert!(process_tree(&Vec::new(), &Vec::new(), &Vec::new(), ProcessSort::Pid, false).is_empty());
}

fn resource(name: &str, kind: &str) -> ProcessResource {
    ProcessResource { name: name.to_string(), resource_type: kind.to_string() }
}

#[test]
fn refiltering_the_details_goes_back_to_the_first_row() {
    let ui: UiConfig = Default::default();
    let mut s = DashboardState::from_config(&ui, 9);
    s.details = Some(DetailsView {
        cursor: DetailsCursor { selected_index: 3, scroll_offset: 2 },
        filter: "SOCK".to_string(),
        is_searching: true,
    });
    let resources = vec![resource("/dev/null", "File"), resource("socket:[12]", "Socket"), resource("pipe:[3]", "Pipe")];
    let mut filtered = resources.clone();
    s.refilter_details(&resources, &mut filtered);
    assert_eq!(filtered.iter().map(|r| r.name.as_str()).collect::<Vec<_>>(), vec!["socket:[12]"]);
    let d = s.details.as_ref().unwrap();
    assert_eq!((d.cursor.selected_index, d.cursor.scroll_offset), (0, 0));
    assert_eq!(d.filter, "SOCK");
    assert!(d.is_searching);
}

#[test]
fn refiltering_without_details_changes_nothing() {
    let ui: UiConfig = Default::default();
    let mut s = DashboardState::from_config(&ui, 9);
    let resources = vec![resource("/dev/null", "File")];
    let mut filtered = Vec::new();
    s.refilter_details(&resources, &mut filtered);
    assert!(filtered.is_empty());
    assert!(s.details.is_none());
}
