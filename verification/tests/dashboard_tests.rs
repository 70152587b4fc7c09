use ao_cli::config::{ProcessSort, UiConfig};
use ao_cli::dashboard::app::{
    dashboard_tabs, get_current_list_len, keep_process, process_forest, push_history, refresh_users_list,
    resource_kind, thread_name, top_by_memory, tree_pid, update_details_filter, DetailsCursor, FlattenedTreeNode,
    ListLens, Navigation, ProcessFacts, ProcessFilter, ProcessLink, ProcessResource,
};
use ao_cli::dashboard::keys::{DashboardState, DetailsView, Key, KeyEffect};
use ao_cli::dashboard::rss::{get_process_memory, get_rss, statm_in_range};
use ao_cli::dashboard::tree::{calculate_flattened_tree, ProcessNode};
use ao_cli::dashboard::utils::{format_bytes, format_uptime, get_user_color, UserColor};

fn lens_with_processes(n: usize) -> ListLens {
    ListLens {
        use_tree_view: false,
        tree_expansion_depth: 0,
        flattened_tree: 0,
        sorted_processes: n,
        disks: 0,
        sessions: 0,
        interfaces: 0,
        services: 0,
        containers: 0,
        sensors: 0,
    }
}

#[test]
fn test_tab_navigation() {
    let mut app = Navigation::new(dashboard_tabs().len());
    assert_eq!(app.tab_index, 0);
    app.next_tab();
    assert_eq!(app.tab_index, 1);
    app.selected_index = 10;
    app.scroll_offset = 5;
    app.next_tab();
    assert_eq!(app.tab_index, 2);
    assert_eq!(app.selected_index, 0);
    assert_eq!(app.scroll_offset, 0);
    app.prev_tab();
    assert_eq!(app.tab_index, 1);
}

#[test]
fn test_selection_logic() {
    let mut app = Navigation::new(dashboard_tabs().len());
    app.tab_index = 1;
    let lens = lens_with_processes(50);

    assert_eq!(app.selected_index, 0);
    app.on_down(&lens);
    assert_eq!(app.selected_index, 1);
    app.on_up();
    assert_eq!(app.selected_index, 0);

    for _ in 0..25 {
        app.on_down(&lens);
    }
    assert_eq!(app.selected_index, 25);
    assert!(app.scroll_offset > 0);

    app.on_page_up();
    assert_eq!(app.selected_index, 5);
    assert_eq!(app.scroll_offset, 5);
}

#[test]
fn tabs_are_the_nine_panes() {
    assert_eq!(
        dashboard_tabs(),
        vec!["Overview", "Process", "Storage", "User", "Network", "Service", "Virtualization", "Sensors", "Charts"]
    );
}

#[test]
fn tabs_wrap_around_both_ways() {
    let mut app = Navigation::new(9);
    app.prev_tab();
    assert_eq!(app.tab_index, 8);
    app.next_tab();
    assert_eq!(app.tab_index, 0);
}

#[test]
fn down_stops_at_the_last_row_and_page_down_clamps() {
    let mut app = Navigation::new(9);
    app.tab_index = 1;
    let lens = lens_with_processes(3);
    for _ in 0..10 {
        app.on_down(&lens);
    }
    assert_eq!(app.selected_index, 2);
    app.selected_index = 0;
    app.on_page_down(&lens_with_processes(50));
    assert_eq!(app.selected_index, 20);
    assert_eq!(app.scroll_offset, 20);
    app.on_page_down(&lens_with_processes(30));
    assert_eq!(app.selected_index, 29);
    let before = (app.selected_index, app.scroll_offset);
    app.on_page_down(&lens_with_processes(0));
    assert_eq!((app.selected_index, app.scroll_offset), before);
}

#[test]
fn list_length_follows_the_tab() {
    let mut lens = lens_with_processes(7);
    lens.use_tree_view = true;
    lens.tree_expansion_depth = 2;
    lens.flattened_tree = 11;
    lens.disks = 3;
    lens.sensors = 4;
    assert_eq!(get_current_list_len(1, &lens), 11);
    lens.tree_expansion_depth = 0;
    assert_eq!(get_current_list_len(1, &lens), 7);
    assert_eq!(get_current_list_len(2, &lens), 3);
    assert_eq!(get_current_list_len(7, &lens), 4);
    assert_eq!(get_current_list_len(0, &lens), 0);
    assert_eq!(get_current_list_len(8, &lens), 0);
}

#[test]
fn details_cursor_moves_within_its_list() {
    let mut c = DetailsCursor { selected_index: 0, scroll_offset: 0 };
    c.details_on_up();
    assert_eq!(c.selected_index, 0);
    for _ in 0..22 {
        c.details_on_down(30);
    }
    assert_eq!(c.selected_index, 22);
    assert_eq!(c.scroll_offset, 3);
    c.details_on_down(23);
    assert_eq!(c.selected_index, 22);
}

#[test]
fn uptime_uses_the_largest_units() {
    assert_eq!(format_uptime(0), "0m");
    assert_eq!(format_uptime(59), "0m");
    assert_eq!(format_uptime(3600 + 120), "1h 2m");
    assert_eq!(format_uptime(86400 * 2 + 3600 * 3 + 60 * 4 + 5), "2d 3h 4m");
    assert_eq!(format_uptime(86400), "1d 0h 0m");
}

#[test]
fn dashboard_bytes_stop_at_gigabytes() {
    assert_eq!(format_bytes(0), "0 B");
    assert_eq!(format_bytes(1023), "1023 B");
    assert_eq!(format_bytes(1536), "1.50 KB");
    assert_eq!(format_bytes(5 * 1024 * 1024), "5.00 MB");
    assert_eq!(format_bytes(1024u64 * 1024 * 1024 * 1024), "1024.00 GB");
}

#[test]
fn user_colors_come_from_the_byte_sum() {
    // "a" is 97, and 97 % 6 == 1.
    assert_eq!(get_user_color("a"), UserColor::Green);
    // "" sums to 0.
    assert_eq!(get_user_color(""), UserColor::Red);
    // 'r' + 'o' + 'o' + 't' = 114 + 111 + 111 + 116 = 452; 452 % 6 == 2.
    assert_eq!(get_user_color("root"), UserColor::Yellow);
    assert_eq!(get_user_color("root"), get_user_color("root"));
}

#[test]
fn statm_gives_bytes_of_pages() {
    let m = get_process_memory("10 20 30 0 0 0 0\n");
    assert_eq!(m.virt, 10 * 4096);
    assert_eq!(m.rss, 20 * 4096);
    assert_eq!(m.shared, 30 * 4096);
    assert_eq!(get_rss("1 2 3"), 8192);
    let z = get_process_memory("1 2");
    assert_eq!((z.rss, z.virt, z.shared), (0, 0, 0));
    let bad = get_process_memory("x 5 y");
    assert_eq!((bad.rss, bad.virt, bad.shared), (5 * 4096, 0, 0));
    assert!(statm_in_range("1 2 3"));
    assert!(!statm_in_range("18446744073709551615 2 3"));
}

#[test]
fn resources_are_classified_by_target() {
    assert_eq!(resource_kind("socket:[1234]"), "Socket");
    assert_eq!(resource_kind("pipe:[99]"), "Pipe");
    assert_eq!(resource_kind("anon_inode:[eventfd]"), "Anon");
    assert_eq!(resource_kind("/var/log/syslog"), "File");
    assert_eq!(thread_name(Some("  bash\n")), "bash");
    assert_eq!(thread_name(None), "unknown");
}

#[test]
fn details_filter_ignores_case() {
    let rs = vec![
        ProcessResource { name: "/tmp/Log.txt".to_string(), resource_type: "File".to_string() },
        ProcessResource { name: "socket:[1]".to_string(), resource_type: "Socket".to_string() },
        ProcessResource { name: "pipe:[2]".to_string(), resource_type: "Pipe".to_string() },
    ];
    let f = update_details_filter(&rs, "LOG");
    assert_eq!(f.len(), 1);
    assert_eq!(f[0].name, "/tmp/Log.txt");
    let s = update_details_filter(&rs, "sock");
    assert_eq!(s.len(), 1);
    assert_eq!(s[0].resource_type, "Socket");
    assert_eq!(update_details_filter(&rs, "").len(), 3);
}

#[test]
fn users_list_puts_people_first_by_name() {
    let users = vec![
        ("root".to_string(), "0".to_string()),
        ("zoe".to_string(), "1001".to_string()),
        ("adam".to_string(), "1000".to_string()),
        ("daemon".to_string(), "1".to_string()),
        ("odd".to_string(), "not-a-number".to_string()),
    ];
    let r = refresh_users_list(&users);
    let names: Vec<(&str, bool)> = r.iter().map(|(n, s)| (n.as_str(), *s)).collect();
    assert_eq!(names, vec![("adam", false), ("zoe", false), ("daemon", true), ("odd", true), ("root", true)]);
}

fn facts(pid: u32, parent: Option<u32>, name: &str) -> ProcessFacts {
    ProcessFacts {
        pid,
        parent,
        is_thread: false,
        uid: Some("1000".to_string()),
        name: name.to_string(),
        exe: Some(format!("/usr/bin/{}", name)),
    }
}

fn no_filter() -> ProcessFilter {
    ProcessFilter {
        show_user_threads: false,
        show_only_current_user: false,
        current_uid: 1000,
        hide_kernel_processes: true,
        filter: String::new(),
        apply_filter: true,
    }
}

#[test]
fn kernel_threads_and_other_users_are_hidden() {
    let f = no_filter();
    assert!(keep_process(&facts(100, Some(1), "bash"), &f));
    assert!(!keep_process(&facts(2, Some(0), "kthreadd"), &f));
    assert!(!keep_process(&facts(7, Some(2), "kworker"), &f));
    let mut t = facts(101, Some(100), "bash");
    t.is_thread = true;
    assert!(!keep_process(&t, &f));
    let mut mine = no_filter();
    mine.show_only_current_user = true;
    let mut other = facts(102, Some(1), "sshd");
    other.uid = Some("0".to_string());
    assert!(!keep_process(&other, &mine));
    assert!(keep_process(&facts(103, Some(1), "vim"), &mine));
}

#[test]
fn text_filter_matches_name_or_executable() {
    let mut f = no_filter();
    f.filter = "VI".to_string();
    assert!(keep_process(&facts(10, Some(1), "vim"), &f));
    assert!(!keep_process(&facts(11, Some(1), "bash"), &f));
    let mut g = facts(12, Some(1), "x");
    g.exe = Some("/opt/VIEWER".to_string());
    assert!(keep_process(&g, &f));
    f.apply_filter = false;
    assert!(keep_process(&facts(11, Some(1), "bash"), &f));
}

#[test]
fn forest_groups_children_under_listed_parents() {
    let links = vec![
        ProcessLink { pid: 1, parent: None },
        ProcessLink { pid: 10, parent: Some(1) },
        ProcessLink { pid: 11, parent: Some(10) },
        ProcessLink { pid: 12, parent: Some(1) },
        ProcessLink { pid: 50, parent: Some(999) },
    ];
    let (roots, children) = process_forest(&links);
    assert_eq!(roots, vec![0, 4]);
    assert_eq!(children[0], vec![1, 3]);
    assert_eq!(children[1], vec![2]);
    assert!(children[2].is_empty());
    assert!(children[4].is_empty());
}

#[test]
fn history_keeps_the_last_sixty() {
    let mut h: Vec<u32> = Vec::new();
    for i in 0..65 {
        push_history(&mut h, i);
    }
    assert_eq!(h.len(), 60);
    assert_eq!(h[0], 5);
    assert_eq!(h[59], 64);
}

#[test]
fn top_by_memory_is_largest_first_and_stable() {
    let mem = vec![10, 50, 20, 50, 5];
    assert_eq!(top_by_memory(&mem, 3), vec![1, 3, 2]);
    assert_eq!(top_by_memory(&mem, 10), vec![1, 3, 2, 0, 4]);
    assert!(top_by_memory(&mem, 0).is_empty());
}

fn node(pid: u32, depth: u32, name: &str, children: Vec<ProcessNode>) -> ProcessNode {
    ProcessNode {
        pid,
        name: name.to_string(),
        user: "root".to_string(),
        cpu: "1.0%".to_string(),
        total_cpu: "3.0%".to_string(),
        memory: 1024,
        virt_mem: 2048,
        shared_mem: 0,
        total_mem: 4096,
        total_virt: 8192,
        total_shared: 512,
        depth,
        children,
    }
}

#[test]
fn flattened_tree_indents_and_folds() {
    let tree = vec![node(1, 0, "init", vec![node(20, 1, "sshd", vec![node(300, 2, "bash", vec![])])])];
    let rows = calculate_flattened_tree(&tree, 2);
    assert_eq!(rows.len(), 2);
    assert_eq!(rows[0].pid, "1");
    assert_eq!(rows[0].name, "init");
    assert_eq!(rows[0].cpu, "1.0%");
    assert_eq!(rows[0].mem, "1.00 KB");
    assert_eq!(rows[1].name, "  └─ sshd");
    // sshd is folded and has a child: it shows the totals of its subtree.
    assert_eq!(rows[1].cpu, "3.0%");
    assert_eq!(rows[1].mem, "4.00 KB");
    assert_eq!(rows[1].shared, "512 B");
    assert_eq!(rows[1].threads, "");
    let all = calculate_flattened_tree(&tree, 5);
    assert_eq!(all.len(), 3);
    assert_eq!(all[2].name, "    └─ bash");
    assert_eq!(all[2].depth, 2);
    let none = calculate_flattened_tree(&tree, 0);
    assert_eq!(none.len(), 1);
    assert_eq!(none[0].cpu, "3.0%");
}

#[test]
fn tree_rows_give_their_process() {
    let rows = vec![FlattenedTreeNode {
        pid: "42".to_string(),
        user: String::new(),
        cpu: String::new(),
        mem: String::new(),
        virt: String::new(),
        shared: String::new(),
        threads: String::new(),
        fds: String::new(),
        name: String::new(),
        depth: 0,
    }];
    assert_eq!(tree_pid(&rows, 0), Some(42));
    assert_eq!(tree_pid(&rows, 1), None);
}

fn state() -> DashboardState {
    let ui: UiConfig = Default::default();
    DashboardState::from_config(&ui, 9)
}

#[test]
fn settings_give_the_opening_state() {
    let s = state();
    assert_eq!(s.nav.tab_index, 0);
    assert!(s.use_tree_view);
    assert_eq!(s.tree_expansion_depth, 2);
    assert!(s.hide_kernel_processes);
    assert_eq!(s.process_sort, ProcessSort::Cpu);
    assert!(s.sort_descending);
    assert_eq!(s.tick_nanos, 1_000_000_000);
}

#[test]
fn keys_drive_the_dashboard() {
    let lens = lens_with_processes(40);
    let mut s = state();
    assert_eq!(s.handle_key(Key::Tab, &lens, 0), KeyEffect::Nothing);
    assert_eq!(s.nav.tab_index, 1);
    assert_eq!(s.handle_key(Key::Enter, &lens, 0), KeyEffect::FetchDetails);
    assert_eq!(s.handle_key(Key::Char('/'), &lens, 0), KeyEffect::Nothing);
    assert!(s.is_filtering);
    assert_eq!(s.handle_key(Key::Char('q'), &lens, 0), KeyEffect::Refresh);
    assert_eq!(s.process_filter, "q");
    assert_eq!(s.handle_key(Key::Backspace, &lens, 0), KeyEffect::Refresh);
    assert_eq!(s.process_filter, "");
    assert_eq!(s.handle_key(Key::Esc, &lens, 0), KeyEffect::RefreshAndSaveFilter);
    assert!(!s.is_filtering);
    assert_eq!(s.handle_key(Key::Char('m'), &lens, 0), KeyEffect::Refresh);
    assert_eq!(s.process_sort, ProcessSort::Mem);
    assert!(!s.sort_descending);
    assert_eq!(s.handle_key(Key::Char('7'), &lens, 0), KeyEffect::Refresh);
    assert_eq!(s.tree_expansion_depth, 7);
    assert_eq!(s.handle_key(Key::Char('j'), &lens, 0), KeyEffect::Nothing);
    assert_eq!(s.nav.selected_index, 1);
    assert_eq!(s.handle_key(Key::Char('q'), &lens, 0), KeyEffect::Quit);
}

#[test]
fn the_interval_steps_by_a_fifth_of_a_second() {
    let lens = lens_with_processes(0);
    let mut s = state();
    s.handle_key(Key::Char('+'), &lens, 0);
    assert_eq!(s.tick_nanos, 1_200_000_000);
    for _ in 0..10 {
        s.handle_key(Key::Char('-'), &lens, 0);
    }
    assert_eq!(s.tick_nanos, 200_000_000);
}

#[test]
fn k_toggles_kernel_threads_on_the_storage_tab_only() {
    let lens = lens_with_processes(10);
    let mut s = state();
    s.nav.tab_index = 2;
    assert_eq!(s.handle_key(Key::Char('k'), &lens, 0), KeyEffect::Refresh);
    assert!(!s.hide_kernel_processes);
    s.nav.tab_index = 1;
    s.nav.selected_index = 3;
    assert_eq!(s.handle_key(Key::Char('k'), &lens, 0), KeyEffect::Nothing);
    assert_eq!(s.nav.selected_index, 2);
}

#[test]
fn the_details_pane_takes_the_keys_while_open() {
    let lens = lens_with_processes(10);
    let mut s = state();
    s.details = Some(DetailsView {
        cursor: DetailsCursor { selected_index: 0, scroll_offset: 0 },
        filter: String::new(),
        is_searching: false,
    });
    assert_eq!(s.handle_key(Key::Char('q'), &lens, 5), KeyEffect::Nothing);
    assert_eq!(s.handle_key(Key::Down, &lens, 5), KeyEffect::Nothing);
    assert_eq!(s.details.as_ref().unwrap().cursor.selected_index, 1);
    assert_eq!(s.handle_key(Key::Char('/'), &lens, 5), KeyEffect::Nothing);
    assert_eq!(s.handle_key(Key::Char('s'), &lens, 5), KeyEffect::FilterDetails);
    assert_eq!(s.details.as_ref().unwrap().filter, "s");
    assert_eq!(s.details.as_ref().unwrap().cursor.selected_index, 0);
    assert_eq!(s.handle_key(Key::Esc, &lens, 5), KeyEffect::Nothing);
    assert!(!s.details.as_ref().unwrap().is_searching);
    assert_eq!(s.handle_key(Key::Esc, &lens, 5), KeyEffect::Nothing);
    assert!(s.details.is_none());
}
