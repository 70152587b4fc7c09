use ao_cli::config::ProcessSort;
use ao_cli::dashboard::app::{process_order, KeyOrder, ProcessKey};
use ao_cli::dashboard::utils::bar_of_cells;
use ao_cli::os::detector::{detect_system, Distro};
use ao_cli::os::linux_generic::disk::DiskListCommand;
use ao_cli::os::linux_generic::log::StandardLog;
use ao_cli::os::linux_generic::net::{NetInterfacesCommand, NetIpsCommand, NetRoutesCommand};
use ao_cli::os::linux_generic::svc::ServiceStatusCommand;
use ao_cli::os::{AnyCommand, ExecutableCommand, OutputFormat};

#[test]
fn printing_a_disk_listing_shows_lsblk_json() {
    let c = AnyCommand::DiskList(DiskListCommand { format: OutputFormat::Table, show_loop: false });
    assert_eq!(c.as_string(), "lsblk --json");
    assert_eq!(c.print_text(), "lsblk --json");
}

#[test]
fn auth_logs_filter_by_facility() {
    let c = StandardLog.auth(10, false).ok().unwrap();
    assert_eq!(c.print_text(), "journalctl -n 10 _FACILITY=4 _FACILITY=10 --");
}

#[test]
fn network_listings_print_the_ip_call() {
    let i = AnyCommand::NetInterfaces(NetInterfacesCommand { format: OutputFormat::Table });
    assert_eq!(i.print_text(), "ip addr");
    assert_eq!(i.as_string(), "ip addr --format Table");
    let a = AnyCommand::NetIps(NetIpsCommand { format: OutputFormat::Json });
    assert_eq!(a.print_text(), "ip addr");
    let r = AnyCommand::NetRoutes(NetRoutesCommand { format: OutputFormat::Yaml });
    assert_eq!(r.print_text(), "ip route");
}

#[test]
fn other_commands_print_their_text() {
    let c = AnyCommand::ServiceStatus(ServiceStatusCommand { service: "cron".to_string() });
    assert_eq!(c.print_text(), "systemctl status -- cron");
}

#[test]
fn unknown_systems_are_named_in_the_error() {
    let e = Distro::detect(false, Some("ID=haiku")).err().unwrap();
    assert_eq!(e.message, "Unsupported operating system. Detected: \nID=haiku\n");
    let s = detect_system(false, Some("NAME=x\nID=haiku")).err().unwrap();
    assert_eq!(s.message, "Unsupported operating system. Detected: \nNAME=x\nID=haiku\n");
}

#[test]
fn usage_bars_fill_from_the_left() {
    assert_eq!(bar_of_cells(3, 5), "[■■■  ]");
    assert_eq!(bar_of_cells(0, 3), "[   ]");
    assert_eq!(bar_of_cells(9, 2), "[■■]");
    assert_eq!(bar_of_cells(0, 0), "[]");
}

fn key(pid: u32, mem: u64, name: &str, user: &str) -> ProcessKey {
    ProcessKey { pid, mem, name: name.to_string(), user: user.to_string() }
}

#[test]
fn processes_order_by_pid_memory_name_and_owner() {
    let a = key(10, 500, "bash", "root");
    let b = key(20, 100, "zsh", "alice");
    assert_eq!(process_order(ProcessSort::Pid, false, &a, &b), KeyOrder::Less);
    assert_eq!(process_order(ProcessSort::Pid, true, &a, &b), KeyOrder::Greater);
    assert_eq!(process_order(ProcessSort::Mem, false, &a, &b), KeyOrder::Greater);
    assert_eq!(process_order(ProcessSort::Name, false, &a, &b), KeyOrder::Less);
    assert_eq!(process_order(ProcessSort::User, false, &a, &b), KeyOrder::Greater);
    assert_eq!(process_order(ProcessSort::Name, true, &a, &a), KeyOrder::Equal);
    assert_eq!(process_order(ProcessSort::Name, false, &key(1, 0, "ab", "u"), &key(2, 0, "abc", "u")), KeyOrder::Less);
}
