use ao_cli::cli::{DiskArgs, GroupAction, GroupArgs, OutputFormat, PackageAction, PackageArgs, ServiceAction, ServiceArgs};
use ao_cli::config::{Config, ProcessSort};
use ao_cli::os::alpine::Apk;
use ao_cli::os::arch::Pacman;
use ao_cli::os::debian::Apt;
use ao_cli::os::detector::{detect_system, DetectedSystem, Distro, DomainKind, PackageBackend};
use ao_cli::os::fedora::Dnf;
use ao_cli::os::linux_generic::group::{GroupAddCommand, GroupDelCommand, GroupListCommand, GroupModCommand, StandardGroup};
use ao_cli::os::linux_generic::partition::{PartitionMountCommand, PartitionUnmountCommand, PartitionUsageCommand};
use ao_cli::os::linux_generic::svc::{ServiceUpCommand, Systemd};
use ao_cli::os::linux_generic::user::{UserAddCommand, UserDelCommand, UserModCommand};
use ao_cli::os::systemd::{CallEnd, Systemd as DirectSystemd};
use ao_cli::os::{AnyCommand, ExecutableCommand, PackageDomain, PackageManager};

fn pkg(action: Option<PackageAction>) -> PackageArgs {
    PackageArgs { action }
}

fn line(r: Result<AnyCommand, ao_cli::os::AoError>) -> String {
    match r {
        Ok(c) => c.as_string(),
        Err(e) => format!("error: {}", e.message),
    }
}

#[test]
fn test_macos_detection_interface() {
    let system = detect_system(true, None).ok().expect("MacOS system detection failed");
    assert_eq!(system.domain_name(DomainKind::Package), "package");
}

#[test]
fn release_files_name_the_family() {
    let deb = detect_system(false, Some("NAME=Ubuntu\nID=ubuntu\nID_LIKE=debian\n")).ok().unwrap();
    assert_eq!(deb.distro, Distro::Debian);
    assert_eq!(deb.package_backend(), PackageBackend::Apt);
    assert_eq!(Distro::detect(false, Some("ID=arch\n")).ok(), Some(Distro::Arch));
    assert_eq!(Distro::detect(false, Some("ID=fedora\n")).ok(), Some(Distro::Fedora));
    assert_eq!(Distro::detect(false, Some("ID=alpine\n")).ok(), Some(Distro::Alpine));
    assert_eq!(Distro::detect(true, Some("ID=debian\n")).ok(), Some(Distro::MacOS));
}

#[test]
fn unknown_systems_are_refused_with_the_release_text() {
    let e = Distro::detect(false, Some("ID=plan9")).err().unwrap();
    assert_eq!(e.message, "Unsupported operating system. Detected: \nID=plan9\n");
    let none = Distro::detect(false, None).err().unwrap();
    assert_eq!(none.message, "Unsupported operating system. Detected: \n");
}

#[test]
fn every_domain_is_found_by_its_name() {
    let linux = DetectedSystem { distro: Distro::Fedora };
    let mac = DetectedSystem { distro: Distro::MacOS };
    for k in DetectedSystem::all() {
        assert_eq!(linux.find_domain(linux.domain_name(k)), Some(k));
        assert_eq!(mac.find_domain(mac.domain_name(k)), Some(k));
        assert_eq!(DomainKind::from_name(k.name()), Some(k));
    }
    assert_eq!(mac.domain_name(DomainKind::Monitor), "overview");
    assert_eq!(linux.domain_name(DomainKind::Monitor), "monitor");
    assert_eq!(linux.find_domain("overview"), None);
    assert_eq!(DomainKind::from_name("sys"), None);
}

#[test]
fn domains_are_sorted_by_name() {
    let linux = DetectedSystem { distro: Distro::Debian };
    let names: Vec<&str> = linux.sorted_domains().iter().map(|k| linux.domain_name(*k)).collect();
    assert_eq!(
        names,
        vec![
            "boot", "device", "disk", "distribution", "group", "gui", "log", "monitor", "network", "package",
            "partition", "security", "self", "service", "system", "user", "virtualization"
        ]
    );
    let mac = DetectedSystem { distro: Distro::MacOS };
    let mac_names: Vec<&str> = mac.sorted_domains().iter().map(|k| mac.domain_name(*k)).collect();
    assert_eq!(mac_names[8], "overview");
}

#[test]
fn each_family_has_its_package_manager() {
    let add = pkg(Some(PackageAction::Add { packages: vec!["vim".to_string()] }));
    let expect = [
        (Distro::Debian, "apt-get install -y -- vim"),
        (Distro::Arch, "pacman -S --noconfirm -- vim"),
        (Distro::Fedora, "dnf install -y -- vim"),
        (Distro::Alpine, "apk add -- vim"),
        (Distro::MacOS, "brew install vim"),
    ];
    for (d, text) in expect {
        assert_eq!(line(DetectedSystem { distro: d }.package(&add)), text);
    }
}

#[test]
fn package_actions_map_to_the_manager() {
    let apt = PackageDomain { manager: Apt };
    assert_eq!(line(apt.execute(&pkg(Some(PackageAction::Update)))), "apt-get update");
    assert_eq!(
        line(apt.execute(&pkg(Some(PackageAction::Delete { packages: vec!["a".into(), "b".into()], purge: true })))),
        "apt-get purge -y -- a b"
    );
    assert_eq!(
        line(apt.execute(&pkg(Some(PackageAction::Delete { packages: vec!["a".into()], purge: false })))),
        "apt-get remove -y -- a"
    );
    assert_eq!(line(apt.execute(&pkg(Some(PackageAction::Search { query: "ed".into() })))), "apt-cache search -- ed");
    assert_eq!(line(PackageDomain { manager: Pacman }.execute(&pkg(None))), "pacman -Q");
    assert_eq!(line(PackageDomain { manager: Dnf }.execute(&pkg(Some(PackageAction::Update)))), "dnf check-update");
    assert_eq!(line(Apk.update()), "apk update");
    assert_eq!(line(Pacman.search("x")), "pacman -Ss -- x");
}

#[test]
fn service_commands_print_what_they_run() {
    let up = ServiceUpCommand { service: "cron".to_string() };
    assert_eq!(up.as_string(), "systemctl enable --now -- cron");
    assert_eq!(up.plan().as_string(), up.as_string());
    let args = ServiceArgs { action: Some(ServiceAction::Status { name: "cron".to_string() }) };
    assert_eq!(line(Systemd.execute(&args)), "systemctl status -- cron");
}

#[test]
fn group_commands_print_what_they_run() {
    let add = GroupAddCommand { groupname: "devs".to_string() };
    assert_eq!(add.as_string(), "groupadd -- devs");
    assert_eq!(add.plan().as_string(), add.as_string());
    let del = GroupDelCommand { groupname: "devs".to_string() };
    assert_eq!(del.plan().as_string(), "groupdel -- devs");
    let m = GroupModCommand { groupname: "devs".to_string(), gid: 2001 };
    assert_eq!(m.as_string(), "groupmod --gid 2001 -- devs");
    assert_eq!(m.plan().as_string(), m.as_string());
}

#[test]
fn user_changes_print_what_they_run() {
    let d = UserDelCommand { username: "bob".to_string(), purge: true };
    assert_eq!(d.as_string(), "userdel -r -- bob");
    assert_eq!(d.plan().as_string(), d.as_string());
    let m = UserModCommand { username: "bob".to_string(), action: "home".to_string(), value: "/srv/bob".to_string() };
    assert_eq!(m.plan().ok().unwrap().as_string(), "usermod -d /srv/bob -m -- bob");
    assert_eq!(m.as_string(), "usermod -d /srv/bob -m -- bob");
    let bad = UserModCommand { username: "bob".to_string(), action: "color".to_string(), value: "red".to_string() };
    assert_eq!(bad.plan().err().unwrap().message, "Unsupported user modification action: color");
}

#[test]
fn user_add_prints_what_it_runs_with_the_comment_quoted() {
    let plain = UserAddCommand {
        username: "bob".to_string(),
        name: None,
        email: None,
        groups: Some("wheel".to_string()),
        shell: Some("/bin/zsh".to_string()),
        system: false,
        no_create_home: false,
    };
    assert_eq!(plain.as_string(), "useradd -m --shell /bin/zsh --groups wheel -- bob");
    assert_eq!(plain.plan().as_string(), plain.as_string());
    let named = UserAddCommand {
        username: "bob".to_string(),
        name: Some("Bob Smith".to_string()),
        email: Some("bob@example.com".to_string()),
        groups: None,
        shell: None,
        system: true,
        no_create_home: true,
    };
    assert_eq!(named.as_string(), "useradd --system -c \"Bob Smith <bob@example.com>\" -- bob");
    let run = named.plan();
    assert_eq!(run.binary, "useradd");
    assert_eq!(run.args, vec!["--system", "-c", "Bob Smith <bob@example.com>", "--", "bob"]);
}

#[test]
fn mounts_print_what_they_run() {
    let m = PartitionMountCommand {
        device: "/dev/sdb1".to_string(),
        path: "/mnt".to_string(),
        fstype: Some("ext4".to_string()),
        options: None,
    };
    assert_eq!(m.as_string(), "mount -t ext4 -- /dev/sdb1 /mnt");
    assert_eq!(m.plan().as_string(), m.as_string());
    let u = PartitionUnmountCommand { target: "/mnt".to_string(), lazy: true, force: true };
    assert_eq!(u.plan().as_string(), "umount -l -f -- /mnt");
    assert_eq!(u.as_string(), u.plan().as_string());
    let du = PartitionUsageCommand { path: "/var".to_string(), depth: Some(2), ignore_exit_code: false };
    assert_eq!(du.as_string(), "du -h --max-depth=2 -- /var");
    assert_eq!(du.plan().as_string(), du.as_string());
    assert!(du.ignore_exit_code().plan().ignore_exit_code);
}

#[test]
fn groups_are_read_from_the_group_file() {
    let groups = GroupListCommand::parse("root:x:0:\nwheel:x:10:alice,bob\nbroken\n");
    assert_eq!(groups.len(), 2);
    assert_eq!(groups[1].name, "wheel");
    assert_eq!(groups[1].gid, "10");
    assert_eq!(groups[1].members, vec!["alice", "bob"]);
    assert!(groups[0].members.is_empty());
    assert!(GroupListCommand::has_member(&groups[1], "bob"));
    assert!(!GroupListCommand::has_member(&groups[0], "bob"));
}

#[test]
fn group_listing_in_original_format_reads_the_file() {
    let args = GroupArgs { action: Some(GroupAction::List { format: OutputFormat::Original }) };
    assert_eq!(line(StandardGroup.execute(&args)), "cat /etc/group");
}

#[test]
fn direct_systemctl_calls_report_failures() {
    let s = DirectSystemd;
    let up = s.up("nginx");
    assert_eq!(up.command.as_string(), "systemctl enable --now nginx");
    let failed = CallEnd::Exited { success: false, status: "exit status: 1".to_string() };
    assert_eq!(DirectSystemd::outcome(&up, &failed).err().unwrap().message, "systemctl failed to start service nginx");
    assert!(DirectSystemd::outcome(&up, &CallEnd::Exited { success: true, status: String::new() }).is_ok());
    assert_eq!(DirectSystemd::outcome(&up, &CallEnd::NotStarted).err().unwrap().message, "Failed to start/enable service");
    let list = s.list();
    assert_eq!(
        DirectSystemd::outcome(&list, &failed).err().unwrap().message,
        "systemctl failed with status exit status: 1"
    );
    let status = s.status("nginx");
    assert!(DirectSystemd::outcome(&status, &failed).is_ok());
}

#[test]
fn disk_args_run_is_refused() {
    let sys = DetectedSystem { distro: Distro::Debian };
    let e = DiskArgs { action: None }.run(&sys).err().unwrap();
    assert_eq!(e.message, "DiskArgs::run is no longer used in the unified Domain architecture");
}

#[test]
fn default_settings() {
    let c: Config = Default::default();
    assert_eq!(c.ui.preferred_format, OutputFormat::Table);
    assert!(c.ui.show_command);
    assert_eq!(c.ui.table_style, "modern");
    assert_eq!(c.ui.process_sort, ProcessSort::Cpu);
    assert_eq!(c.ui.refresh_rate_ms, 1000);
    assert_eq!(c.ui.max_rx_throughput, 1024);
    assert!(c.system.sudo_command.is_none());
    assert!(!c.system.dry_run_by_default);
    assert!(c.aliases.is_empty());
}
