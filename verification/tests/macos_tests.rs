use ao_cli::cli::{
    CompletionsAction, FirewallAction, NetworkAction, NetworkArgs, OutputFormat, SelfAction, SelfArgs, Shell,
    SystemAction, SystemArgs, UserAction, UserArgs,
};
use ao_cli::os::macos::{
    MacFact, MacFacts, MacOS, MacOSGroup, MacOSLog, MacOSNet, MacOSPackage, MacOSSelf, MacOSService, MacOSSys,
    MacOSUser, MacOSVirt,
};
use ao_cli::os::{AnyCommand, AoError, ExecutableCommand, GroupManager, LogManager, PackageManager, ServiceManager};

fn line(r: Result<AnyCommand, AoError>) -> String {
    match r {
        Ok(c) => c.as_string(),
        Err(e) => format!("error: {}", e.message),
    }
}

#[test]
fn homebrew_lists_json_for_structured_formats() {
    let b = MacOSPackage;
    assert_eq!(b.name(), "homebrew");
    assert_eq!(line(b.ls(OutputFormat::Json)), "brew info --json=v2 --installed");
    assert_eq!(line(b.ls(OutputFormat::Yaml)), "brew info --json=v2 --installed");
    assert_eq!(line(b.ls(OutputFormat::Table)), "brew list --versions");
    assert_eq!(line(b.del(&["jq".to_string()], true)), "brew uninstall jq");
    assert_eq!(MacOSPackage::get_installed_packages("  git \njq\n"), vec!["git", "jq"]);
}

#[test]
fn launchctl_restart_unloads_then_loads() {
    let s = MacOSService;
    assert_eq!(
        line(s.restart("com.example.agent")),
        "launchctl unload -w com.example.agent && launchctl load -w com.example.agent"
    );
    assert_eq!(line(s.reload("x")), line(s.restart("x")));
    assert_eq!(line(s.status("x")), "launchctl list x");
}

#[test]
fn users_and_groups_are_directory_records() {
    let args = UserArgs {
        action: Some(UserAction::Modify {
            username: "ann".to_string(),
            action: "UserShell".to_string(),
            value: "/bin/zsh".to_string(),
        }),
    };
    assert_eq!(line(MacOSUser.execute(&args)), "dscl . -create /Users/ann UserShell /bin/zsh");
    assert_eq!(line(MacOSGroup.mod_group("staff", 20)), "dscl . -create /Groups/staff PrimaryGroupID 20");
    assert_eq!(MacOSUser::get_users("_spotlight\nann\n  bob \n"), vec!["ann", "bob"]);
    assert_eq!(MacOSGroup::get_groups("_www\nstaff\n"), vec!["staff"]);
}

#[test]
fn last_gives_session_records() {
    let s = MacOSUser::get_sessions("ann  ttys000  10.0.0.2  Mon Jan  1 10:00\nshort line\n");
    assert_eq!(s.len(), 1);
    assert_eq!(s[0].username, "ann");
    assert_eq!(s[0].line, "ttys000");
    assert_eq!(s[0].host, "10.0.0.2");
    assert_eq!(s[0].start, "Mon Jan 1 10:00");
    assert_eq!(s[0].end, "");
    assert_eq!(MacOSUser::sessions_query(Some("ann"), Some(5)).as_string(), "last -n 5 ann");
    assert_eq!(MacOSUser::sessions_query(None, None).as_string(), "last ");
}

#[test]
fn ifconfig_gives_interfaces_with_addresses() {
    let out = "lo0: flags=8049<UP,LOOPBACK>\n\tinet 127.0.0.1 netmask 0xff000000\nen0: flags=8863<UP>\n\tether a4:83:e7:00:00:01\n\tinet 192.168.1.5 netmask 0xffffff00\n\tinet 10.0.0.7 netmask 0xff000000\n";
    let ifs = MacOSNet::get_interfaces(out);
    assert_eq!(ifs.len(), 2);
    assert_eq!(ifs[0].name, "lo0");
    assert_eq!(ifs[0].ips, vec!["127.0.0.1"]);
    assert_eq!(ifs[0].mac, "");
    assert_eq!(ifs[1].name, "en0");
    assert_eq!(ifs[1].mac, "a4:83:e7:00:00:01");
    assert_eq!(ifs[1].ips, vec!["192.168.1.5", "10.0.0.7"]);
    assert_eq!(ifs[1].state, "UP");
    assert_eq!(ifs[1].mtu, 1500);
    assert_eq!(ifs[1].interface_type, "Physical");
    assert!(MacOSNet::get_interfaces("\tinet 1.2.3.4\n").is_empty());
}

#[test]
fn firewall_rules_are_refused() {
    let args = NetworkArgs { action: Some(NetworkAction::Firewall { action: FirewallAction::Allow { rule: "22".to_string() } }) };
    assert_eq!(line(MacOSNet.execute(&args)), "error: Use socketfilterfw manually");
    assert_eq!(line(MacOSNet.execute(&NetworkArgs { action: None })), "networksetup -listallnetworkservices");
}

#[test]
fn power_states_and_unknown_ones() {
    let reboot = SystemArgs { action: Some(SystemAction::Power { state: "reboot".to_string(), now: false, force: false }) };
    assert_eq!(line(MacOSSys.execute(&reboot)), "sudo shutdown -r now");
    let nap = SystemArgs { action: Some(SystemAction::Power { state: "nap".to_string(), now: true, force: false }) };
    assert_eq!(line(MacOSSys.execute(&nap)), "error: Unknown power state");
}

#[test]
fn system_facts_make_the_report() {
    let facts = MacFacts {
        hostname: Some("mbp\n".to_string()),
        product_name: Some("macOS\n".to_string()),
        product_version: Some("14.4\n".to_string()),
        os_release: Some("23.4.0\n".to_string()),
        machine: Some("arm64\n".to_string()),
        cpu_count: Some("10\n".to_string()),
        cpu_brand: None,
        mem_size: Some("17179869184\n".to_string()),
    };
    let r = MacOSSys::get_info(&facts);
    assert_eq!(r.hostname, "mbp");
    assert_eq!(r.os, "macOS 14.4");
    assert_eq!(r.cpu_count, 10);
    assert_eq!(r.cpu_model, "Unknown");
    assert_eq!(r.total_memory, 17179869184);
    assert_eq!(r.total_memory_readable, "16.00 GB");
    assert_eq!(r.used_memory_readable, "0 B");
    assert_eq!(r.uptime, "Unknown");
    assert_eq!(MacOSSys::fact_query(MacFact::MemSize).as_string(), "sysctl -n hw.memsize");
}

#[test]
fn docker_json_lines_give_containers() {
    let out = "{\"ID\":\"abc\",\"Image\":\"nginx\",\"Command\":\"nginx -g\",\"CreatedAt\":\"now\",\"Status\":\"Up\",\"Names\":\"web\"}\nnot json\n{\"ID\":\"def\"}\n";
    let cs = MacOSVirt::get_containers(out);
    assert_eq!(cs.len(), 2);
    assert_eq!(cs[0].id, "abc");
    assert_eq!(cs[0].names, "web");
    assert_eq!(cs[1].id, "def");
    assert_eq!(cs[1].image, "");
}

#[test]
fn log_queries_use_predicates() {
    assert_eq!(line(MacOSLog.svc("sshd", 10, false)), "log show --predicate process == \"sshd\"");
    assert_eq!(line(MacOSLog.pkg(10)), "tail -n 50 /var/log/install.log");
}

#[test]
fn self_management_goes_through_homebrew() {
    let _system = MacOS::new();
    let info = SelfArgs { action: Some(SelfAction::Info { format: OutputFormat::Table }) };
    assert_eq!(line(MacOSSelf.execute(&info, "0.3.1")), "echo ao v0.3.1");
    let update = SelfArgs { action: Some(SelfAction::Update) };
    assert_eq!(line(MacOSSelf.execute(&update, "0.3.1")), "error: Use brew upgrade ao-cli");
    let gen = SelfArgs { action: Some(SelfAction::Completions { action: CompletionsAction::Generate { shell: Shell::Zsh } }) };
    assert_eq!(line(MacOSSelf.execute(&gen, "0.3.1")), "error: Use ao self completions setup <shell>");
    let setup = SelfArgs { action: Some(SelfAction::Completions { action: CompletionsAction::Setup { shell: Shell::Bash } }) };
    assert_eq!(line(MacOSSelf.execute(&setup, "0.3.1")), "");
}
