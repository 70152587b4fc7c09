use ao_cli::cli::{
    DistributionAction, DistributionArgs, FirewallAction, LogAction, LogArgs, NetworkAction, NetworkArgs,
};
use ao_cli::os::linux_generic::distro::{dnf_path, release_upgrade_path, StandardDistro};
use ao_cli::os::linux_generic::log::{history_paths, StandardLog};
use ao_cli::os::linux_generic::net::{ufw_path, FwStatusCommand, StandardNet};
use ao_cli::os::{AnyCommand, AoError, ExecutableCommand};

fn line(r: Result<AnyCommand, AoError>) -> String {
    match r {
        Ok(c) => c.as_string(),
        Err(e) => format!("error: {}", e.message),
    }
}

#[test]
fn the_looked_for_paths() {
    assert_eq!(ufw_path(), "/usr/sbin/ufw");
    assert_eq!(release_upgrade_path(), "/usr/bin/do-release-upgrade");
    assert_eq!(dnf_path(), "/usr/bin/dnf");
    assert_eq!(
        history_paths(),
        vec![
            "/var/log/dpkg.log",
            "/var/log/apt/history.log",
            "/var/log/dnf.log",
            "/var/log/pacman.log",
            "/var/log/zypp/history",
            "/var/log/emerge.log",
        ]
    );
}

fn fw(action: FirewallAction, has_ufw: bool) -> String {
    line(StandardNet.execute(&NetworkArgs { action: Some(NetworkAction::Firewall { action }) }, has_ufw))
}

#[test]
fn firewall_rules_go_to_ufw_where_it_is_installed() {
    assert_eq!(fw(FirewallAction::Allow { rule: "22/tcp".to_string() }, true), "ufw allow 22/tcp");
    assert_eq!(fw(FirewallAction::Deny { rule: "23".to_string() }, true), "ufw deny 23");
    assert_eq!(
        fw(FirewallAction::Allow { rule: "22/tcp".to_string() }, false),
        "firewall-cmd --add-rich-rule 22/tcp --permanent"
    );
    assert_eq!(fw(FirewallAction::Deny { rule: "23".to_string() }, false), "firewall-cmd --add-rich-rule 23 --permanent");
    assert_eq!(FwStatusCommand::original(true).as_string(), "ufw status");
    assert_eq!(FwStatusCommand::original(false).as_string(), "firewall-cmd --list-all");
}

fn upgrade(a: bool, b: bool) -> String {
    line(StandardDistro.execute(&DistributionArgs { action: Some(DistributionAction::Upgrade) }, a, b))
}

#[test]
fn the_upgrade_takes_the_first_installed_tool() {
    assert_eq!(upgrade(true, true), "do-release-upgrade ");
    assert_eq!(upgrade(true, false), "do-release-upgrade ");
    assert_eq!(upgrade(false, true), "dnf system-upgrade reboot");
    assert_eq!(upgrade(false, false), "error: Distribution upgrade tool not found");
}

fn pkg_log(present: Vec<bool>) -> String {
    line(StandardLog.execute(&LogArgs { action: Some(LogAction::Package { lines: 20 }) }, &present))
}

#[test]
fn package_history_shows_the_files_that_exist() {
    assert_eq!(pkg_log(vec![false; 6]), "journalctl -t apt -t dpkg -t dnf -n 20 --");
    assert_eq!(
        pkg_log(vec![false, true, false, false, false, true]),
        "echo --- APT History --- && tail -n 20 -- /var/log/apt/history.log && echo --- Emerge History --- && tail -n 20 -- /var/log/emerge.log"
    );
}
