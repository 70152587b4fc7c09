//! Networking: interfaces, addresses, routes, firewall and Wi-Fi.
use vstd::prelude::*;

use super::common::SystemCommand;
use crate::cli::{FirewallAction, NetworkAction, NetworkArgs, OutputFormat, WifiAction, format_name, is_structured_format};
use crate::os::{AnyCommand, AoError, ExecutableCommand, FwRuleInfo, NetInterfaceInfo, NetIpInfo, NetRouteInfo};
use crate::text::{
    contains, contains_pat, fields, filter_map, has_prefix, lemma_filter_map_step, lines, lines_of, owned,
    slice_chars, split_char, split_on, split_whitespace, starts_with, string_of, string_views, trim, trim_ws, views,
    chars_of, contains_char, join,
};

verus! {

/// The network domain.
pub struct StandardNet;

/// The path at which `ufw` is looked for.
pub fn ufw_path() -> (r: &'static str)
    ensures
        r@ == "/usr/sbin/ufw"@,
{
    "/usr/sbin/ufw"
}

/// The firewall rule command: `ufw` where it is installed, else
/// `firewall-cmd` with a permanent rich rule.
pub open spec fn fw_rule_runs(c: SystemCommand, has_ufw: bool, verb: Seq<char>, rule: Seq<char>) -> bool {
    if has_ufw {
        c.runs("ufw"@, seq![verb, rule])
    } else {
        c.runs("firewall-cmd"@, seq!["--add-rich-rule"@, rule, "--permanent"@])
    }
}

impl StandardNet {
    /// Maps a parsed `network` invocation to its command, given whether a
    /// file exists at `ufw_path()`.
    pub fn execute(&self, args: &NetworkArgs, has_ufw: bool) -> (r: Result<AnyCommand, AoError>)
        ensures
            r matches Ok(c) && match args.action {
                None => c == AnyCommand::NetInterfaces(NetInterfacesCommand { format: OutputFormat::Table }),
                Some(NetworkAction::Interfaces { format }) => c == AnyCommand::NetInterfaces(NetInterfacesCommand { format }),
                Some(NetworkAction::Ips { format }) => c == AnyCommand::NetIps(NetIpsCommand { format }),
                Some(NetworkAction::Routes { format }) => c == AnyCommand::NetRoutes(NetRoutesCommand { format }),
                Some(NetworkAction::Firewall { action }) => match action {
                    FirewallAction::Status { format } => c == AnyCommand::FwStatus(FwStatusCommand { format }),
                    FirewallAction::Allow { rule } => c matches AnyCommand::System(s)
                        && fw_rule_runs(s, has_ufw, "allow"@, rule@),
                    FirewallAction::Deny { rule } => c matches AnyCommand::System(s)
                        && fw_rule_runs(s, has_ufw, "deny"@, rule@),
                },
                Some(NetworkAction::Wifi { action }) => match action {
                    WifiAction::Scan => c matches AnyCommand::System(s) && s.runs("nmcli"@, seq!["dev"@, "wifi"@, "list"@]),
                    WifiAction::Connect { ssid } => c matches AnyCommand::System(s)
                        && s.runs("nmcli"@, seq!["dev"@, "wifi"@, "connect"@, ssid@]),
                },
            },
    {
        match &args.action {
            None => Ok(AnyCommand::NetInterfaces(NetInterfacesCommand { format: OutputFormat::Table })),
            Some(NetworkAction::Interfaces { format }) => Ok(AnyCommand::NetInterfaces(NetInterfacesCommand { format: *format })),
            Some(NetworkAction::Ips { format }) => Ok(AnyCommand::NetIps(NetIpsCommand { format: *format })),
            Some(NetworkAction::Routes { format }) => Ok(AnyCommand::NetRoutes(NetRoutesCommand { format: *format })),
            Some(NetworkAction::Firewall { action }) => match action {
                FirewallAction::Status { format } => Ok(AnyCommand::FwStatus(FwStatusCommand { format: *format })),
                FirewallAction::Allow { rule } => self.fw_allow(rule.as_str(), has_ufw),
                FirewallAction::Deny { rule } => self.fw_deny(rule.as_str(), has_ufw),
            },
            Some(NetworkAction::Wifi { action }) => match action {
                WifiAction::Scan => self.wifi_scan(),
                WifiAction::Connect { ssid } => self.wifi_connect(ssid.as_str()),
            },
        }
    }

    /// A firewall rule command, given whether `ufw` is installed.
    pub fn fw_rule(has_ufw: bool, verb: &str, rule: &str) -> (r: SystemCommand)
        ensures
            fw_rule_runs(r, has_ufw, verb@, rule@),
    {
        if has_ufw {
            SystemCommand::new("ufw").arg(verb).arg(rule)
        } else {
            SystemCommand::new("firewall-cmd").arg("--add-rich-rule").arg(rule).arg("--permanent")
        }
    }

    /// Allows traffic that matches `rule`, given whether a file exists at
    /// `ufw_path()`.
    pub fn fw_allow(&self, rule: &str, has_ufw: bool) -> (r: Result<AnyCommand, AoError>)
        ensures
            r matches Ok(AnyCommand::System(s)) && fw_rule_runs(s, has_ufw, "allow"@, rule@),
    {
        Ok(AnyCommand::System(Self::fw_rule(has_ufw, "allow", rule)))
    }

    /// Denies traffic that matches `rule`, given whether a file exists at
    /// `ufw_path()`.
    pub fn fw_deny(&self, rule: &str, has_ufw: bool) -> (r: Result<AnyCommand, AoError>)
        ensures
            r matches Ok(AnyCommand::System(s)) && fw_rule_runs(s, has_ufw, "deny"@, rule@),
    {
        Ok(AnyCommand::System(Self::fw_rule(has_ufw, "deny", rule)))
    }

    pub fn wifi_scan(&self) -> (r: Result<AnyCommand, AoError>)
        ensures
            r matches Ok(AnyCommand::System(s)) && s.runs("nmcli"@, seq!["dev"@, "wifi"@, "list"@]),
    {
        Ok(AnyCommand::System(SystemCommand::new("nmcli").arg("dev").arg("wifi").arg("list")))
    }

    pub fn wifi_connect(&self, ssid: &str) -> (r: Result<AnyCommand, AoError>)
        ensures
            r matches Ok(AnyCommand::System(s)) && s.runs("nmcli"@, seq!["dev"@, "wifi"@, "connect"@, ssid@]),
    {
        Ok(AnyCommand::System(SystemCommand::new("nmcli").arg("dev").arg("wifi").arg("connect").arg(ssid)))
    }
}

/// `name` then ` --format ` and the format's name.
fn with_format(name: &str, format: OutputFormat) -> (r: String)
    ensures
        r@ == name@ + " --format "@ + format_name(format),
{
    let mut s = owned(name);
    s.append(" --format ");
    s.append(format.debug_name());
    s
}

/// An interface as `ip --json addr` reports it.
pub struct RawInterface {
    pub ifname: String,
    pub operstate: String,
    pub mtu: u32,
    pub address: Option<String>,
}

/// An interface's addresses as `ip --json addr` reports them.
pub struct RawAddrEntry {
    pub ifname: String,
    pub addr_info: Vec<RawAddrInfo>,
}

pub struct RawAddrInfo {
    pub family: String,
    pub local: String,
}

/// A route as `ip --json route` reports it.
pub struct RawRoute {
    pub dst: String,
    pub gateway: Option<String>,
    pub dev: String,
}

/// Lists the network interfaces.
pub struct NetInterfacesCommand {
    pub format: OutputFormat,
}

/// Lists the addresses of the interfaces.
pub struct NetIpsCommand {
    pub format: OutputFormat,
}

/// Lists the routes.
pub struct NetRoutesCommand {
    pub format: OutputFormat,
}

/// Shows the firewall's state and rules.
pub struct FwStatusCommand {
    pub format: OutputFormat,
}

impl NetInterfaceInfo {
    /// Name, state, MTU, MAC address and kind.
    pub open spec fn record(&self) -> (Seq<char>, Seq<char>, u32, Seq<char>, Seq<char>) {
        (self.name@, self.state@, self.mtu, self.mac@, self.interface_type@)
    }
}

impl NetInterfacesCommand {
    /// The command run for the original output.
    pub fn original(&self) -> (r: SystemCommand)
        ensures
            r.runs("ip"@, seq!["addr"@]),
    {
        SystemCommand::new("ip").arg("addr")
    }

    /// The command whose output is parsed.
    pub fn query(&self) -> (r: SystemCommand)
        ensures
            r.runs("ip"@, seq!["--json"@, "addr"@]),
    {
        SystemCommand::new("ip").arg("--json").arg("addr")
    }

    /// The interfaces of the report: name, state, MTU and address (empty
    /// when there is none); `ip` gives no kind, which stays empty.
    pub fn interfaces(raw: &Vec<RawInterface>) -> (r: Vec<NetInterfaceInfo>)
        ensures
            r@.len() == raw@.len(),
            forall|i: int|
                0 <= i < r@.len() ==> (#[trigger] r@[i]).record() == (
                    raw@[i].ifname@,
                    raw@[i].operstate@,
                    raw@[i].mtu,
                    match raw@[i].address {
                        Some(a) => a@,
                        None => seq![],
                    },
                    Seq::<char>::empty(),
                ) && r@[i].ips@.len() == 0,
    {
        let mut out: Vec<NetInterfaceInfo> = Vec::new();
        let mut i: usize = 0;
        while i < raw.len()
            invariant
                0 <= i <= raw.len(),
                out@.len() == i,
                forall|j: int|
                    0 <= j < i ==> (#[trigger] out@[j]).record() == (
                        raw@[j].ifname@,
                        raw@[j].operstate@,
                        raw@[j].mtu,
                        match raw@[j].address {
                            Some(a) => a@,
                            None => seq![],
                        },
                        Seq::<char>::empty(),
                    ) && out@[j].ips@.len() == 0,
            decreases raw.len() - i,
        {
            let r = &raw[i];
            let mac = match &r.address {
                Some(a) => a.clone(),
                None => String::new(),
            };
            out.push(
                NetInterfaceInfo {
                    name: r.ifname.clone(),
                    state: r.operstate.clone(),
                    mtu: r.mtu,
                    mac,
                    interface_type: String::new(),
                    ips: Vec::new(),
                },
            );
            i += 1;
        }
        out
    }
}

impl ExecutableCommand for NetInterfacesCommand {
    open spec fn text(&self) -> Seq<char> {
        "ip addr"@ + " --format "@ + format_name(self.format)
    }

    open spec fn structured(&self) -> bool {
        is_structured_format(self.format)
    }

    fn as_string(&self) -> (r: String) {
        with_format("ip addr", self.format)
    }

    fn is_structured(&self) -> (r: bool) {
        self.format.structured()
    }
}

impl NetIpInfo {
    /// Interface, family and address.
    pub open spec fn record(&self) -> (Seq<char>, Seq<char>, Seq<char>) {
        (self.interface@, self.family@, self.address@)
    }
}

/// The addresses of the report, interface by interface, in order.
pub open spec fn ip_records(raw: Seq<RawAddrEntry>) -> Seq<(Seq<char>, Seq<char>, Seq<char>)>
    decreases raw.len(),
{
    if raw.len() == 0 {
        seq![]
    } else {
        let e = raw.last();
        ip_records(raw.drop_last()) + e.addr_info@.map_values(
            |a: RawAddrInfo| (e.ifname@, a.family@, a.local@),
        )
    }
}

impl NetIpsCommand {
    /// The command run for the original output.
    pub fn original(&self) -> (r: SystemCommand)
        ensures
            r.runs("ip"@, seq!["addr"@]),
    {
        SystemCommand::new("ip").arg("addr")
    }

    /// The command whose output is parsed.
    pub fn query(&self) -> (r: SystemCommand)
        ensures
            r.runs("ip"@, seq!["--json"@, "addr"@]),
    {
        SystemCommand::new("ip").arg("--json").arg("addr")
    }

    /// Every address of every interface, each with its interface's name.
    pub fn ips(raw: &Vec<RawAddrEntry>) -> (r: Vec<NetIpInfo>)
        ensures
            r@.map_values(|x: NetIpInfo| x.record()) == ip_records(raw@),
    {
        let mut out: Vec<NetIpInfo> = Vec::new();
        let mut i: usize = 0;
        while i < raw.len()
            invariant
                0 <= i <= raw.len(),
                out@.map_values(|x: NetIpInfo| x.record()) == ip_records(raw@.take(i as int)),
            decreases raw.len() - i,
        {
            let e = &raw[i];
            let ghost before = out@.map_values(|x: NetIpInfo| x.record());
            let mut k: usize = 0;
            while k < e.addr_info.len()
                invariant
                    0 <= k <= e.addr_info.len(),
                    out@.len() == before.len() + k,
                    forall|j: int| 0 <= j < before.len() ==> (#[trigger] out@[j]).record() == before[j],
                    forall|j: int|
                        0 <= j < k ==> (#[trigger] out@[before.len() + j]).record() == (
                            e.ifname@,
                            e.addr_info@[j].family@,
                            e.addr_info@[j].local@,
                        ),
                decreases e.addr_info.len() - k,
            {
                let a = &e.addr_info[k];
                out.push(NetIpInfo { interface: e.ifname.clone(), family: a.family.clone(), address: a.local.clone() });
                assert(out@[before.len() + k as int].record() == (e.ifname@, e.addr_info@[k as int].family@, e.addr_info@[k as int].local@));
                k += 1;
            }
            let ghost added = e.addr_info@.map_values(|a: RawAddrInfo| (e.ifname@, a.family@, a.local@));
            let ghost now = out@.map_values(|x: NetIpInfo| x.record());
            assert forall|j: int| 0 <= j < out@.len() implies #[trigger] now[j] == (before + added)[j] by {
                if j >= before.len() {
                    let jj = j - before.len();
                    assert(out@[before.len() + jj].record() == added[jj]);
                }
            }
            assert(now =~= before + added);
            assert(raw@.take(i + 1).drop_last() =~= raw@.take(i as int));
            i += 1;
        }
        assert(raw@.take(raw.len() as int) =~= raw@);
        out
    }
}

impl ExecutableCommand for NetIpsCommand {
    open spec fn text(&self) -> Seq<char> {
        "ip addr"@ + " --format "@ + format_name(self.format)
    }

    open spec fn structured(&self) -> bool {
        is_structured_format(self.format)
    }

    fn as_string(&self) -> (r: String) {
        with_format("ip addr", self.format)
    }

    fn is_structured(&self) -> (r: bool) {
        self.format.structured()
    }
}

impl NetRouteInfo {
    /// Destination, gateway and interface.
    pub open spec fn record(&self) -> (Seq<char>, Option<Seq<char>>, Seq<char>) {
        (
            self.destination@,
            match self.gateway {
                Some(g) => Some(g@),
                None => None,
            },
            self.interface@,
        )
    }
}

impl NetRoutesCommand {
    /// The command run for the original output.
    pub fn original(&self) -> (r: SystemCommand)
        ensures
            r.runs("ip"@, seq!["route"@]),
    {
        SystemCommand::new("ip").arg("route")
    }

    /// The command whose output is parsed.
    pub fn query(&self) -> (r: SystemCommand)
        ensures
            r.runs("ip"@, seq!["--json"@, "route"@]),
    {
        SystemCommand::new("ip").arg("--json").arg("route")
    }

    /// The routes of the report.
    pub fn routes(raw: &Vec<RawRoute>) -> (r: Vec<NetRouteInfo>)
        ensures
            r@.len() == raw@.len(),
            forall|i: int|
                0 <= i < r@.len() ==> (#[trigger] r@[i]).record() == (
                    raw@[i].dst@,
                    match raw@[i].gateway {
                        Some(g) => Some(g@),
                        None => None,
                    },
                    raw@[i].dev@,
                ),
    {
        let mut out: Vec<NetRouteInfo> = Vec::new();
        let mut i: usize = 0;
        while i < raw.len()
            invariant
                0 <= i <= raw.len(),
                out@.len() == i,
                forall|j: int|
                    0 <= j < i ==> (#[trigger] out@[j]).record() == (
                        raw@[j].dst@,
                        match raw@[j].gateway {
                            Some(g) => Some(g@),
                            None => None,
                        },
                        raw@[j].dev@,
                    ),
            decreases raw.len() - i,
        {
            let r = &raw[i];
            out.push(NetRouteInfo { destination: r.dst.clone(), gateway: r.gateway.clone(), interface: r.dev.clone() });
            i += 1;
        }
        out
    }
}

impl ExecutableCommand for NetRoutesCommand {
    open spec fn text(&self) -> Seq<char> {
        "ip route"@ + " --format "@ + format_name(self.format)
    }

    open spec fn structured(&self) -> bool {
        is_structured_format(self.format)
    }

    fn as_string(&self) -> (r: String) {
        with_format("ip route", self.format)
    }

    fn is_structured(&self) -> (r: bool) {
        self.format.structured()
    }
}

impl FwRuleInfo {
    /// To, action and from.
    pub open spec fn record(&self) -> (Seq<char>, Seq<char>, Seq<char>) {
        (self.to@, self.action@, self.from@)
    }
}

pub open spec fn fw_records(s: Seq<FwRuleInfo>) -> Seq<(Seq<char>, Seq<char>, Seq<char>)> {
    s.map_values(|r: FwRuleInfo| r.record())
}

/// The state of reading `ufw status` after the lines `ls`: the rules so
/// far, the status, and whether the rule table has begun.
pub open spec fn ufw_state(ls: Seq<Seq<char>>) -> (Seq<(Seq<char>, Seq<char>, Seq<char>)>, Seq<char>, bool)
    decreases ls.len(),
{
    if ls.len() == 0 {
        (seq![], "unknown"@, false)
    } else {
        let (rules, status, in_table) = ufw_state(ls.drop_last());
        let line = ls.last();
        if starts_with(line, "Status: "@) {
            (rules, line.skip(8), in_table)
        } else if contains(line, "--"@) && contains(line, "Action"@) {
            (rules, status, true)
        } else if in_table && trim(line).len() > 0 && fields(line).len() >= 3 {
            (rules.push((fields(line)[0], fields(line)[1], fields(line)[2])), status, in_table)
        } else {
            (rules, status, in_table)
        }
    }
}

/// The rules that `firewall-cmd --list-all` lists: every service and port
/// on a line naming services or ports, allowed from anywhere.
pub open spec fn firewalld_rules(ls: Seq<Seq<char>>) -> Seq<(Seq<char>, Seq<char>, Seq<char>)>
    decreases ls.len(),
{
    if ls.len() == 0 {
        seq![]
    } else {
        let line = ls.last();
        let prev = firewalld_rules(ls.drop_last());
        if (contains(line, "services:"@) || contains(line, "ports:"@)) && split_on(line, ':').len() > 1 {
            prev + fields(split_on(line, ':')[1]).map_values(|item: Seq<char>| (item, "allow"@, "any"@))
        } else {
            prev
        }
    }
}

impl FwStatusCommand {
    /// The command run for the original output, given whether a file
    /// exists at `ufw_path()`.
    pub fn original(has_ufw: bool) -> (r: SystemCommand)
        ensures
            has_ufw ==> r.runs("ufw"@, seq!["status"@]),
            !has_ufw ==> r.runs("firewall-cmd"@, seq!["--list-all"@]),
    {
        if has_ufw {
            SystemCommand::new("ufw").arg("status")
        } else {
            SystemCommand::new("firewall-cmd").arg("--list-all")
        }
    }

    /// The command whose output is parsed, given whether `ufw` is
    /// installed: the same as for the original output.
    pub fn query(has_ufw: bool) -> (r: SystemCommand)
        ensures
            has_ufw ==> r.runs("ufw"@, seq!["status"@]),
            !has_ufw ==> r.runs("firewall-cmd"@, seq!["--list-all"@]),
    {
        Self::original(has_ufw)
    }

    /// The rules and status in `ufw status`'s output.
    pub fn parse_ufw(&self, stdout: &str) -> (r: (Vec<FwRuleInfo>, String))
        ensures
            (fw_records(r.0@), r.1@, ufw_state(lines(stdout@)).2) == ufw_state(lines(stdout@)),
    {
        let ls = lines_of(stdout);
        let status_key = chars_of("Status: ");
        let dashes = chars_of("--");
        let action = chars_of("Action");
        let mut rules: Vec<FwRuleInfo> = Vec::new();
        let mut status = chars_of("unknown");
        let mut parsing = false;
        let mut i: usize = 0;
        proof {
            reveal_strlit("Status: ");
        }
        while i < ls.len()
            invariant
                0 <= i <= ls.len(),
                views(ls@) == lines(stdout@),
                status_key@ == "Status: "@,
                status_key@.len() == 8,
                dashes@ == "--"@,
                action@ == "Action"@,
                (fw_records(rules@), status@, parsing) == ufw_state(views(ls@).take(i as int)),
            decreases ls.len() - i,
        {
            let ghost prev = views(ls@).take(i as int);
            assert(views(ls@).take(i + 1).drop_last() =~= prev);
            let line = &ls[i];
            if has_prefix(line, &status_key) {
                status = slice_chars(line, 8, line.len());
                assert(status@ =~= line@.skip(8));
            } else if contains_pat(line, &dashes) && contains_pat(line, &action) {
                parsing = true;
            } else if parsing && trim_ws(line).len() > 0 {
                let fs = split_whitespace(line);
                if fs.len() >= 3 {
                    let rule = FwRuleInfo { to: string_of(&fs[0]), action: string_of(&fs[1]), from: string_of(&fs[2]) };
                    let ghost rec = rule.record();
                    rules.push(rule);
                    assert(fw_records(rules@) =~= ufw_state(prev).0.push(rec));
                }
            }
            i += 1;
        }
        assert(views(ls@).take(ls.len() as int) =~= views(ls@));
        (rules, string_of(&status))
    }

    /// The rules in `firewall-cmd --list-all`'s output; the status is
    /// `active`.
    pub fn parse_firewalld(&self, stdout: &str) -> (r: (Vec<FwRuleInfo>, String))
        ensures
            fw_records(r.0@) == firewalld_rules(lines(stdout@)),
            r.1@ == "active"@,
    {
        let ls = lines_of(stdout);
        let services = chars_of("services:");
        let ports = chars_of("ports:");
        let mut rules: Vec<FwRuleInfo> = Vec::new();
        let mut i: usize = 0;
        while i < ls.len()
            invariant
                0 <= i <= ls.len(),
                views(ls@) == lines(stdout@),
                services@ == "services:"@,
                ports@ == "ports:"@,
                fw_records(rules@) == firewalld_rules(views(ls@).take(i as int)),
            decreases ls.len() - i,
        {
            let ghost prev = views(ls@).take(i as int);
            assert(views(ls@).take(i + 1).drop_last() =~= prev);
            let line = &ls[i];
            if contains_pat(line, &services) || contains_pat(line, &ports) {
                let parts = split_char(line, ':');
                if parts.len() > 1 {
                    let items = split_whitespace(&parts[1]);
                    let ghost before = fw_records(rules@);
                    let mut k: usize = 0;
                    while k < items.len()
                        invariant
                            0 <= k <= items.len(),
                            rules@.len() == before.len() + k,
                            forall|j: int| 0 <= j < before.len() ==> (#[trigger] rules@[j]).record() == before[j],
                            forall|j: int|
                                0 <= j < k ==> (#[trigger] rules@[before.len() + j]).record() == (
                                    items@[j]@,
                                    "allow"@,
                                    "any"@,
                                ),
                        decreases items.len() - k,
                    {
                        let rule = FwRuleInfo { to: string_of(&items[k]), action: owned("allow"), from: owned("any") };
                        rules.push(rule);
                        assert(rules@[before.len() + k as int].record() == (items@[k as int]@, "allow"@, "any"@));
                        k += 1;
                    }
                    let ghost added = views(items@).map_values(|item: Seq<char>| (item, "allow"@, "any"@));
                    assert forall|j: int| 0 <= j < rules@.len() implies #[trigger] fw_records(rules@)[j] == (before + added)[j] by {
                        if j >= before.len() {
                            let jj = j - before.len();
                            assert(rules@[before.len() + jj].record() == added[jj]);
                        }
                    }
                    assert(fw_records(rules@) =~= before + added);
                }
            }
            i += 1;
        }
        assert(views(ls@).take(ls.len() as int) =~= views(ls@));
        (rules, owned("active"))
    }
}

impl ExecutableCommand for FwStatusCommand {
    open spec fn text(&self) -> Seq<char> {
        "firewall status"@ + " --format "@ + format_name(self.format)
    }

    open spec fn structured(&self) -> bool {
        is_structured_format(self.format)
    }

    fn as_string(&self) -> (r: String) {
        with_format("firewall status", self.format)
    }

    fn is_structured(&self) -> (r: bool) {
        self.format.structured()
    }
}

} // verus!
