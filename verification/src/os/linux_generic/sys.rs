//! The core system: information, power state and time.
use vstd::prelude::*;

use super::common::{
    CompoundCommand, GB, Step, SystemCommand, completing_arg, duration_text, format_duration, is_completing_arg,
    scaled, str_views,
};
use crate::cli::{OutputFormat, SystemAction, SystemArgs, is_structured_format};
use crate::num::{dec, dec_string, f64_value, fixed2, parse_u32, parse_uint};
use crate::os::{AnyCommand, AoError, Completion, ExecutableCommand, SysInfoData, SysTimeData};
use crate::text::{
    chars_of, contains, contains_char, contains_pat, fields, filter_map, has_prefix, join, join_strings,
    lemma_filter_map_step, lines, lines_of, owned, slice_chars, split_char, split_on, split_whitespace,
    starts_with, str_eq, string_of, string_views, trim, trim_ws, views,
};

verus! {

/// The system domain.
pub struct StandardSys;

/// The power states and the `systemctl` verb of each.
pub open spec fn power_verb(state: Seq<char>) -> Option<Seq<char>> {
    if state == "reboot"@ {
        Some("reboot"@)
    } else if state == "shutdown"@ {
        Some("poweroff"@)
    } else if state == "suspend"@ {
        Some("suspend"@)
    } else if state == "hibernate"@ {
        Some("hibernate"@)
    } else {
        None
    }
}

/// What completion offers for `sys` words.
pub open spec fn sys_completion(w: Seq<Seq<char>>) -> int {
    if completing_arg(w, seq!["ao"@, "system"@, "power"@], 1) {
        1
    } else if completing_arg(w, seq!["ao"@, "system"@, "time"@], 1) {
        2
    } else {
        0
    }
}

impl StandardSys {
    /// Maps a parsed `sys` invocation to its command.
    pub fn execute(&self, args: &SystemArgs) -> (r: Result<AnyCommand, AoError>)
        ensures
            match args.action {
                Some(SystemAction::Info { format }) => sys_info_result(format, r),
                Some(SystemAction::Power { state, now, force }) => power_result(state@, now, force, r),
                Some(SystemAction::Time { action, value, format }) => time_result(
                    action@,
                    match value {
                        Some(v) => Some(v@),
                        None => None,
                    },
                    format,
                    r,
                ),
                None => sys_info_result(OutputFormat::Table, r),
            },
    {
        match &args.action {
            Some(SystemAction::Info { format }) => self.info(*format),
            Some(SystemAction::Power { state, now, force }) => self.power(state.as_str(), *now, *force),
            Some(SystemAction::Time { action, value, format }) => match value {
                Some(v) => self.time(action.as_str(), Some(v.as_str()), *format),
                None => self.time(action.as_str(), None, *format),
            },
            None => self.info(OutputFormat::Table),
        }
    }

    /// What to offer while completing `words`: the power states for `power`,
    /// the time actions for `time`.
    pub fn complete(&self, words: &[&str]) -> (r: Completion)
        ensures
            sys_completion(str_views(words@)) == 1 ==> (r matches Completion::Words(v) && string_views(v@) == seq![
                "reboot"@,
                "shutdown"@,
                "suspend"@,
                "hibernate"@,
            ]),
            sys_completion(str_views(words@)) == 2 ==> (r matches Completion::Words(v) && string_views(v@) == seq![
                "status"@,
                "set"@,
                "sync"@,
            ]),
            sys_completion(str_views(words@)) == 0 ==> r is Nothing,
    {
        let power = vec!["ao", "system", "power"];
        let time = vec!["ao", "system", "time"];
        assert(str_views(power@) =~= seq!["ao"@, "system"@, "power"@]);
        assert(str_views(time@) =~= seq!["ao"@, "system"@, "time"@]);
        if is_completing_arg(words, power.as_slice(), 1, false) {
            let v = vec![owned("reboot"), owned("shutdown"), owned("suspend"), owned("hibernate")];
            assert(string_views(v@) =~= seq!["reboot"@, "shutdown"@, "suspend"@, "hibernate"@]);
            return Completion::Words(v);
        }
        if is_completing_arg(words, time.as_slice(), 1, false) {
            let v = vec![owned("status"), owned("set"), owned("sync")];
            assert(string_views(v@) =~= seq!["status"@, "set"@, "sync"@]);
            return Completion::Words(v);
        }
        Completion::Nothing
    }

    /// System information: the library's report, or for the original
    /// output `uname -a`, `uptime` and the OS release file.
    pub fn info(&self, format: OutputFormat) -> (r: Result<AnyCommand, AoError>)
        ensures
            sys_info_result(format, r),
    {
        if matches!(format, OutputFormat::Original) {
            let steps = vec![
                Step::Run(SystemCommand::new("uname").arg("-a")),
                Step::Run(SystemCommand::new("uptime")),
                Step::Run(SystemCommand::new("cat").arg("/etc/os-release")),
            ];
            return Ok(AnyCommand::Compound(CompoundCommand::new(steps)));
        }
        Ok(AnyCommand::SysInfo(SysInfoCommand { format }))
    }

    /// A power-state change; an error for a state it does not know.
    pub fn power(&self, state: &str, now: bool, force: bool) -> (r: Result<AnyCommand, AoError>)
        ensures
            power_result(state@, now, force, r),
    {
        let verb = if str_eq(state, "reboot") {
            "reboot"
        } else if str_eq(state, "shutdown") {
            "poweroff"
        } else if str_eq(state, "suspend") {
            "suspend"
        } else if str_eq(state, "hibernate") {
            "hibernate"
        } else {
            let mut m = owned("Unsupported power state: ");
            m.append(state);
            return Err(AoError::new(m));
        };
        let mut cmd = SystemCommand::new("systemctl").arg(verb);
        if now {
            cmd = cmd.arg("--now");
        }
        if force {
            cmd = cmd.arg("--force");
        }
        Ok(AnyCommand::System(cmd))
    }

    /// Time: the status report, setting the time zone, or turning on
    /// network time; errors for a missing zone or an unknown action.
    pub fn time(&self, action: &str, value: Option<&str>, format: OutputFormat) -> (r: Result<AnyCommand, AoError>)
        ensures
            time_result(
                action@,
                match value {
                    Some(v) => Some(v@),
                    None => None,
                },
                format,
                r,
            ),
    {
        if str_eq(action, "status") {
            if matches!(format, OutputFormat::Original) {
                return Ok(AnyCommand::System(SystemCommand::new("timedatectl").arg("status")));
            }
            return Ok(AnyCommand::SysTime(SysTimeCommand { format }));
        }
        if str_eq(action, "set") {
            match value {
                Some(v) => Ok(AnyCommand::System(SystemCommand::new("timedatectl").arg("set-timezone").arg("--").arg(v))),
                None => Err(AoError::new(owned("Timezone value required for set action"))),
            }
        } else if str_eq(action, "sync") {
            Ok(AnyCommand::System(SystemCommand::new("timedatectl").arg("set-ntp").arg("true")))
        } else {
            let mut m = owned("Unsupported time action: ");
            m.append(action);
            Err(AoError::new(m))
        }
    }
}

/// The command for system information.
pub open spec fn sys_info_result(format: OutputFormat, r: Result<AnyCommand, AoError>) -> bool {
    if format == OutputFormat::Original {
        r matches Ok(AnyCommand::Compound(c)) && c.commands@.len() == 3
            && (c.commands@[0] matches Step::Run(s) && s.runs("uname"@, seq!["-a"@]))
            && (c.commands@[1] matches Step::Run(s) && s.runs("uptime"@, seq![]))
            && (c.commands@[2] matches Step::Run(s) && s.runs("cat"@, seq!["/etc/os-release"@]))
    } else {
        r == Ok::<AnyCommand, AoError>(AnyCommand::SysInfo(SysInfoCommand { format }))
    }
}

/// The command for a power-state change.
pub open spec fn power_result(state: Seq<char>, now: bool, force: bool, r: Result<AnyCommand, AoError>) -> bool {
    match power_verb(state) {
        Some(v) => r matches Ok(AnyCommand::System(c)) && c.runs(
            "systemctl"@,
            seq![v] + (if now { seq!["--now"@] } else { seq![] }) + (if force { seq!["--force"@] } else { seq![] }),
        ),
        None => r matches Err(e) && e.message@ == "Unsupported power state: "@ + state,
    }
}

/// The command for a time action.
pub open spec fn time_result(
    action: Seq<char>,
    value: Option<Seq<char>>,
    format: OutputFormat,
    r: Result<AnyCommand, AoError>,
) -> bool {
    if action == "status"@ {
        if format == OutputFormat::Original {
            r matches Ok(AnyCommand::System(c)) && c.runs("timedatectl"@, seq!["status"@])
        } else {
            r == Ok::<AnyCommand, AoError>(AnyCommand::SysTime(SysTimeCommand { format }))
        }
    } else if action == "set"@ {
        match value {
            Some(v) => r matches Ok(AnyCommand::System(c)) && c.runs("timedatectl"@, seq!["set-timezone"@, "--"@, v]),
            None => r matches Err(e) && e.message@ == "Timezone value required for set action"@,
        }
    } else if action == "sync"@ {
        r matches Ok(AnyCommand::System(c)) && c.runs("timedatectl"@, seq!["set-ntp"@, "true"@])
    } else {
        r matches Err(e) && e.message@ == "Unsupported time action: "@ + action
    }
}

// ---------------------------------------------------------------------------
// System information
// ---------------------------------------------------------------------------

/// Reports host, OS, kernel, processors, memory, drives, adapters, monitors
/// and user counts.
pub struct SysInfoCommand {
    pub format: OutputFormat,
}

/// A network interface as `/sys/class/net` shows it.
pub struct NetEntry {
    pub name: String,
    /// Whether it is backed by a device (not a virtual interface).
    pub has_device: bool,
    /// Whether it is a wireless interface.
    pub wireless: bool,
}

/// What the report is made of, as read from the system.
pub struct SysFacts {
    pub hostname: String,
    pub os: String,
    pub kernel: String,
    pub architecture: String,
    pub uptime_secs: u64,
    pub cpu_count: usize,
    /// The brand of the first processor.
    pub cpu_brand: Option<String>,
    pub total_memory: u64,
    pub used_memory: u64,
    /// The output of `lsblk -d -n -o TYPE`, when it ran.
    pub lsblk_types: Option<String>,
    pub net: Vec<NetEntry>,
    /// The output of `hciconfig`, when it ran.
    pub hciconfig: Option<String>,
    /// The output of `bluetoothctl list`, when it ran.
    pub bluetoothctl: Option<String>,
    /// The output of `xrandr --query` or `wlr-randr`, when one ran.
    pub randr: Option<String>,
    /// The contents of `/etc/passwd`, when it could be read.
    pub passwd: Option<String>,
}

/// The number of lines that read `disk` once trimmed.
pub open spec fn disk_count(out: Seq<char>) -> nat {
    filter_map(lines(out), |l: Seq<char>| if trim(l) == "disk"@ { Some(l) } else { None }).len()
}

/// The names of the interfaces with a device, but the loopback, that are
/// (or are not) wireless.
pub open spec fn adapter_names(net: Seq<NetEntry>, wireless: bool) -> Seq<Seq<char>> {
    filter_map(
        net,
        |e: NetEntry| if e.name@ != "lo"@ && e.has_device && e.wireless == wireless { Some(e.name@) } else { None },
    )
}

/// Bluetooth adapters in `hciconfig`'s output: the text before the first
/// `:` of each line that has `hci` and a `:`, trimmed.
pub open spec fn hci_adapters(out: Seq<char>) -> Seq<Seq<char>> {
    filter_map(
        lines(out),
        |l: Seq<char>| if contains(l, "hci"@) && l.contains(':') { Some(trim(split_on(l, ':')[0])) } else { None },
    )
}

/// Bluetooth adapters in `bluetoothctl list`'s output: the second field of
/// each line that has one.
pub open spec fn ctl_adapters(out: Seq<char>) -> Seq<Seq<char>> {
    filter_map(lines(out), |l: Seq<char>| if fields(l).len() > 1 { Some(fields(l)[1]) } else { None })
}

/// Monitors in `xrandr`'s output: the first field of each line that has
/// ` connected`.
pub open spec fn monitor_names(out: Seq<char>) -> Seq<Seq<char>> {
    filter_map(
        lines(out),
        |l: Seq<char>| if contains(l, " connected"@) && fields(l).len() > 0 { Some(fields(l)[0]) } else { None },
    )
}

/// The user ids in `/etc/passwd` that are numbers.
pub open spec fn passwd_uids(out: Seq<char>) -> Seq<nat> {
    filter_map(
        lines(out),
        |l: Seq<char>| if split_on(l, ':').len() >= 3 { parse_uint(split_on(l, ':')[2], u32::MAX as nat) } else { None },
    )
}

pub open spec fn count_below(s: Seq<nat>, bound: nat) -> nat {
    filter_map(s, |u: nat| if u < bound { Some(u) } else { None }).len()
}

pub open spec fn opt_lines<T>(o: Option<String>, f: spec_fn(Seq<char>) -> Seq<T>) -> Seq<T> {
    match o {
        Some(s) => f(s@),
        None => seq![],
    }
}

/// The Bluetooth adapters: from `hciconfig`, or when it names none, from
/// `bluetoothctl`.
pub open spec fn bt_names(hci: Option<String>, ctl: Option<String>) -> Seq<Seq<char>> {
    let a = opt_lines(hci, |s: Seq<char>| hci_adapters(s));
    if a.len() > 0 {
        a
    } else {
        opt_lines(ctl, |s: Seq<char>| ctl_adapters(s))
    }
}

/// `n` bytes in gigabytes with two decimals.
pub open spec fn gb_text(n: u64) -> Seq<char> {
    fixed2(f64_value(n as nat), GB as nat) + " GB"@
}

impl SysInfoCommand {
    /// The number of disks in `lsblk -d -n -o TYPE`'s output.
    pub fn count_disks(out: &str) -> (r: usize)
        ensures
            r == disk_count(out@),
    {
        let ls = lines_of(out);
        let disk = chars_of("disk");
        let ghost f = |l: Seq<char>| if trim(l) == "disk"@ { Some(l) } else { None };
        let mut n: usize = 0;
        let mut i: usize = 0;
        while i < ls.len()
            invariant
                0 <= i <= ls.len(),
                views(ls@) == lines(out@),
                disk@ == "disk"@,
                f == (|l: Seq<char>| if trim(l) == "disk"@ { Some(l) } else { None }),
                n == filter_map(views(ls@).take(i as int), f).len(),
                n <= i,
            decreases ls.len() - i,
        {
            proof {
                lemma_filter_map_step(views(ls@), f, i as int);
            }
            let t = trim_ws(&ls[i]);
            if crate::sort::text_eq(&t, &disk) {
                n += 1;
            }
            i += 1;
        }
        assert(views(ls@).take(ls.len() as int) =~= views(ls@));
        n
    }

    /// The names of the LAN (`wireless` false) or Wi-Fi adapters.
    pub fn adapters(net: &Vec<NetEntry>, wireless: bool) -> (r: Vec<String>)
        ensures
            string_views(r@) == adapter_names(net@, wireless),
    {
        let ghost f = |e: NetEntry| if e.name@ != "lo"@ && e.has_device && e.wireless == wireless { Some(e.name@) } else { None };
        let mut out: Vec<String> = Vec::new();
        let mut i: usize = 0;
        while i < net.len()
            invariant
                0 <= i <= net.len(),
                f == (|e: NetEntry| if e.name@ != "lo"@ && e.has_device && e.wireless == wireless { Some(e.name@) } else { None }),
                string_views(out@) == filter_map(net@.take(i as int), f),
            decreases net.len() - i,
        {
            proof {
                lemma_filter_map_step(net@, f, i as int);
            }
            let e = &net[i];
            if !str_eq(e.name.as_str(), "lo") && e.has_device && e.wireless == wireless {
                out.push(e.name.clone());
                assert(string_views(out@) =~= filter_map(net@.take(i as int), f).push(e.name@));
            }
            i += 1;
        }
        assert(net@.take(net.len() as int) =~= net@);
        out
    }

    /// The Bluetooth adapters that `hciconfig` names.
    pub fn hci_names(out: &str) -> (r: Vec<String>)
        ensures
            string_views(r@) == hci_adapters(out@),
    {
        let ls = lines_of(out);
        let hci = chars_of("hci");
        let ghost f = |l: Seq<char>| if contains(l, "hci"@) && l.contains(':') { Some(trim(split_on(l, ':')[0])) } else { None };
        let mut res: Vec<String> = Vec::new();
        let mut i: usize = 0;
        while i < ls.len()
            invariant
                0 <= i <= ls.len(),
                views(ls@) == lines(out@),
                hci@ == "hci"@,
                f == (|l: Seq<char>| if contains(l, "hci"@) && l.contains(':') { Some(trim(split_on(l, ':')[0])) } else { None }),
                string_views(res@) == filter_map(views(ls@).take(i as int), f),
            decreases ls.len() - i,
        {
            proof {
                lemma_filter_map_step(views(ls@), f, i as int);
            }
            if contains_pat(&ls[i], &hci) && contains_char(&ls[i], ':') {
                let parts = split_char(&ls[i], ':');
                proof {
                    crate::text::lemma_split_count(ls@[i as int]@, ':');
                }
                let t = trim_ws(&parts[0]);
                res.push(string_of(&t));
                assert(string_views(res@) =~= filter_map(views(ls@).take(i as int), f).push(t@));
            }
            i += 1;
        }
        assert(views(ls@).take(ls.len() as int) =~= views(ls@));
        res
    }

    /// The Bluetooth adapters that `bluetoothctl list` names.
    pub fn ctl_names(out: &str) -> (r: Vec<String>)
        ensures
            string_views(r@) == ctl_adapters(out@),
    {
        let ls = lines_of(out);
        let ghost f = |l: Seq<char>| if fields(l).len() > 1 { Some(fields(l)[1]) } else { None };
        let mut res: Vec<String> = Vec::new();
        let mut i: usize = 0;
        while i < ls.len()
            invariant
                0 <= i <= ls.len(),
                views(ls@) == lines(out@),
                f == (|l: Seq<char>| if fields(l).len() > 1 { Some(fields(l)[1]) } else { None }),
                string_views(res@) == filter_map(views(ls@).take(i as int), f),
            decreases ls.len() - i,
        {
            proof {
                lemma_filter_map_step(views(ls@), f, i as int);
            }
            let fs = split_whitespace(&ls[i]);
            if fs.len() > 1 {
                res.push(string_of(&fs[1]));
                assert(string_views(res@) =~= filter_map(views(ls@).take(i as int), f).push(fs@[1]@));
            }
            i += 1;
        }
        assert(views(ls@).take(ls.len() as int) =~= views(ls@));
        res
    }

    /// The connected monitors in `xrandr`'s output.
    pub fn monitors(out: &str) -> (r: Vec<String>)
        ensures
            string_views(r@) == monitor_names(out@),
    {
        let ls = lines_of(out);
        let pat = chars_of(" connected");
        let ghost f = |l: Seq<char>| if contains(l, " connected"@) && fields(l).len() > 0 { Some(fields(l)[0]) } else { None };
        let mut res: Vec<String> = Vec::new();
        let mut i: usize = 0;
        while i < ls.len()
            invariant
                0 <= i <= ls.len(),
                views(ls@) == lines(out@),
                pat@ == " connected"@,
                f == (|l: Seq<char>| if contains(l, " connected"@) && fields(l).len() > 0 { Some(fields(l)[0]) } else { None }),
                string_views(res@) == filter_map(views(ls@).take(i as int), f),
            decreases ls.len() - i,
        {
            proof {
                lemma_filter_map_step(views(ls@), f, i as int);
            }
            if contains_pat(&ls[i], &pat) {
                let fs = split_whitespace(&ls[i]);
                if fs.len() > 0 {
                    res.push(string_of(&fs[0]));
                    assert(string_views(res@) =~= filter_map(views(ls@).take(i as int), f).push(fs@[0]@));
                }
            }
            i += 1;
        }
        assert(views(ls@).take(ls.len() as int) =~= views(ls@));
        res
    }

    /// The numbers of system users (ids below 1000) and of common users in
    /// `/etc/passwd`.
    pub fn count_users(out: &str) -> (r: (usize, usize))
        ensures
            r.0 == count_below(passwd_uids(out@), 1000),
            r.0 + r.1 == passwd_uids(out@).len(),
    {
        let ls = lines_of(out);
        let ghost f = |l: Seq<char>| if split_on(l, ':').len() >= 3 { parse_uint(split_on(l, ':')[2], u32::MAX as nat) } else { None };
        let ghost g = |u: nat| if u < 1000 { Some(u) } else { None };
        let mut sys: usize = 0;
        let mut common: usize = 0;
        let mut i: usize = 0;
        while i < ls.len()
            invariant
                0 <= i <= ls.len(),
                views(ls@) == lines(out@),
                f == (|l: Seq<char>| if split_on(l, ':').len() >= 3 { parse_uint(split_on(l, ':')[2], u32::MAX as nat) } else { None }),
                g == (|u: nat| if u < 1000 { Some(u) } else { None }),
                sys == filter_map(filter_map(views(ls@).take(i as int), f), g).len(),
                sys + common == filter_map(views(ls@).take(i as int), f).len(),
                sys + common <= i,
            decreases ls.len() - i,
        {
            proof {
                lemma_filter_map_step(views(ls@), f, i as int);
            }
            let parts = split_char(&ls[i], ':');
            if parts.len() >= 3 {
                match parse_u32(&parts[2]) {
                    Some(uid) => {
                        proof {
                            let prev = filter_map(views(ls@).take(i as int), f);
                            assert(prev.push(uid as nat).drop_last() =~= prev);
                        }
                        if uid < 1000 {
                            sys += 1;
                        } else {
                            common += 1;
                        }
                    },
                    None => {},
                }
            }
            i += 1;
        }
        assert(views(ls@).take(ls.len() as int) =~= views(ls@));
        (sys, common)
    }

    /// The report made of the facts read from the system.
    pub fn build(facts: &SysFacts) -> (r: SysInfoData)
        ensures
            r.hostname@ == facts.hostname@,
            r.os@ == facts.os@,
            r.kernel@ == facts.kernel@,
            r.architecture@ == facts.architecture@,
            r.uptime@ == duration_text(facts.uptime_secs as nat),
            r.cpu_count == facts.cpu_count,
            r.cpu_model@ == (match facts.cpu_brand {
                Some(b) => b@,
                None => "Unknown"@,
            }),
            r.total_memory == facts.total_memory,
            r.used_memory == facts.used_memory,
            r.total_memory_readable@ == gb_text(facts.total_memory),
            r.used_memory_readable@ == gb_text(facts.used_memory),
            r.ram_type@ == "Unknown"@,
            r.ram_model@ == "Unknown"@,
            r.ram_config@ == "Unknown"@,
            r.ram_speed@ == "Unknown"@,
            r.physical_drives == (match facts.lsblk_types {
                Some(o) => disk_count(o@),
                None => 0,
            }),
            string_views(r.lan_adapters@) == adapter_names(facts.net@, false),
            string_views(r.wifi_adapters@) == adapter_names(facts.net@, true),
            string_views(r.bt_adapters@) == bt_names(facts.hciconfig, facts.bluetoothctl),
            string_views(r.monitors@) == opt_lines(facts.randr, |s: Seq<char>| monitor_names(s)),
            r.system_users_count == (match facts.passwd {
                Some(p) => count_below(passwd_uids(p@), 1000),
                None => 0,
            }),
            r.system_users_count + r.common_users_count == (match facts.passwd {
                Some(p) => passwd_uids(p@).len(),
                None => 0,
            }),
    {
        let physical_drives = match &facts.lsblk_types {
            Some(o) => Self::count_disks(o.as_str()),
            None => 0,
        };
        let mut bt = match &facts.hciconfig {
            Some(o) => Self::hci_names(o.as_str()),
            None => Vec::new(),
        };
        assert(string_views(bt@) =~= opt_lines(facts.hciconfig, |s: Seq<char>| hci_adapters(s)));
        if bt.len() == 0 {
            bt = match &facts.bluetoothctl {
                Some(o) => Self::ctl_names(o.as_str()),
                None => Vec::new(),
            };
            assert(string_views(bt@) =~= opt_lines(facts.bluetoothctl, |s: Seq<char>| ctl_adapters(s)));
        }
        let monitors = match &facts.randr {
            Some(o) => Self::monitors(o.as_str()),
            None => Vec::new(),
        };
        assert(string_views(monitors@) =~= opt_lines(facts.randr, |s: Seq<char>| monitor_names(s)));
        let (system_users_count, common_users_count) = match &facts.passwd {
            Some(p) => Self::count_users(p.as_str()),
            None => (0, 0),
        };
        SysInfoData {
            hostname: facts.hostname.clone(),
            os: facts.os.clone(),
            kernel: facts.kernel.clone(),
            architecture: facts.architecture.clone(),
            uptime: format_duration(facts.uptime_secs),
            cpu_count: facts.cpu_count,
            cpu_model: match &facts.cpu_brand {
                Some(b) => b.clone(),
                None => owned("Unknown"),
            },
            total_memory: facts.total_memory,
            used_memory: facts.used_memory,
            total_memory_readable: scaled(facts.total_memory, GB, " GB"),
            used_memory_readable: scaled(facts.used_memory, GB, " GB"),
            ram_type: owned("Unknown"),
            ram_model: owned("Unknown"),
            ram_config: owned("Unknown"),
            ram_speed: owned("Unknown"),
            physical_drives,
            lan_adapters: Self::adapters(&facts.net, false),
            wifi_adapters: Self::adapters(&facts.net, true),
            bt_adapters: bt,
            monitors,
            system_users_count,
            common_users_count,
        }
    }
}

impl SysInfoData {
    /// The rows of the report's table, as shown: each property with its
    /// value.
    pub open spec fn rows(&self) -> Seq<(Seq<char>, Seq<char>)> {
        seq![
            ("Hostname"@, self.hostname@),
            ("OS"@, self.os@),
            ("Kernel"@, self.kernel@),
            ("Architecture"@, self.architecture@),
            ("Uptime"@, self.uptime@),
            ("CPU Model"@, self.cpu_model@),
            ("CPU Count"@, dec(self.cpu_count as nat)),
            ("Total Memory"@, self.total_memory_readable@),
            ("Used Memory"@, self.used_memory_readable@),
            ("RAM Type"@, self.ram_type@),
            ("RAM Model"@, self.ram_model@),
            ("Physical Drives"@, dec(self.physical_drives as nat)),
            ("LAN Adapters"@, join(string_views(self.lan_adapters@), ", "@)),
            ("WiFi Adapters"@, join(string_views(self.wifi_adapters@), ", "@)),
            ("BT Adapters"@, join(string_views(self.bt_adapters@), ", "@)),
            ("Monitors"@, join(string_views(self.monitors@), ", "@)),
            ("System Users"@, dec(self.system_users_count as nat)),
            ("Common Users"@, dec(self.common_users_count as nat)),
        ]
    }

    /// The table rows of the report.
    pub fn table_rows(&self) -> (r: Vec<(String, String)>)
        ensures
            r@.map_values(|p: (String, String)| (p.0@, p.1@)) == self.rows(),
    {
        let v = vec![
            (owned("Hostname"), self.hostname.clone()),
            (owned("OS"), self.os.clone()),
            (owned("Kernel"), self.kernel.clone()),
            (owned("Architecture"), self.architecture.clone()),
            (owned("Uptime"), self.uptime.clone()),
            (owned("CPU Model"), self.cpu_model.clone()),
            (owned("CPU Count"), dec_string(self.cpu_count as u64)),
            (owned("Total Memory"), self.total_memory_readable.clone()),
            (owned("Used Memory"), self.used_memory_readable.clone()),
            (owned("RAM Type"), self.ram_type.clone()),
            (owned("RAM Model"), self.ram_model.clone()),
            (owned("Physical Drives"), dec_string(self.physical_drives as u64)),
            (owned("LAN Adapters"), join_strings(&self.lan_adapters, ", ")),
            (owned("WiFi Adapters"), join_strings(&self.wifi_adapters, ", ")),
            (owned("BT Adapters"), join_strings(&self.bt_adapters, ", ")),
            (owned("Monitors"), join_strings(&self.monitors, ", ")),
            (owned("System Users"), dec_string(self.system_users_count as u64)),
            (owned("Common Users"), dec_string(self.common_users_count as u64)),
        ];
        assert(v@.map_values(|p: (String, String)| (p.0@, p.1@)) =~= self.rows());
        v
    }
}

impl ExecutableCommand for SysInfoCommand {
    open spec fn text(&self) -> Seq<char> {
        "sysinfo (Rust library)"@
    }

    open spec fn structured(&self) -> bool {
        is_structured_format(self.format)
    }

    fn as_string(&self) -> (r: String) {
        owned("sysinfo (Rust library)")
    }

    fn is_structured(&self) -> (r: bool) {
        self.format.structured()
    }
}

// ---------------------------------------------------------------------------
// Time
// ---------------------------------------------------------------------------

/// Reports the clock, time zone and synchronisation.
pub struct SysTimeCommand {
    pub format: OutputFormat,
}

/// The keys of `timedatectl`'s report, in the order of the record's fields.
pub open spec fn time_keys() -> Seq<Seq<char>> {
    seq![
        "Local time:"@,
        "Universal time:"@,
        "RTC time:"@,
        "Time zone:"@,
        "System clock synchronized:"@,
        "NTP service:"@,
        "RTC in local TZ:"@,
    ]
}

/// The first key that a trimmed line starts with.
pub open spec fn key_index(line: Seq<char>, from: int) -> Option<int>
    decreases 7 - from,
{
    if from < 0 || from >= 7 {
        None
    } else if starts_with(line, time_keys()[from]) {
        Some(from)
    } else {
        key_index(line, from + 1)
    }
}

/// The values after processing `ls`: each field holds the trimmed text
/// after its key on the last line that starts with it (lines are matched
/// against the keys in order).
pub open spec fn time_values(ls: Seq<Seq<char>>) -> Seq<Seq<char>>
    decreases ls.len(),
{
    if ls.len() == 0 {
        seq![seq![], seq![], seq![], seq![], seq![], seq![], seq![]]
    } else {
        let prev = time_values(ls.drop_last());
        let line = trim(ls.last());
        match key_index(line, 0) {
            Some(k) => prev.update(k, trim(line.skip(time_keys()[k].len() as int))),
            None => prev,
        }
    }
}

impl SysTimeData {
    pub open spec fn values(&self) -> Seq<Seq<char>> {
        seq![
            self.local_time@,
            self.universal_time@,
            self.rtc_time@,
            self.time_zone@,
            self.system_clock_synchronized@,
            self.ntp_service@,
            self.rtc_in_local_tz@,
        ]
    }

    /// The rows of the table: each property with its value.
    pub open spec fn rows(&self) -> Seq<(Seq<char>, Seq<char>)> {
        seq![
            ("Local Time"@, self.local_time@),
            ("Universal Time"@, self.universal_time@),
            ("RTC Time"@, self.rtc_time@),
            ("Time Zone"@, self.time_zone@),
            ("Clock Synced"@, self.system_clock_synchronized@),
            ("NTP Service"@, self.ntp_service@),
            ("RTC in Local TZ"@, self.rtc_in_local_tz@),
        ]
    }

    /// The table rows.
    pub fn table_rows(&self) -> (r: Vec<(String, String)>)
        ensures
            r@.map_values(|p: (String, String)| (p.0@, p.1@)) == self.rows(),
    {
        let v = vec![
            (owned("Local Time"), self.local_time.clone()),
            (owned("Universal Time"), self.universal_time.clone()),
            (owned("RTC Time"), self.rtc_time.clone()),
            (owned("Time Zone"), self.time_zone.clone()),
            (owned("Clock Synced"), self.system_clock_synchronized.clone()),
            (owned("NTP Service"), self.ntp_service.clone()),
            (owned("RTC in Local TZ"), self.rtc_in_local_tz.clone()),
        ];
        assert(v@.map_values(|p: (String, String)| (p.0@, p.1@)) =~= self.rows());
        v
    }
}

/// The keys as character vectors.
fn time_key_chars() -> (r: Vec<Vec<char>>)
    ensures
        views(r@) == time_keys(),
{
    let v = vec![
        chars_of("Local time:"),
        chars_of("Universal time:"),
        chars_of("RTC time:"),
        chars_of("Time zone:"),
        chars_of("System clock synchronized:"),
        chars_of("NTP service:"),
        chars_of("RTC in local TZ:"),
    ];
    assert(views(v@) =~= time_keys());
    v
}

impl SysTimeCommand {
    /// The command whose output is parsed.
    pub fn query(&self) -> (r: SystemCommand)
        ensures
            r.runs("timedatectl"@, seq![]),
    {
        SystemCommand::new("timedatectl")
    }

    /// The clock settings that `timedatectl`'s report gives.
    pub fn parse(stdout: &str) -> (r: SysTimeData)
        ensures
            r.values() == time_values(lines(stdout@)),
    {
        let ls = lines_of(stdout);
        let keys = time_key_chars();
        assert(keys@.len() == views(keys@).len());
        let mut vals: Vec<Vec<char>> = vec![Vec::new(), Vec::new(), Vec::new(), Vec::new(), Vec::new(), Vec::new(), Vec::new()];
        assert(views(vals@) =~= time_values(views(ls@).take(0)));
        let mut i: usize = 0;
        while i < ls.len()
            invariant
                0 <= i <= ls.len(),
                views(ls@) == lines(stdout@),
                views(keys@) == time_keys(),
                keys@.len() == 7,
                vals@.len() == 7,
                views(vals@) == time_values(views(ls@).take(i as int)),
            decreases ls.len() - i,
        {
            let ghost prev = views(ls@).take(i as int);
            assert(views(ls@).take(i + 1).drop_last() =~= prev);
            let line = trim_ws(&ls[i]);
            let mut k: usize = 0;
            while k < 7 && !has_prefix(&line, &keys[k])
                invariant
                    0 <= k <= 7,
                    keys@.len() == 7,
                    key_index(line@, 0) == key_index(line@, k as int),
                    views(keys@) == time_keys(),
                decreases 7 - k,
            {
                assert(keys@[k as int]@ == time_keys()[k as int]);
                k += 1;
            }
            if k < 7 {
                assert(keys@[k as int]@ == time_keys()[k as int]);
                let rest = slice_chars(&line, keys[k].len(), line.len());
                let v = trim_ws(&rest);
                let ghost old_vals = views(vals@);
                vals.set(k, v);
                assert(line@.skip(time_keys()[k as int].len() as int) =~= rest@);
                assert(views(vals@) =~= old_vals.update(k as int, v@));
            }
            i += 1;
        }
        assert(views(ls@).take(ls.len() as int) =~= views(ls@));
        let r = SysTimeData {
            local_time: string_of(&vals[0]),
            universal_time: string_of(&vals[1]),
            rtc_time: string_of(&vals[2]),
            time_zone: string_of(&vals[3]),
            system_clock_synchronized: string_of(&vals[4]),
            ntp_service: string_of(&vals[5]),
            rtc_in_local_tz: string_of(&vals[6]),
        };
        assert(r.values() =~= views(vals@));
        r
    }
}

impl ExecutableCommand for SysTimeCommand {
    open spec fn text(&self) -> Seq<char> {
        "timedatectl status"@
    }

    open spec fn structured(&self) -> bool {
        is_structured_format(self.format)
    }

    fn as_string(&self) -> (r: String) {
        owned("timedatectl status")
    }

    fn is_structured(&self) -> (r: bool) {
        self.format.structured()
    }
}

} // verus!
