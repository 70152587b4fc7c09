//! Live statistics: processors, memory, network and disks.
use vstd::prelude::*;

use super::common::{Emoji, bytes_text, emoji_text, format_bytes};
use crate::cli::{MonitorArgs, OutputFormat, is_structured_format};
use crate::os::{AnyCommand, AoError, ExecutableCommand, MonitorEntry};
use crate::text::{chars_of, contains, contains_pat, lower, owned, replace_all, replace_pat, split_on_pat, split_pattern, str_eq, string_of, to_lower, views};

verus! {

/// The monitor domain.
pub struct StandardMonitor;

impl StandardMonitor {
    /// Maps a parsed `monitor` invocation to its command.
    pub fn execute(&self, args: &MonitorArgs) -> (r: Result<AnyCommand, AoError>)
        ensures
            r == Ok::<AnyCommand, AoError>(AnyCommand::LiveStats(LiveStatsCommand { format: args.format })),
    {
        self.live_stats(args.format)
    }

    pub fn live_stats(&self, format: OutputFormat) -> (r: Result<AnyCommand, AoError>)
        ensures
            r == Ok::<AnyCommand, AoError>(AnyCommand::LiveStats(LiveStatsCommand { format })),
    {
        Ok(AnyCommand::LiveStats(LiveStatsCommand { format }))
    }
}

/// Reports processor, memory, network and disk figures.
pub struct LiveStatsCommand {
    pub format: OutputFormat,
}

impl MonitorEntry {
    /// Type, subtype, value and description.
    pub open spec fn cells(&self) -> Seq<Seq<char>> {
        seq![self.entry_type@, self.subtype@, self.value@, self.description@]
    }
}

/// Used and total figures, as shown: `used / total`.
pub open spec fn used_total(used: nat, total: nat) -> Seq<char> {
    bytes_text(used) + " / "@ + bytes_text(total)
}

/// The kind of a network interface: wireless, physical, or virtual.
pub open spec fn net_subtype(wireless: bool, device: bool) -> Seq<char> {
    if wireless {
        "Wireless"@
    } else if device {
        "Physical"@
    } else {
        "Virtual"@
    }
}

/// The kind of a disk: removable, virtual (a loop device), or physical.
pub open spec fn disk_subtype(removable: bool, name: Seq<char>) -> Seq<char> {
    if removable {
        "Removable"@
    } else if contains(name, "loop"@) {
        "Virtual"@
    } else {
        "Physical"@
    }
}

/// The symbol of an entry's type.
pub open spec fn type_symbol(t: Seq<char>) -> Seq<char> {
    if t == "CPU"@ || t == "CPU Temp"@ {
        emoji_text(Emoji::Cpu)
    } else if t == "RAM"@ {
        emoji_text(Emoji::Ram)
    } else if t == "Network"@ {
        emoji_text(Emoji::Network)
    } else if t == "Disk"@ {
        emoji_text(Emoji::Disk)
    } else {
        "📊"@
    }
}

/// The symbol of an entry's subtype, whatever its case.
pub open spec fn subtype_symbol(s: Seq<char>) -> Seq<char> {
    let l = lower(s);
    if l == "physical"@ {
        emoji_text(Emoji::Physical)
    } else if l == "wireless"@ {
        emoji_text(Emoji::Wireless)
    } else if l == "virtual"@ {
        emoji_text(Emoji::Virtual)
    } else {
        "📟"@
    }
}

/// The value as the table shows it: used and total marked for memory and
/// disks, received and sent marked for networks.
pub open spec fn shown_value(t: Seq<char>, v: Seq<char>) -> Seq<char> {
    if t == "RAM"@ || t == "Disk"@ {
        let p = split_on_pat(v, " / "@);
        if p.len() == 2 {
            emoji_text(Emoji::Used) + " "@ + p[0] + " / "@ + emoji_text(Emoji::Total) + " "@ + p[1]
        } else {
            v
        }
    } else if t == "Network"@ {
        replace_all(replace_all(v, "RX"@, "📥 RX"@), "TX"@, "📤 TX"@)
    } else {
        v
    }
}

impl LiveStatsCommand {
    /// The memory entry.
    pub fn ram_entry(used: u64, total: u64) -> (r: MonitorEntry)
        ensures
            r.cells() == seq!["RAM"@, "Physical"@, used_total(used as nat, total as nat), "System Memory"@],
    {
        let mut v = format_bytes(used);
        v.append(" / ");
        let t = format_bytes(total);
        v.append(t.as_str());
        MonitorEntry { entry_type: owned("RAM"), subtype: owned("Physical"), value: v, description: owned("System Memory") }
    }

    /// A network interface's entry, with the bytes received and sent.
    pub fn network_entry(name: &str, rx: u64, tx: u64, wireless: bool, device: bool) -> (r: MonitorEntry)
        ensures
            r.cells() == seq![
                "Network"@,
                net_subtype(wireless, device),
                "RX "@ + bytes_text(rx as nat) + ", TX "@ + bytes_text(tx as nat),
                name@,
            ],
    {
        let subtype = if wireless {
            owned("Wireless")
        } else if device {
            owned("Physical")
        } else {
            owned("Virtual")
        };
        let mut v = owned("RX ");
        let a = format_bytes(rx);
        v.append(a.as_str());
        v.append(", TX ");
        let b = format_bytes(tx);
        v.append(b.as_str());
        MonitorEntry { entry_type: owned("Network"), subtype, value: v, description: owned(name) }
    }

    /// A disk's entry: its used and total space, described by its name as
    /// `{:?}` prints it and its file system.
    pub fn disk_entry(name: &str, name_debug: &str, fs: &str, total: u64, available: u64, removable: bool) -> (r: MonitorEntry)
        requires
            available <= total,
        ensures
            r.cells() == seq![
                "Disk"@,
                disk_subtype(removable, name@),
                used_total((total - available) as nat, total as nat),
                name_debug@ + " ("@ + fs@ + ")"@,
            ],
    {
        let n = chars_of(name);
        let lp = chars_of("loop");
        let subtype = if removable {
            owned("Removable")
        } else if contains_pat(&n, &lp) {
            owned("Virtual")
        } else {
            owned("Physical")
        };
        let mut v = format_bytes(total - available);
        v.append(" / ");
        let t = format_bytes(total);
        v.append(t.as_str());
        let mut d = owned(name_debug);
        d.append(" (");
        d.append(fs);
        d.append(")");
        MonitorEntry { entry_type: owned("Disk"), subtype, value: v, description: d }
    }

    /// The symbol of an entry's type.
    pub fn type_symbol(t: &str) -> (r: &'static str)
        ensures
            r@ == type_symbol(t@),
    {
        if str_eq(t, "CPU") || str_eq(t, "CPU Temp") {
            Emoji::Cpu.get()
        } else if str_eq(t, "RAM") {
            Emoji::Ram.get()
        } else if str_eq(t, "Network") {
            Emoji::Network.get()
        } else if str_eq(t, "Disk") {
            Emoji::Disk.get()
        } else {
            "📊"
        }
    }

    /// The symbol of an entry's subtype.
    pub fn subtype_symbol(s: &str) -> (r: &'static str)
        ensures
            r@ == subtype_symbol(s@),
    {
        let l = to_lower(s);
        if str_eq(l.as_str(), "physical") {
            Emoji::Physical.get()
        } else if str_eq(l.as_str(), "wireless") {
            Emoji::Wireless.get()
        } else if str_eq(l.as_str(), "virtual") {
            Emoji::Virtual.get()
        } else {
            "📟"
        }
    }

    /// The value of an entry as the table shows it.
    pub fn shown_value(e: &MonitorEntry) -> (r: String)
        ensures
            r@ == shown_value(e.entry_type@, e.value@),
    {
        let t = e.entry_type.as_str();
        if str_eq(t, "RAM") || str_eq(t, "Disk") {
            let v = chars_of(e.value.as_str());
            let sep = chars_of(" / ");
            proof {
                reveal_strlit(" / ");
            }
            let p = split_pattern(&v, &sep);
            if p.len() == 2 {
                let mut s = owned(Emoji::Used.get());
                s.append(" ");
                s.append(string_of(&p[0]).as_str());
                s.append(" / ");
                s.append(Emoji::Total.get());
                s.append(" ");
                s.append(string_of(&p[1]).as_str());
                s
            } else {
                e.value.clone()
            }
        } else if str_eq(t, "Network") {
            let v = chars_of(e.value.as_str());
            let rx = chars_of("RX");
            let rx2 = chars_of("📥 RX");
            let tx = chars_of("TX");
            let tx2 = chars_of("📤 TX");
            proof {
                reveal_strlit("RX");
                reveal_strlit("TX");
            }
            let a = replace_pat(&v, &rx, &rx2);
            let b = replace_pat(&a, &tx, &tx2);
            string_of(&b)
        } else {
            e.value.clone()
        }
    }

    /// An entry's row in the table: both symbols, type, subtype, shown
    /// value and description.
    pub fn row(e: &MonitorEntry) -> (r: Vec<String>)
        ensures
            r@.map_values(|s: String| s@) == seq![
                type_symbol(e.entry_type@) + " "@ + subtype_symbol(e.subtype@),
                e.entry_type@,
                e.subtype@,
                shown_value(e.entry_type@, e.value@),
                e.description@,
            ],
    {
        let mut sym = owned(Self::type_symbol(e.entry_type.as_str()));
        sym.append(" ");
        sym.append(Self::subtype_symbol(e.subtype.as_str()));
        let v = vec![sym, e.entry_type.clone(), e.subtype.clone(), Self::shown_value(e), e.description.clone()];
        assert(v@.map_values(|s: String| s@) =~= seq![
            type_symbol(e.entry_type@) + " "@ + subtype_symbol(e.subtype@),
            e.entry_type@,
            e.subtype@,
            shown_value(e.entry_type@, e.value@),
            e.description@,
        ]);
        v
    }

    /// An entry as the original output prints it: `type: value
    /// (description)`.
    pub fn original_line(e: &MonitorEntry) -> (r: String)
        ensures
            r@ == e.entry_type@ + ": "@ + e.value@ + " ("@ + e.description@ + ")"@,
    {
        let mut s = e.entry_type.clone();
        s.append(": ");
        s.append(e.value.as_str());
        s.append(" (");
        s.append(e.description.as_str());
        s.append(")");
        s
    }
}

impl ExecutableCommand for LiveStatsCommand {
    open spec fn text(&self) -> Seq<char> {
        "sysinfo (Rust library)"@
    }

    open spec fn structured(&self) -> bool {
        false
    }

    fn as_string(&self) -> (r: String) {
        owned("sysinfo (Rust library)")
    }

    fn is_structured(&self) -> (r: bool) {
        false
    }
}

/// Whether a temperature sensor measures the processor: its label, in
/// lower case, names a `cpu` or a `core`.
pub open spec fn cpu_sensor(label: Seq<char>) -> bool {
    contains(lower(label), "cpu"@) || contains(lower(label), "core"@)
}

/// Whether the sensor with `label` is one of the processor's, whose
/// readings the live statistics list.
pub fn is_cpu_sensor(label: &str) -> (r: bool)
    ensures
        r == cpu_sensor(label@),
{
    let l = chars_of(to_lower(label).as_str());
    contains_pat(&l, &chars_of("cpu")) || contains_pat(&l, &chars_of("core"))
}

} // verus!
