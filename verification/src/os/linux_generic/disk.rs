//! Block devices.
use vstd::prelude::*;

use super::common::{Emoji, SystemCommand, emoji_text};
use crate::cli::{DiskAction, DiskArgs, OutputFormat, is_structured_format};
use crate::os::{AnyCommand, AoError, DiskInfo, ExecutableCommand};
use crate::os::linux_generic::svc::first_fields;
use crate::sort::{reorder, sort_by_text, stable_order, text_lt};
use crate::text::{to_upper, upper, chars_of, fields, filter_map, lemma_filter_map_step, lines, lines_of, owned, split_whitespace, str_eq, string_of, string_views, trim, trim_ws, views};

verus! {

/// The disk domain.
pub struct StandardDisk;

/// What `serde_json` finds at `smart_status.passed` in a JSON document:
/// the boolean there, or nothing when the text is no JSON or holds no
/// boolean at that place.
pub uninterp spec fn smart_passed(out: Seq<char>) -> Option<bool>;

/// Reads `smart_status.passed` from `smartctl -j -H`'s output with
/// `serde_json`; the result is `smart_passed` of the text.
#[verifier::external_body]
fn smart_passed_of(out: &str) -> (r: Option<bool>)
    ensures
        r == smart_passed(out@),
{
    let v: serde_json::Value = serde_json::from_str(out).ok()?;
    v.get("smart_status")?.get("passed")?.as_bool()
}

/// The last field of each line that has one, trimmed.
pub open spec fn last_fields(out: Seq<char>) -> Seq<Seq<char>> {
    filter_map(lines(out), |l: Seq<char>| if fields(l).len() > 0 { Some(trim(fields(l).last())) } else { None })
}

/// The last whitespace-separated field of each line of `stdout`.
pub fn last_words(stdout: &str) -> (r: Vec<String>)
    ensures
        string_views(r@) == last_fields(stdout@),
{
    let ls = lines_of(stdout);
    let ghost f = |l: Seq<char>| if fields(l).len() > 0 { Some(trim(fields(l).last())) } else { None };
    let mut out: Vec<String> = Vec::new();
    let mut i: usize = 0;
    while i < ls.len()
        invariant
            0 <= i <= ls.len(),
            views(ls@) == lines(stdout@),
            f == (|l: Seq<char>| if fields(l).len() > 0 { Some(trim(fields(l).last())) } else { None }),
            string_views(out@) == filter_map(views(ls@).take(i as int), f),
        decreases ls.len() - i,
    {
        proof {
            lemma_filter_map_step(views(ls@), f, i as int);
        }
        let fs = split_whitespace(&ls[i]);
        if fs.len() > 0 {
            let t = trim_ws(&fs[fs.len() - 1]);
            out.push(string_of(&t));
            assert(string_views(out@) =~= filter_map(views(ls@).take(i as int), f).push(t@));
        }
        i += 1;
    }
    assert(views(ls@).take(ls.len() as int) =~= views(ls@));
    out
}

impl StandardDisk {
    /// Maps a parsed `disk` invocation to its command.
    pub fn execute(&self, args: &DiskArgs) -> (r: Result<AnyCommand, AoError>)
        ensures
            match args.action {
                Some(DiskAction::List { format, loop_devices }) => disk_ls_result(format, loop_devices, r),
                None => disk_ls_result(OutputFormat::Table, false, r),
            },
    {
        match &args.action {
            Some(DiskAction::List { format, loop_devices }) => self.ls(*format, *loop_devices),
            None => self.ls(OutputFormat::Table, false),
        }
    }

    /// The listing of disks; the original output is `lsblk -d`.
    pub fn ls(&self, format: OutputFormat, show_loop: bool) -> (r: Result<AnyCommand, AoError>)
        ensures
            disk_ls_result(format, show_loop, r),
    {
        if matches!(format, OutputFormat::Original) {
            return Ok(AnyCommand::System(SystemCommand::new("lsblk").arg("-d")));
        }
        Ok(AnyCommand::DiskList(DiskListCommand { format, show_loop }))
    }

    /// The query that lists the disks' names and paths.
    pub fn devices_query() -> (r: SystemCommand)
        ensures
            r.runs("lsblk"@, seq!["-d"@, "-n"@, "-o"@, "NAME,PATH"@]),
    {
        SystemCommand::new("lsblk").arg("-d").arg("-n").arg("-o").arg("NAME,PATH")
    }

    /// The device paths: the last field of each line.
    pub fn get_devices(stdout: &str) -> (r: Vec<String>)
        ensures
            string_views(r@) == last_fields(stdout@),
    {
        last_words(stdout)
    }
}

pub open spec fn disk_ls_result(format: OutputFormat, show_loop: bool, r: Result<AnyCommand, AoError>) -> bool {
    if format == OutputFormat::Original {
        r matches Ok(AnyCommand::System(c)) && c.runs("lsblk"@, seq!["-d"@])
    } else {
        r == Ok::<AnyCommand, AoError>(AnyCommand::DiskList(DiskListCommand { format, show_loop }))
    }
}

/// Lists the disks (and loop devices when asked), by name.
pub struct DiskListCommand {
    pub format: OutputFormat,
    pub show_loop: bool,
}

/// Whether a device is listed: disks, and loop devices when they are asked
/// for.
pub open spec fn listed(d: DiskInfo, show_loop: bool) -> bool {
    d.device_type@ == "disk"@ || (show_loop && d.device_type@ == "loop"@)
}

/// The devices that are listed, in their order.
pub open spec fn listed_disks(s: Seq<DiskInfo>, show_loop: bool) -> Seq<DiskInfo> {
    filter_map(s, |d: DiskInfo| if listed(d, show_loop) { Some(d) } else { None })
}

pub open spec fn names(s: Seq<DiskInfo>) -> Seq<Seq<char>> {
    s.map_values(|d: DiskInfo| d.name@)
}

/// The symbol of a device's kind: loop devices, NVMe, SATA and USB by their
/// rotation, other transports as disks, and without a transport by rotation.
pub open spec fn kind_symbol(d: DiskInfo) -> Seq<char> {
    if d.device_type@ == "loop"@ {
        emoji_text(Emoji::Loop)
    } else {
        match d.tran {
            Some(t) => if t@ == "nvme"@ {
                emoji_text(Emoji::Nvme)
            } else if t@ == "sata"@ || t@ == "usb"@ {
                if d.rota { emoji_text(Emoji::Hdd) } else { emoji_text(Emoji::Ssd) }
            } else {
                emoji_text(Emoji::Disk)
            },
            None => if d.rota { emoji_text(Emoji::Hdd) } else { emoji_text(Emoji::Ssd) },
        }
    }
}

/// The SMART health as shown: passed, failed, or unknown when `smartctl`
/// did not run or gave no verdict.
pub open spec fn smart_text(passed: Option<bool>) -> Seq<char> {
    match passed {
        Some(true) => "PASSED"@,
        Some(false) => "FAILED"@,
        None => "Unknown"@,
    }
}

impl DiskListCommand {
    /// The command whose output is parsed.
    pub fn query(&self) -> (r: SystemCommand)
        ensures
            r.runs("lsblk"@, seq!["-d"@, "--json"@, "-o"@, "NAME,PATH,SIZE,FSTYPE,TYPE,ROTA,TRAN"@]),
    {
        SystemCommand::new("lsblk").arg("-d").arg("--json").arg("-o").arg("NAME,PATH,SIZE,FSTYPE,TYPE,ROTA,TRAN")
    }

    /// The devices to list, sorted by name (devices with equal names keep
    /// their order).
    pub fn select(&self, disks: Vec<DiskInfo>) -> (r: Vec<DiskInfo>)
        ensures
            exists|p: Seq<int>|
                stable_order(names(listed_disks(disks@, self.show_loop)), p, |a: Seq<char>, b: Seq<char>| text_lt(a, b))
                    && r@ == #[trigger] reorder(listed_disks(disks@, self.show_loop), p),
    {
        let ghost f = |d: DiskInfo| if listed(d, self.show_loop) { Some(d) } else { None };
        let ghost orig = disks@;
        let n = disks.len();
        let mut src = disks;
        let mut kept: Vec<DiskInfo> = Vec::new();
        let mut keys: Vec<Vec<char>> = Vec::new();
        let mut i: usize = 0;
        while i < n
            invariant
                n == orig.len(),
                0 <= i <= n,
                src@ == orig.skip(i as int),
                f == (|d: DiskInfo| if listed(d, self.show_loop) { Some(d) } else { None }),
                kept@ == filter_map(orig.take(i as int), f),
                keys@.len() == kept@.len(),
                forall|j: int| 0 <= j < kept@.len() ==> (#[trigger] keys@[j])@ == kept@[j].name@,
            decreases n - i,
        {
            proof {
                lemma_filter_map_step(orig, f, i as int);
            }
            let d = src.remove(0);
            assert(d == orig[i as int]);
            assert(src@ =~= orig.skip(i + 1));
            let keep = str_eq(d.device_type.as_str(), "disk") || (self.show_loop && str_eq(d.device_type.as_str(), "loop"));
            if keep {
                keys.push(chars_of(d.name.as_str()));
                kept.push(d);
            }
            i += 1;
        }
        assert(orig.take(n as int) =~= orig);
        assert(keys@.map_values(|k: Vec<char>| k@) =~= names(kept@));
        assert(f =~= (|d: DiskInfo| if listed(d, self.show_loop) { Some(d) } else { None }));
        assert(kept@ == listed_disks(orig, self.show_loop));
        let ghost before = kept@;
        let r = sort_by_text(kept, &keys);
        proof {
            let p = choose|p: Seq<int>|
                stable_order(keys@.map_values(|k: Vec<char>| k@), p, |a: Seq<char>, b: Seq<char>| text_lt(a, b))
                    && r@ == reorder(before, p);
            assert(r@ == reorder(listed_disks(orig, self.show_loop), p));
        }
        r
    }

    /// The symbol shown before a device: the physical marker, a space, and
    /// the kind's symbol.
    pub fn symbols(d: &DiskInfo) -> (r: String)
        ensures
            r@ == emoji_text(Emoji::Physical) + " "@ + kind_symbol(*d),
    {
        let kind = if str_eq(d.device_type.as_str(), "loop") {
            Emoji::Loop.get()
        } else {
            match &d.tran {
                Some(t) => if str_eq(t.as_str(), "nvme") {
                    Emoji::Nvme.get()
                } else if str_eq(t.as_str(), "sata") || str_eq(t.as_str(), "usb") {
                    if d.rota {
                        Emoji::Hdd.get()
                    } else {
                        Emoji::Ssd.get()
                    }
                } else {
                    Emoji::Disk.get()
                },
                None => if d.rota {
                    Emoji::Hdd.get()
                } else {
                    Emoji::Ssd.get()
                },
            }
        };
        let mut s = owned(Emoji::Physical.get());
        s.append(" ");
        s.append(kind);
        s
    }

    /// The medium: loop, rotating disk, or solid state.
    pub fn medium(d: &DiskInfo) -> (r: &'static str)
        ensures
            r@ == (if d.device_type@ == "loop"@ {
                "Loop"@
            } else if d.rota {
                "HDD"@
            } else {
                "SSD"@
            }),
    {
        if str_eq(d.device_type.as_str(), "loop") {
            "Loop"
        } else if d.rota {
            "HDD"
        } else {
            "SSD"
        }
    }

    /// The transport in capitals, `UNKNOWN` when there is none.
    pub fn transport(d: &DiskInfo) -> (r: String)
        ensures
            r@ == upper(
                match d.tran {
                    Some(t) => t@,
                    None => "Unknown"@,
                },
            ),
    {
        match &d.tran {
            Some(t) => to_upper(t.as_str()),
            None => to_upper("Unknown"),
        }
    }

    /// The command that reports a device's SMART health.
    pub fn smart_query(path: &str) -> (r: SystemCommand)
        ensures
            r.runs("smartctl"@, seq!["-j"@, "-H"@, path@]),
    {
        SystemCommand::new("smartctl").arg("-j").arg("-H").arg(path)
    }

    /// The SMART health shown for a verdict.
    pub fn smart_status_of(passed: Option<bool>) -> (r: &'static str)
        ensures
            r@ == smart_text(passed),
    {
        match passed {
            Some(true) => "PASSED",
            Some(false) => "FAILED",
            None => "Unknown",
        }
    }

    /// The SMART health shown for the output of the SMART query (`None`
    /// when it did not run).
    pub fn smart_status(out: Option<&str>) -> (r: &'static str)
        ensures
            r@ == smart_text(
                match out {
                    Some(o) => smart_passed(o@),
                    None => None,
                },
            ),
    {
        match out {
            Some(o) => Self::smart_status_of(smart_passed_of(o)),
            None => Self::smart_status_of(None),
        }
    }
}

impl ExecutableCommand for DiskListCommand {
    open spec fn text(&self) -> Seq<char> {
        "lsblk --json"@
    }

    open spec fn structured(&self) -> bool {
        is_structured_format(self.format)
    }

    fn as_string(&self) -> (r: String) {
        owned("lsblk --json")
    }

    fn is_structured(&self) -> (r: bool) {
        self.format.structured()
    }
}

} // verus!
