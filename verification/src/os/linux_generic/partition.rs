//! Partitions and mounts.
use vstd::prelude::*;

use super::common::{Emoji, SystemCommand, completing_arg, emoji_text, is_completing_arg, shown_line, str_views};
use super::disk::{last_fields, last_words, names};
use super::user::opt_text;
use crate::cli::{OutputFormat, PartitionAction, PartitionArgs, is_structured_format};
use crate::num::{dec, dec_string};
use crate::os::{AnyCommand, AoError, Completion, DiskInfo, ExecutableCommand};
use crate::sort::{reorder, sort_by_text, stable_order, text_lt};
use crate::text::{chars_of, filter_map, lemma_filter_map_step, lines, lines_of, owned, str_eq, string_of, string_views, trim, trim_ws, views};

verus! {

/// The partition domain.
pub struct StandardPartition;

/// The non-empty lines of an output, trimmed.
pub open spec fn mount_points(out: Seq<char>) -> Seq<Seq<char>> {
    filter_map(lines(out), |l: Seq<char>| if l.len() > 0 { Some(trim(l)) } else { None })
}

impl StandardPartition {
    /// Maps a parsed `partition` invocation to its command.
    pub fn execute(&self, args: &PartitionArgs) -> (r: Result<AnyCommand, AoError>)
        ensures
            r matches Ok(c) && match args.action {
                Some(PartitionAction::List { format }) => part_ls_plan(format, c),
                Some(PartitionAction::Mount { device, path, fstype, options }) => c matches AnyCommand::PartitionMount(m)
                    && m.device@ == device@ && m.path@ == path@ && m.fstype == fstype && m.options == options,
                Some(PartitionAction::Unmount { target, lazy, force }) => c matches AnyCommand::PartitionUnmount(u)
                    && u.target@ == target@ && u.lazy == lazy && u.force == force,
                Some(PartitionAction::Usage { path, depth }) => c matches AnyCommand::PartitionUsage(u) && u.path@ == path@
                    && u.depth == depth && u.ignore_exit_code,
                None => part_ls_plan(OutputFormat::Table, c),
            },
    {
        match &args.action {
            Some(PartitionAction::List { format }) => self.ls(*format),
            Some(PartitionAction::Mount { device, path, fstype, options }) => Ok(
                AnyCommand::PartitionMount(
                    PartitionMountCommand { device: device.clone(), path: path.clone(), fstype: fstype.clone(), options: options.clone() },
                ),
            ),
            Some(PartitionAction::Unmount { target, lazy, force }) => self.unmount(target.as_str(), *lazy, *force),
            Some(PartitionAction::Usage { path, depth }) => self.usage(path.as_str(), *depth),
            None => self.ls(OutputFormat::Table),
        }
    }

    /// What to offer while completing `words`: devices for `mount`, mount
    /// points for `unmount`.
    pub fn complete(&self, words: &[&str]) -> (r: Completion)
        ensures
            completing_arg(str_views(words@), seq!["ao"@, "partition"@, "mount"@], 1) ==> r is Devices,
            !completing_arg(str_views(words@), seq!["ao"@, "partition"@, "mount"@], 1) && completing_arg(
                str_views(words@),
                seq!["ao"@, "partition"@, "unmount"@],
                1,
            ) ==> r is MountPoints,
            !completing_arg(str_views(words@), seq!["ao"@, "partition"@, "mount"@], 1) && !completing_arg(
                str_views(words@),
                seq!["ao"@, "partition"@, "unmount"@],
                1,
            ) ==> r is Nothing,
    {
        let mount = vec!["ao", "partition", "mount"];
        let unmount = vec!["ao", "partition", "unmount"];
        assert(str_views(mount@) =~= seq!["ao"@, "partition"@, "mount"@]);
        assert(str_views(unmount@) =~= seq!["ao"@, "partition"@, "unmount"@]);
        if is_completing_arg(words, mount.as_slice(), 1, false) {
            Completion::Devices
        } else if is_completing_arg(words, unmount.as_slice(), 1, false) {
            Completion::MountPoints
        } else {
            Completion::Nothing
        }
    }

    /// The listing of partitions; the original output is `lsblk`.
    pub fn ls(&self, format: OutputFormat) -> (r: Result<AnyCommand, AoError>)
        ensures
            r matches Ok(c) && part_ls_plan(format, c),
    {
        if matches!(format, OutputFormat::Original) {
            return Ok(AnyCommand::System(SystemCommand::new("lsblk")));
        }
        Ok(AnyCommand::PartitionList(PartitionListCommand { format }))
    }

    pub fn unmount(&self, target: &str, lazy: bool, force: bool) -> (r: Result<AnyCommand, AoError>)
        ensures
            r matches Ok(AnyCommand::PartitionUnmount(u)) && u.target@ == target@ && u.lazy == lazy && u.force == force,
    {
        Ok(AnyCommand::PartitionUnmount(PartitionUnmountCommand { target: owned(target), lazy, force }))
    }

    /// Directory usage, tolerating `du`'s failures on unreadable entries.
    pub fn usage(&self, path: &str, depth: Option<u32>) -> (r: Result<AnyCommand, AoError>)
        ensures
            r matches Ok(AnyCommand::PartitionUsage(u)) && u.path@ == path@ && u.depth == depth && u.ignore_exit_code,
    {
        Ok(AnyCommand::PartitionUsage(PartitionUsageCommand { path: owned(path), depth, ignore_exit_code: false }.ignore_exit_code()))
    }

    /// The query that lists the devices' names and paths.
    pub fn devices_query() -> (r: SystemCommand)
        ensures
            r.runs("lsblk"@, seq!["-n"@, "-o"@, "NAME,PATH"@]),
    {
        SystemCommand::new("lsblk").arg("-n").arg("-o").arg("NAME,PATH")
    }

    /// The device paths: the last field of each line.
    pub fn get_devices(stdout: &str) -> (r: Vec<String>)
        ensures
            string_views(r@) == last_fields(stdout@),
    {
        last_words(stdout)
    }

    /// The query that lists the mount points.
    pub fn mount_points_query() -> (r: SystemCommand)
        ensures
            r.runs("lsblk"@, seq!["-n"@, "-o"@, "MOUNTPOINT"@]),
    {
        SystemCommand::new("lsblk").arg("-n").arg("-o").arg("MOUNTPOINT")
    }

    /// The mount points: the non-empty lines, trimmed.
    pub fn get_mount_points(stdout: &str) -> (r: Vec<String>)
        ensures
            string_views(r@) == mount_points(stdout@),
    {
        let ls = lines_of(stdout);
        let ghost f = |l: Seq<char>| if l.len() > 0 { Some(trim(l)) } else { None };
        let mut out: Vec<String> = Vec::new();
        let mut i: usize = 0;
        while i < ls.len()
            invariant
                0 <= i <= ls.len(),
                views(ls@) == lines(stdout@),
                f == (|l: Seq<char>| if l.len() > 0 { Some(trim(l)) } else { None }),
                string_views(out@) == filter_map(views(ls@).take(i as int), f),
            decreases ls.len() - i,
        {
            proof {
                lemma_filter_map_step(views(ls@), f, i as int);
            }
            if ls[i].len() > 0 {
                let t = trim_ws(&ls[i]);
                out.push(string_of(&t));
                assert(string_views(out@) =~= filter_map(views(ls@).take(i as int), f).push(t@));
            }
            i += 1;
        }
        assert(views(ls@).take(ls.len() as int) =~= views(ls@));
        out
    }
}

pub open spec fn part_ls_plan(format: OutputFormat, c: AnyCommand) -> bool {
    if format == OutputFormat::Original {
        c matches AnyCommand::System(s) && s.runs("lsblk"@, seq![])
    } else {
        c == AnyCommand::PartitionList(PartitionListCommand { format })
    }
}

// ---------------------------------------------------------------------------
// Listing
// ---------------------------------------------------------------------------

/// Lists partitions and other mountable devices, by name.
pub struct PartitionListCommand {
    pub format: OutputFormat,
}

/// A device of the tree without its children, inheriting its parent's
/// transport when it has none.
pub open spec fn detached(d: DiskInfo, parent_tran: Option<String>) -> DiskInfo {
    DiskInfo {
        tran: match d.tran {
            Some(t) => Some(t),
            None => parent_tran,
        },
        children: None,
        ..d
    }
}

/// The devices of a tree, each followed by its descendants, in order.
pub open spec fn flatten_list(ds: Seq<DiskInfo>, parent_tran: Option<String>) -> Seq<DiskInfo>
    decreases ds, 0nat,
{
    if ds.len() == 0 {
        seq![]
    } else {
        flatten_one(ds[0], parent_tran) + flatten_list(ds.subrange(1, ds.len() as int), parent_tran)
    }
}

/// A device followed by its descendants.
pub open spec fn flatten_one(d: DiskInfo, parent_tran: Option<String>) -> Seq<DiskInfo>
    decreases d, 1nat,
{
    let top = detached(d, parent_tran);
    match d.children {
        Some(c) => seq![top] + flatten_list(c@, top.tran),
        None => seq![top],
    }
}

/// Whether a device is listed: partitions, encrypted and LVM volumes,
/// optical drives, and anything mounted.
pub open spec fn is_partition(d: DiskInfo) -> bool {
    d.device_type@ == "part"@ || d.device_type@ == "crypt"@ || d.device_type@ == "lvm"@ || d.device_type@ == "rom"@
        || d.mountpoint is Some
}

pub open spec fn partitions_of(flat: Seq<DiskInfo>) -> Seq<DiskInfo> {
    filter_map(flat, |d: DiskInfo| if is_partition(d) { Some(d) } else { None })
}

fn clone_opt(o: &Option<String>) -> (r: Option<String>)
    ensures
        r == *o,
{
    match o {
        Some(s) => Some(s.clone()),
        None => None,
    }
}

/// Flattens a device tree, children after their parent.
#[verifier::loop_isolation(false)]
pub fn flatten_disks(disks: Vec<DiskInfo>, parent_tran: Option<String>) -> (r: Vec<DiskInfo>)
    ensures
        r@ == flatten_list(disks@, parent_tran),
    decreases disks@, 0nat,
{
    let ghost orig = disks@;
    let n = disks.len();
    let mut src = disks;
    let mut flat: Vec<DiskInfo> = Vec::new();
    let mut i: usize = 0;
    assert(orig.subrange(0, n as int) =~= orig);
    assert(flat@ + flatten_list(orig, parent_tran) =~= flatten_list(orig, parent_tran));
    while i < n
        invariant
            n == orig.len(),
            0 <= i <= n,
            src@ == orig.subrange(i as int, n as int),
            flat@ + flatten_list(orig.subrange(i as int, n as int), parent_tran) == flatten_list(orig, parent_tran),
        decreases n - i,
    {
        let d = src.remove(0);
        let ghost rest = orig.subrange(i as int, n as int);
        assert(d == rest[0]);
        assert(rest.subrange(1, rest.len() as int) =~= orig.subrange(i + 1, n as int));
        assert(src@ =~= orig.subrange(i + 1, n as int));
        proof {
            assert(d == orig[i as int]);
            assert(decreases_to!(orig => d));
        }
        let part = flatten_node(d, &parent_tran);
        let ghost before = flat@;
        let mut k: usize = 0;
        let mut part = part;
        let ghost pv = part@;
        let mut moved: Vec<DiskInfo> = Vec::new();
        while part.len() > 0
            invariant
                flat@ + part@ == before + pv,
            decreases part.len(),
        {
            let x = part.remove(0);
            let ghost p0 = part@;
            flat.push(x);
            assert(flat@ + p0 =~= before + pv);
        }
        assert(flat@ =~= before + pv);
        i += 1;
    }
    assert(orig.subrange(n as int, n as int) =~= seq![]);
    flat
}

/// A device followed by its descendants.
fn flatten_node(d: DiskInfo, parent_tran: &Option<String>) -> (r: Vec<DiskInfo>)
    ensures
        r@ == flatten_one(d, *parent_tran),
    decreases d, 1nat,
{
    let ghost orig = d;
    let mut d = d;
    if d.tran.is_none() {
        d.tran = clone_opt(parent_tran);
    }
    let children = d.children.take();
    let current = clone_opt(&d.tran);
    let mut out: Vec<DiskInfo> = Vec::new();
    out.push(d);
    assert(out@ =~= seq![detached(orig, *parent_tran)]);
    match children {
        Some(c) => {
            proof {
                assert(decreases_to!(orig => orig.children->Some_0@));
            }
            let sub = flatten_disks(c, current);
            let mut sub = sub;
            let ghost before = out@;
            let ghost sv = sub@;
            while sub.len() > 0
                invariant
                    out@ + sub@ == before + sv,
                decreases sub.len(),
            {
                let x = sub.remove(0);
                let ghost s0 = sub@;
                out.push(x);
                assert(out@ + s0 =~= before + sv);
            }
            assert(out@ =~= before + sv);
        },
        None => {},
    }
    out
}

impl PartitionListCommand {
    /// The command whose output is parsed.
    pub fn query(&self) -> (r: SystemCommand)
        ensures
            r.runs("lsblk"@, seq!["--json"@, "-o"@, "NAME,PATH,SIZE,MOUNTPOINT,FSTYPE,TYPE,ROTA,TRAN"@]),
    {
        SystemCommand::new("lsblk").arg("--json").arg("-o").arg("NAME,PATH,SIZE,MOUNTPOINT,FSTYPE,TYPE,ROTA,TRAN")
    }

    /// The partitions of the device tree, sorted by name (devices with
    /// equal names keep their order).
    pub fn partitions(blockdevices: Vec<DiskInfo>) -> (r: Vec<DiskInfo>)
        ensures
            exists|p: Seq<int>|
                stable_order(
                    names(partitions_of(flatten_list(blockdevices@, None))),
                    p,
                    |a: Seq<char>, b: Seq<char>| text_lt(a, b),
                ) && r@ == #[trigger] reorder(partitions_of(flatten_list(blockdevices@, None)), p),
    {
        let flat = flatten_disks(blockdevices, None);
        let ghost fl = flat@;
        let ghost f = |d: DiskInfo| if is_partition(d) { Some(d) } else { None };
        let n = flat.len();
        let mut src = flat;
        let mut kept: Vec<DiskInfo> = Vec::new();
        let mut keys: Vec<Vec<char>> = Vec::new();
        let mut i: usize = 0;
        while i < n
            invariant
                n == fl.len(),
                0 <= i <= n,
                src@ == fl.skip(i as int),
                f == (|d: DiskInfo| if is_partition(d) { Some(d) } else { None }),
                kept@ == filter_map(fl.take(i as int), f),
                keys@.len() == kept@.len(),
                forall|j: int| 0 <= j < kept@.len() ==> (#[trigger] keys@[j])@ == kept@[j].name@,
            decreases n - i,
        {
            proof {
                lemma_filter_map_step(fl, f, i as int);
            }
            let d = src.remove(0);
            assert(d == fl[i as int]);
            assert(src@ =~= fl.skip(i + 1));
            let t = d.device_type.as_str();
            let keep = str_eq(t, "part") || str_eq(t, "crypt") || str_eq(t, "lvm") || str_eq(t, "rom") || d.mountpoint.is_some();
            if keep {
                keys.push(chars_of(d.name.as_str()));
                kept.push(d);
            }
            i += 1;
        }
        assert(fl.take(n as int) =~= fl);
        assert(keys@.map_values(|k: Vec<char>| k@) =~= names(kept@));
        assert(f =~= (|d: DiskInfo| if is_partition(d) { Some(d) } else { None }));
        assert(kept@ == partitions_of(fl));
        let ghost before = kept@;
        let r = sort_by_text(kept, &keys);
        proof {
            let p = choose|p: Seq<int>|
                stable_order(keys@.map_values(|k: Vec<char>| k@), p, |a: Seq<char>, b: Seq<char>| text_lt(a, b))
                    && r@ == reorder(before, p);
            assert(r@ == reorder(partitions_of(fl), p));
        }
        r
    }

    /// A partition's row: the disk symbol, name, path, size, type, mount
    /// point and file system (empty when absent).
    pub fn row(d: &DiskInfo) -> (r: Vec<String>)
        ensures
            string_views(r@) == seq![
                emoji_text(Emoji::Disk),
                d.name@,
                d.path@,
                d.size@,
                d.device_type@,
                match d.mountpoint {
                    Some(m) => m@,
                    None => seq![],
                },
                match d.fstype {
                    Some(f) => f@,
                    None => seq![],
                },
            ],
    {
        let v = vec![
            owned(Emoji::Disk.get()),
            d.name.clone(),
            d.path.clone(),
            d.size.clone(),
            d.device_type.clone(),
            match &d.mountpoint {
                Some(m) => m.clone(),
                None => String::new(),
            },
            match &d.fstype {
                Some(f) => f.clone(),
                None => String::new(),
            },
        ];
        assert(string_views(v@) =~= seq![
            emoji_text(Emoji::Disk),
            d.name@,
            d.path@,
            d.size@,
            d.device_type@,
            match d.mountpoint {
                Some(m) => m@,
                None => seq![],
            },
            match d.fstype {
                Some(f) => f@,
                None => seq![],
            },
        ]);
        v
    }
}

impl ExecutableCommand for PartitionListCommand {
    open spec fn text(&self) -> Seq<char> {
        "lsblk --json"@
    }

    open spec fn structured(&self) -> bool {
        is_structured_format(self.format)
    }

    fn as_string(&self) -> (r: String) {
        owned("lsblk --json")
    }

    fn is_structured(&self) -> (r: bool) {
        self.format.structured()
    }
}

// ---------------------------------------------------------------------------
// Mounting
// ---------------------------------------------------------------------------

/// Mounts a device on a directory.
pub struct PartitionMountCommand {
    pub device: String,
    pub path: String,
    pub fstype: Option<String>,
    pub options: Option<String>,
}

/// `flag` and the value, when there is one.
pub open spec fn opt_flag(o: Option<String>, flag: Seq<char>) -> Seq<Seq<char>> {
    match o {
        Some(v) => seq![flag, v@],
        None => seq![],
    }
}

impl PartitionMountCommand {
    /// The command that is run.
    pub fn plan(&self) -> (r: SystemCommand)
        ensures
            r.runs(
                "mount"@,
                opt_flag(self.fstype, "-t"@) + opt_flag(self.options, "-o"@) + seq!["--"@, self.device@, self.path@],
            ),
            r.text() == self.text(),
    {
        proof {
            reveal_strlit(" ");
            reveal_strlit("-t");
            reveal_strlit(" -t ");
            reveal_strlit("-o");
            reveal_strlit(" -o ");
            reveal_strlit("--");
            reveal_strlit(" -- ");
            assert(" "@ + "-t"@ + " "@ =~= " -t "@);
            assert(" "@ + "-o"@ + " "@ =~= " -o "@);
            assert(" "@ + "--"@ + " "@ =~= " -- "@);
        }
        let mut cmd = SystemCommand::new("mount");
        if let Some(fs) = &self.fstype {
            cmd = cmd.arg("-t").arg(fs.as_str());
        }
        assert(shown_line(cmd.binary@, cmd.argv()) =~= "mount"@ + opt_text(self.fstype, " -t "@));
        if let Some(o) = &self.options {
            cmd = cmd.arg("-o").arg(o.as_str());
        }
        assert(shown_line(cmd.binary@, cmd.argv()) =~= "mount"@ + opt_text(self.fstype, " -t "@) + opt_text(
            self.options,
            " -o "@,
        ));
        let c = cmd.arg("--").arg(self.device.as_str());
        c.arg(self.path.as_str())
    }
}

/// Appends `prefix` and the value, when there is one.
fn push_opt(s: &mut String, o: &Option<String>, prefix: &str)
    ensures
        final(s)@ == old(s)@ + opt_text(*o, prefix@),
{
    if let Some(v) = o {
        s.append(prefix);
        s.append(v.as_str());
    } else {
        assert(old(s)@ + opt_text(*o, prefix@) =~= old(s)@);
    }
}

impl ExecutableCommand for PartitionMountCommand {
    open spec fn text(&self) -> Seq<char> {
        "mount"@ + opt_text(self.fstype, " -t "@) + opt_text(self.options, " -o "@) + " -- "@ + self.device@ + " "@
            + self.path@
    }

    open spec fn structured(&self) -> bool {
        false
    }

    fn as_string(&self) -> (r: String) {
        let mut s = owned("mount");
        push_opt(&mut s, &self.fstype, " -t ");
        push_opt(&mut s, &self.options, " -o ");
        s.append(" -- ");
        s.append(self.device.as_str());
        s.append(" ");
        s.append(self.path.as_str());
        s
    }

    fn is_structured(&self) -> (r: bool) {
        false
    }
}

/// Unmounts a device or directory, lazily or by force when asked.
pub struct PartitionUnmountCommand {
    pub target: String,
    pub lazy: bool,
    pub force: bool,
}

impl PartitionUnmountCommand {
    /// The command that is run.
    pub fn plan(&self) -> (r: SystemCommand)
        ensures
            r.runs(
                "umount"@,
                (if self.lazy { seq!["-l"@] } else { seq![] }) + (if self.force { seq!["-f"@] } else { seq![] }) + seq![
                    "--"@,
                    self.target@,
                ],
            ),
            r.text() == self.text(),
    {
        proof {
            reveal_strlit(" ");
            reveal_strlit("-l");
            reveal_strlit(" -l");
            reveal_strlit("-f");
            reveal_strlit(" -f");
            reveal_strlit("--");
            reveal_strlit(" -- ");
            assert(" "@ + "-l"@ =~= " -l"@);
            assert(" "@ + "-f"@ =~= " -f"@);
        }
        let mut cmd = SystemCommand::new("umount");
        if self.lazy {
            cmd = cmd.arg("-l");
        }
        assert(shown_line(cmd.binary@, cmd.argv()) == "umount"@ + (if self.lazy { " -l"@ } else { seq![] }));
        if self.force {
            cmd = cmd.arg("-f");
        }
        assert(shown_line(cmd.binary@, cmd.argv()) == "umount"@ + (if self.lazy { " -l"@ } else { seq![] }) + (if self.force {
            " -f"@
        } else {
            seq![]
        }));
        let c = cmd.arg("--");
        assert(" "@ + "--"@ + " "@ =~= " -- "@);
        c.arg(self.target.as_str())
    }
}

impl ExecutableCommand for PartitionUnmountCommand {
    open spec fn text(&self) -> Seq<char> {
        "umount"@ + (if self.lazy { " -l"@ } else { seq![] }) + (if self.force { " -f"@ } else { seq![] }) + " -- "@
            + self.target@
    }

    open spec fn structured(&self) -> bool {
        false
    }

    fn as_string(&self) -> (r: String) {
        let mut s = owned("umount");
        if self.lazy {
            s.append(" -l");
        }
        if self.force {
            s.append(" -f");
        }
        s.append(" -- ");
        s.append(self.target.as_str());
        s
    }

    fn is_structured(&self) -> (r: bool) {
        false
    }
}

/// Shows the disk usage of a directory, to a depth when one is given.
pub struct PartitionUsageCommand {
    pub path: String,
    pub depth: Option<u32>,
    pub ignore_exit_code: bool,
}

impl PartitionUsageCommand {
    /// The same command, with any exit status of `du` accepted.
    pub fn ignore_exit_code(self) -> (r: Self)
        ensures
            r.path == self.path,
            r.depth == self.depth,
            r.ignore_exit_code,
    {
        let mut s = self;
        s.ignore_exit_code = true;
        s
    }

    /// The command that is run.
    pub fn plan(&self) -> (r: SystemCommand)
        ensures
            r.binary@ == "du"@,
            r.argv() == (match self.depth {
                Some(d) => seq!["-h"@, "--max-depth="@ + dec(d as nat)],
                None => seq!["-sh"@],
            }) + seq!["--"@, self.path@],
            r.stdin_data is None,
            r.ignore_exit_code == self.ignore_exit_code,
            r.text() == self.text(),
    {
        proof {
            reveal_strlit(" ");
            reveal_strlit("du");
            reveal_strlit("-h");
            reveal_strlit("-sh");
            reveal_strlit("--");
            reveal_strlit(" -- ");
            reveal_strlit("du -h --max-depth=");
            reveal_strlit("--max-depth=");
            reveal_strlit("du -sh -- ");
            assert(" "@ + "--"@ + " "@ =~= " -- "@);
        }
        let mut cmd = SystemCommand::new("du");
        if self.ignore_exit_code {
            cmd = cmd.ignore_exit_code();
        }
        assert(cmd.argv().len() == 0);
        match self.depth {
            Some(d) => {
                let mut flag = owned("--max-depth=");
                let n = dec_string(d as u64);
                flag.append(n.as_str());
                cmd = cmd.arg("-h").arg(flag.as_str());
                assert(shown_line(cmd.binary@, cmd.argv()) =~= "du -h --max-depth="@ + dec(d as nat));
            },
            None => {
                cmd = cmd.arg("-sh");
                assert(shown_line(cmd.binary@, cmd.argv()) =~= "du -sh"@) by {
                    reveal_strlit("du -sh");
                }
                assert("du -sh"@ + " -- "@ =~= "du -sh -- "@) by {
                    reveal_strlit("du -sh");
                }
            },
        }
        let c = cmd.arg("--");
        c.arg(self.path.as_str())
    }
}

impl ExecutableCommand for PartitionUsageCommand {
    open spec fn text(&self) -> Seq<char> {
        match self.depth {
            Some(d) => "du -h --max-depth="@ + dec(d as nat) + " -- "@ + self.path@,
            None => "du -sh -- "@ + self.path@,
        }
    }

    open spec fn structured(&self) -> bool {
        false
    }

    fn as_string(&self) -> (r: String) {
        match self.depth {
            Some(d) => {
                let mut s = owned("du -h --max-depth=");
                let n = dec_string(d as u64);
                s.append(n.as_str());
                s.append(" -- ");
                s.append(self.path.as_str());
                s
            },
            None => {
                let mut s = owned("du -sh -- ");
                s.append(self.path.as_str());
                s
            },
        }
    }

    fn is_structured(&self) -> (r: bool) {
        false
    }
}

} // verus!
