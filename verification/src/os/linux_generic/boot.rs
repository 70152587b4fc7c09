//! Boot entries and kernel modules.
use vstd::prelude::*;

use super::common::SystemCommand;
use crate::cli::{BootAction, BootArgs, BootModuleAction, OutputFormat, is_structured_format};
use crate::num::{parse_u64, parse_uint};
use crate::os::{AnyCommand, AoError, BootEntryInfo, ExecutableCommand, KernelModInfo};
use crate::text::{
    chars_of, contains, contains_pat, fields, filter_map, lemma_filter_map_step, lines, lines_of, owned, split_char,
    split_on, split_whitespace, string_of, trim, trim_ws, views,
};

verus! {

/// The boot domain.
pub struct StandardBoot;

/// The command that a boot action stands for.
pub open spec fn boot_plan(action: Option<BootAction>, c: AnyCommand) -> bool {
    match action {
        Some(BootAction::List { format }) => c == AnyCommand::BootListEntries(BootListEntriesCommand { format }),
        Some(BootAction::Module { action }) => match action {
            BootModuleAction::List { format } => c == AnyCommand::BootListModules(BootListModulesCommand { format }),
            BootModuleAction::Load { name } => c matches AnyCommand::System(s) && s.runs("modprobe"@, seq!["--"@, name@]),
            BootModuleAction::Unload { name } => c matches AnyCommand::System(s)
                && s.runs("modprobe"@, seq!["-r"@, "--"@, name@]),
        },
        None => c == AnyCommand::BootListEntries(BootListEntriesCommand { format: OutputFormat::Table }),
    }
}

impl StandardBoot {
    /// Maps a parsed `boot` invocation to its command.
    pub fn execute(&self, args: &BootArgs) -> (r: Result<AnyCommand, AoError>)
        ensures
            r matches Ok(c) && boot_plan(args.action, c),
    {
        match &args.action {
            Some(BootAction::List { format }) => Ok(AnyCommand::BootListEntries(BootListEntriesCommand { format: *format })),
            Some(BootAction::Module { action }) => match action {
                BootModuleAction::List { format } => Ok(
                    AnyCommand::BootListModules(BootListModulesCommand { format: *format }),
                ),
                BootModuleAction::Load { name } => self.load_module(name.as_str()),
                BootModuleAction::Unload { name } => self.unload_module(name.as_str()),
            },
            None => Ok(AnyCommand::BootListEntries(BootListEntriesCommand { format: OutputFormat::Table })),
        }
    }

    /// Loads a kernel module.
    pub fn load_module(&self, name: &str) -> (r: Result<AnyCommand, AoError>)
        ensures
            r matches Ok(AnyCommand::System(s)) && s.runs("modprobe"@, seq!["--"@, name@]),
    {
        Ok(AnyCommand::System(SystemCommand::new("modprobe").arg("--").arg(name)))
    }

    /// Unloads a kernel module.
    pub fn unload_module(&self, name: &str) -> (r: Result<AnyCommand, AoError>)
        ensures
            r matches Ok(AnyCommand::System(s)) && s.runs("modprobe"@, seq!["-r"@, "--"@, name@]),
    {
        Ok(AnyCommand::System(SystemCommand::new("modprobe").arg("-r").arg("--").arg(name)))
    }
}

/// Lists the boot loader's entries.
pub struct BootListEntriesCommand {
    pub format: OutputFormat,
}

impl BootEntryInfo {
    pub open spec fn record(&self) -> (Seq<char>, Seq<char>) {
        (self.title@, self.id@)
    }
}

/// An entry of `bootctl list`: a line with `title:` or `id:` and exactly one
/// `:`, titled by the trimmed text after it; its id is unknown.
pub open spec fn boot_row(line: Seq<char>) -> Option<(Seq<char>, Seq<char>)> {
    if (contains(line, "title:"@) || contains(line, "id:"@)) && split_on(line, ':').len() == 2 {
        Some((trim(split_on(line, ':')[1]), "unknown"@))
    } else {
        None
    }
}

pub open spec fn boot_rows(out: Seq<char>) -> Seq<(Seq<char>, Seq<char>)> {
    filter_map(lines(out), |l: Seq<char>| boot_row(l))
}

impl BootListEntriesCommand {
    /// The command run for the original output.
    pub fn original(&self) -> (r: SystemCommand)
        ensures
            r.runs("bootctl"@, seq!["list"@]),
    {
        SystemCommand::new("bootctl").arg("list")
    }

    /// The command whose output is parsed.
    pub fn query(&self) -> (r: SystemCommand)
        ensures
            r.runs("bootctl"@, seq!["list"@, "--no-pager"@]),
    {
        SystemCommand::new("bootctl").arg("list").arg("--no-pager")
    }

    /// The entries of `bootctl list`.
    pub fn parse(stdout: &str) -> (r: Vec<BootEntryInfo>)
        ensures
            r@.map_values(|e: BootEntryInfo| e.record()) == boot_rows(stdout@),
    {
        let ls = lines_of(stdout);
        let title = chars_of("title:");
        let id = chars_of("id:");
        let ghost f = |l: Seq<char>| boot_row(l);
        let mut out: Vec<BootEntryInfo> = Vec::new();
        let mut i: usize = 0;
        while i < ls.len()
            invariant
                0 <= i <= ls.len(),
                views(ls@) == lines(stdout@),
                title@ == "title:"@,
                id@ == "id:"@,
                f == (|l: Seq<char>| boot_row(l)),
                out@.map_values(|e: BootEntryInfo| e.record()) == filter_map(views(ls@).take(i as int), f),
            decreases ls.len() - i,
        {
            proof {
                lemma_filter_map_step(views(ls@), f, i as int);
            }
            if contains_pat(&ls[i], &title) || contains_pat(&ls[i], &id) {
                let parts = split_char(&ls[i], ':');
                if parts.len() == 2 {
                    let t = trim_ws(&parts[1]);
                    let e = BootEntryInfo { title: string_of(&t), id: owned("unknown") };
                    let ghost rec = e.record();
                    out.push(e);
                    assert(out@.map_values(|e: BootEntryInfo| e.record()) =~= filter_map(views(ls@).take(i as int), f).push(
                        rec,
                    ));
                }
            }
            i += 1;
        }
        assert(views(ls@).take(ls.len() as int) =~= views(ls@));
        out
    }
}

impl ExecutableCommand for BootListEntriesCommand {
    open spec fn text(&self) -> Seq<char> {
        "bootctl list"@
    }

    open spec fn structured(&self) -> bool {
        is_structured_format(self.format)
    }

    fn as_string(&self) -> (r: String) {
        owned("bootctl list")
    }

    fn is_structured(&self) -> (r: bool) {
        self.format.structured()
    }
}

/// Lists the loaded kernel modules.
pub struct BootListModulesCommand {
    pub format: OutputFormat,
}

impl KernelModInfo {
    pub open spec fn record(&self) -> (Seq<char>, u64, Seq<char>) {
        (self.name@, self.size, self.used_by@)
    }
}

/// A module of `lsmod` (after its header line): lines of at least three
/// fields; the size is 0 where it is no number.
pub open spec fn module_row(line: Seq<char>) -> Option<(Seq<char>, u64, Seq<char>)> {
    let f = fields(line);
    if f.len() >= 3 {
        Some(
            (
                f[0],
                match parse_uint(f[1], u64::MAX as nat) {
                    Some(v) => v as u64,
                    None => 0,
                },
                f[2],
            ),
        )
    } else {
        None
    }
}

pub open spec fn module_rows(out: Seq<char>) -> Seq<(Seq<char>, u64, Seq<char>)> {
    if lines(out).len() == 0 {
        seq![]
    } else {
        filter_map(lines(out).skip(1), |l: Seq<char>| module_row(l))
    }
}

impl BootListModulesCommand {
    /// The command run for the original output, and whose output is parsed.
    pub fn query(&self) -> (r: SystemCommand)
        ensures
            r.runs("lsmod"@, seq![]),
    {
        SystemCommand::new("lsmod")
    }

    /// The modules of `lsmod`'s output.
    pub fn parse(stdout: &str) -> (r: Vec<KernelModInfo>)
        ensures
            r@.map_values(|m: KernelModInfo| m.record()) == module_rows(stdout@),
    {
        let ls = lines_of(stdout);
        let ghost body = views(ls@).skip(1);
        let ghost f = |l: Seq<char>| module_row(l);
        let mut out: Vec<KernelModInfo> = Vec::new();
        if ls.len() == 0 {
            return out;
        }
        let mut i: usize = 1;
        assert(body.take(0) =~= seq![]);
        while i < ls.len()
            invariant
                1 <= i <= ls.len(),
                views(ls@) == lines(stdout@),
                body == views(ls@).skip(1),
                f == (|l: Seq<char>| module_row(l)),
                out@.map_values(|m: KernelModInfo| m.record()) == filter_map(body.take(i - 1), f),
            decreases ls.len() - i,
        {
            proof {
                lemma_filter_map_step(body, f, i - 1);
            }
            assert(body[i - 1] == ls@[i as int]@);
            let fs = split_whitespace(&ls[i]);
            if fs.len() >= 3 {
                let size = match parse_u64(&fs[1]) {
                    Some(v) => v,
                    None => 0,
                };
                let m = KernelModInfo { name: string_of(&fs[0]), size, used_by: string_of(&fs[2]) };
                let ghost rec = m.record();
                out.push(m);
                assert(out@.map_values(|m: KernelModInfo| m.record()) =~= filter_map(body.take(i - 1), f).push(rec));
            }
            i += 1;
        }
        assert(body.take(ls.len() - 1) =~= body);
        out
    }
}

impl ExecutableCommand for BootListModulesCommand {
    open spec fn text(&self) -> Seq<char> {
        "lsmod"@
    }

    open spec fn structured(&self) -> bool {
        is_structured_format(self.format)
    }

    fn as_string(&self) -> (r: String) {
        owned("lsmod")
    }

    fn is_structured(&self) -> (r: bool) {
        self.format.structured()
    }
}

} // verus!
