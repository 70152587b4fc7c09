//! System, service and file logs.
use vstd::prelude::*;

use super::common::{CompoundCommand, LogHeaderCommand, Step, SystemCommand, completing_arg, is_completing_arg, str_views};
use crate::cli::{LogAction, LogArgs};
use crate::num::{dec, dec_string};
use crate::os::{AnyCommand, AoError, Completion};
use crate::text::owned;

verus! {

/// The log domain.
pub struct StandardLog;

/// `-f` when following.
pub open spec fn follow_args(follow: bool) -> Seq<Seq<char>> {
    if follow { seq!["-f"@] } else { seq![] }
}

/// `journalctl` with the given arguments, following first when asked.
fn journal(follow: bool) -> (r: SystemCommand)
    ensures
        r.runs("journalctl"@, follow_args(follow)),
{
    let c = SystemCommand::new("journalctl");
    if follow {
        c.arg("-f")
    } else {
        c
    }
}

/// The package-history files that are looked for, in order, with their
/// banners.
pub open spec fn history_files() -> Seq<(Seq<char>, Seq<char>)> {
    seq![
        ("/var/log/dpkg.log"@, "DPKG History"@),
        ("/var/log/apt/history.log"@, "APT History"@),
        ("/var/log/dnf.log"@, "DNF History"@),
        ("/var/log/pacman.log"@, "Pacman History"@),
        ("/var/log/zypp/history"@, "Zypper History"@),
        ("/var/log/emerge.log"@, "Emerge History"@),
    ]
}

/// The paths of the package-history files.
pub fn history_paths() -> (r: Vec<&'static str>)
    ensures
        r@.len() == 6,
        forall|i: int| 0 <= i < 6 ==> (#[trigger] r@[i])@ == history_files()[i].0,
{
    vec![
        "/var/log/dpkg.log",
        "/var/log/apt/history.log",
        "/var/log/dnf.log",
        "/var/log/pacman.log",
        "/var/log/zypp/history",
        "/var/log/emerge.log",
    ]
}

/// The banners of the package-history files.
fn history_labels() -> (r: Vec<&'static str>)
    ensures
        r@.len() == 6,
        forall|i: int| 0 <= i < 6 ==> (#[trigger] r@[i])@ == history_files()[i].1,
{
    vec!["DPKG History", "APT History", "DNF History", "Pacman History", "Zypper History", "Emerge History"]
}

/// The steps that show the package-history files that exist: for each, a
/// banner and the tail of the file.
pub open spec fn history_steps_ok(steps: Seq<Step>, present: Seq<bool>, lines: u32, upto: int) -> bool
    decreases upto,
{
    if upto <= 0 {
        steps.len() == 0
    } else if present[upto - 1] {
        &&& steps.len() >= 2
        &&& history_steps_ok(steps.drop_last().drop_last(), present, lines, upto - 1)
        &&& (steps[steps.len() - 2] matches Step::Header(h) && h.text@ == history_files()[upto - 1].1)
        &&& (steps.last() matches Step::Run(c) && c.runs(
            "tail"@,
            seq!["-n"@, dec(lines as nat), "--"@, history_files()[upto - 1].0],
        ))
    } else {
        history_steps_ok(steps, present, lines, upto - 1)
    }
}

/// The command for the package history, given which history files exist.
pub open spec fn pkg_result(lines: u32, present: Seq<bool>, c: AnyCommand) -> bool {
    if present.contains(true) {
        c matches AnyCommand::Compound(cc) && history_steps_ok(cc.commands@, present, lines, 6)
    } else {
        c matches AnyCommand::System(s) && s.runs(
            "journalctl"@,
            seq!["-t"@, "apt"@, "-t"@, "dpkg"@, "-t"@, "dnf"@, "-n"@, dec(lines as nat), "--"@],
        )
    }
}

/// The command that a log action stands for, given which of the history
/// files exist.
pub open spec fn log_plan(action: Option<LogAction>, present: Seq<bool>, c: AnyCommand) -> bool {
    match action {
        Some(LogAction::Auth { lines, follow }) => c matches AnyCommand::System(s) && s.runs(
            "journalctl"@,
            follow_args(follow) + seq!["-n"@, dec(lines as nat), "_FACILITY=4"@, "_FACILITY=10"@, "--"@],
        ),
        Some(LogAction::Boot { lines, follow, id }) => c matches AnyCommand::System(s) && s.runs(
            "journalctl"@,
            follow_args(follow) + (match id {
                Some(b) => seq!["-b"@, b@],
                None => seq!["-b"@],
            }) + seq!["-n"@, dec(lines as nat), "--"@],
        ),
        Some(LogAction::Crash { lines }) => c matches AnyCommand::System(s) && s.runs(
            "journalctl"@,
            seq!["-p"@, "0..3"@, "-n"@, dec(lines as nat), "-k"@, "--"@],
        ),
        Some(LogAction::Dev { lines, follow }) => c matches AnyCommand::System(s) && s.runs(
            "journalctl"@,
            follow_args(follow) + seq!["-k"@, "-n"@, dec(lines as nat), "--"@],
        ),
        Some(LogAction::Error { lines, follow }) => c matches AnyCommand::System(s) && s.runs(
            "journalctl"@,
            follow_args(follow) + seq!["-p"@, "err..emerg"@, "-n"@, dec(lines as nat), "--"@],
        ),
        Some(LogAction::File { path, lines, follow }) => c matches AnyCommand::System(s) && s.runs(
            "tail"@,
            follow_args(follow) + seq!["-n"@, dec(lines as nat), "--"@, path@],
        ),
        Some(LogAction::Package { lines }) => pkg_result(lines, present, c),
        Some(LogAction::Service { name, lines, follow }) => c matches AnyCommand::System(s) && s.runs(
            "journalctl"@,
            follow_args(follow) + seq!["-u"@, name@, "-n"@, dec(lines as nat), "--"@],
        ),
        Some(LogAction::System { lines, follow }) => c matches AnyCommand::System(s) && s.runs(
            "journalctl"@,
            follow_args(follow) + seq!["-n"@, dec(lines as nat), "--"@],
        ),
        None => c matches AnyCommand::System(s) && s.runs("journalctl"@, seq!["-n"@, dec(50), "--"@]),
    }
}

impl StandardLog {
    /// Maps a parsed `log` invocation to its command, given which of the
    /// files at `history_paths()` exist.
    pub fn execute(&self, args: &LogArgs, history: &Vec<bool>) -> (r: Result<AnyCommand, AoError>)
        requires
            history.len() == 6,
        ensures
            r matches Ok(c) && log_plan(args.action, history@, c),
    {
        match &args.action {
            Some(LogAction::Auth { lines, follow }) => self.auth(*lines, *follow),
            Some(LogAction::Boot { lines, follow, id }) => match id {
                Some(b) => self.boot(*lines, *follow, Some(b.as_str())),
                None => self.boot(*lines, *follow, None),
            },
            Some(LogAction::Crash { lines }) => self.crash(*lines),
            Some(LogAction::Dev { lines, follow }) => self.dev(*lines, *follow),
            Some(LogAction::Error { lines, follow }) => self.error(*lines, *follow),
            Some(LogAction::File { path, lines, follow }) => self.file(path.as_str(), *lines, *follow),
            Some(LogAction::Package { lines }) => self.pkg(*lines, history),
            Some(LogAction::Service { name, lines, follow }) => self.svc(name.as_str(), *lines, *follow),
            Some(LogAction::System { lines, follow }) => self.sys_logs(*lines, *follow),
            None => {
                let r = self.sys_logs(50, false);
                assert(follow_args(false) + seq!["-n"@, dec(50), "--"@] =~= seq!["-n"@, dec(50), "--"@]);
                r
            },
        }
    }

    /// What to offer while completing `words`: the loaded services, for the
    /// argument of `service`.
    pub fn complete(&self, words: &[&str]) -> (r: Completion)
        ensures
            completing_arg(str_views(words@), seq!["ao"@, "log"@, "service"@], 1) ==> r is LoadedServices,
            !completing_arg(str_views(words@), seq!["ao"@, "log"@, "service"@], 1) ==> r is Nothing,
    {
        let svc = vec!["ao", "log", "service"];
        assert(str_views(svc@) =~= seq!["ao"@, "log"@, "service"@]);
        if is_completing_arg(words, svc.as_slice(), 1, false) {
            Completion::LoadedServices
        } else {
            Completion::Nothing
        }
    }

    /// Authentication logs.
    pub fn auth(&self, lines: u32, follow: bool) -> (r: Result<AnyCommand, AoError>)
        ensures
            r matches Ok(AnyCommand::System(c)) && c.runs(
                "journalctl"@,
                follow_args(follow) + seq!["-n"@, dec(lines as nat), "_FACILITY=4"@, "_FACILITY=10"@, "--"@],
            ),
    {
        let n = dec_string(lines as u64);
        Ok(AnyCommand::System(journal(follow).arg("-n").arg(n.as_str()).arg("_FACILITY=4").arg("_FACILITY=10").arg("--")))
    }

    /// Logs of the current boot, or of the boot `id`.
    pub fn boot(&self, lines: u32, follow: bool, id: Option<&str>) -> (r: Result<AnyCommand, AoError>)
        ensures
            r matches Ok(AnyCommand::System(c)) && c.runs(
                "journalctl"@,
                follow_args(follow) + (match id {
                    Some(b) => seq!["-b"@, b@],
                    None => seq!["-b"@],
                }) + seq!["-n"@, dec(lines as nat), "--"@],
            ),
    {
        let mut cmd = journal(follow);
        match id {
            Some(b) => {
                cmd = cmd.arg("-b").arg(b);
            },
            None => {
                cmd = cmd.arg("-b");
            },
        }
        let n = dec_string(lines as u64);
        Ok(AnyCommand::System(cmd.arg("-n").arg(n.as_str()).arg("--")))
    }

    /// Kernel messages of priority error and above.
    pub fn crash(&self, lines: u32) -> (r: Result<AnyCommand, AoError>)
        ensures
            r matches Ok(AnyCommand::System(c)) && c.runs(
                "journalctl"@,
                seq!["-p"@, "0..3"@, "-n"@, dec(lines as nat), "-k"@, "--"@],
            ),
    {
        let n = dec_string(lines as u64);
        Ok(AnyCommand::System(SystemCommand::new("journalctl").arg("-p").arg("0..3").arg("-n").arg(n.as_str()).arg("-k").arg("--")))
    }

    /// Kernel (device) messages.
    pub fn dev(&self, lines: u32, follow: bool) -> (r: Result<AnyCommand, AoError>)
        ensures
            r matches Ok(AnyCommand::System(c)) && c.runs(
                "journalctl"@,
                follow_args(follow) + seq!["-k"@, "-n"@, dec(lines as nat), "--"@],
            ),
    {
        let n = dec_string(lines as u64);
        Ok(AnyCommand::System(journal(follow).arg("-k").arg("-n").arg(n.as_str()).arg("--")))
    }

    /// Messages of priority error and above.
    pub fn error(&self, lines: u32, follow: bool) -> (r: Result<AnyCommand, AoError>)
        ensures
            r matches Ok(AnyCommand::System(c)) && c.runs(
                "journalctl"@,
                follow_args(follow) + seq!["-p"@, "err..emerg"@, "-n"@, dec(lines as nat), "--"@],
            ),
    {
        let n = dec_string(lines as u64);
        Ok(AnyCommand::System(journal(follow).arg("-p").arg("err..emerg").arg("-n").arg(n.as_str()).arg("--")))
    }

    /// The tail of a file.
    pub fn tail(path: &str, lines: u32, follow: bool) -> (r: SystemCommand)
        ensures
            r.runs("tail"@, follow_args(follow) + seq!["-n"@, dec(lines as nat), "--"@, path@]),
    {
        let mut cmd = SystemCommand::new("tail");
        if follow {
            cmd = cmd.arg("-f");
        }
        let n = dec_string(lines as u64);
        cmd.arg("-n").arg(n.as_str()).arg("--").arg(path)
    }

    /// The tail of a file.
    pub fn file(&self, path: &str, lines: u32, follow: bool) -> (r: Result<AnyCommand, AoError>)
        ensures
            r matches Ok(AnyCommand::System(c)) && c.runs(
                "tail"@,
                follow_args(follow) + seq!["-n"@, dec(lines as nat), "--"@, path@],
            ),
    {
        Ok(AnyCommand::System(Self::tail(path, lines, follow)))
    }

    /// Package history, given which of the files at `history_paths()`
    /// exist: the tails of those that exist, each under a banner; with none
    /// of them, the journal of the package tools.
    pub fn pkg(&self, lines: u32, present: &Vec<bool>) -> (r: Result<AnyCommand, AoError>)
        requires
            present.len() == 6,
        ensures
            r matches Ok(c) && pkg_result(lines, present@, c),
    {
        let paths = history_paths();
        let labels = history_labels();
        let mut steps: Vec<Step> = Vec::new();
        let mut i: usize = 0;
        while i < 6
            invariant
                0 <= i <= 6,
                present@.len() == 6,
                paths@.len() == 6,
                labels@.len() == 6,
                forall|k: int| 0 <= k < 6 ==> (#[trigger] paths@[k])@ == history_files()[k].0,
                forall|k: int| 0 <= k < 6 ==> (#[trigger] labels@[k])@ == history_files()[k].1,
                history_steps_ok(steps@, present@, lines, i as int),
                (steps@.len() == 0) == !present@.take(i as int).contains(true),
            decreases 6 - i,
        {
            let ghost before = steps@;
            if present[i] {
                steps.push(Step::Header(LogHeaderCommand { text: owned(labels[i]) }));
                steps.push(Step::Run(Self::tail(paths[i], lines, false)));
                assert(steps@.drop_last().drop_last() =~= before);
                assert(follow_args(false) + seq!["-n"@, dec(lines as nat), "--"@, paths@[i as int]@] =~= seq![
                    "-n"@,
                    dec(lines as nat),
                    "--"@,
                    history_files()[i as int].0,
                ]);
                assert(present@.take(i + 1).contains(true)) by {
                    assert(present@.take(i + 1)[i as int] == true);
                }
            } else {
                assert(present@.take(i + 1) =~= present@.take(i as int).push(false));
            }
            i += 1;
        }
        assert(present@.take(6) =~= present@);
        if steps.len() > 0 {
            return Ok(AnyCommand::Compound(CompoundCommand::new(steps)));
        }
        let n = dec_string(lines as u64);
        Ok(
            AnyCommand::System(
                SystemCommand::new("journalctl").arg("-t").arg("apt").arg("-t").arg("dpkg").arg("-t").arg("dnf").arg(
                    "-n",
                ).arg(n.as_str()).arg("--"),
            ),
        )
    }

    /// Logs of one service.
    pub fn svc(&self, service: &str, lines: u32, follow: bool) -> (r: Result<AnyCommand, AoError>)
        ensures
            r matches Ok(AnyCommand::System(c)) && c.runs(
                "journalctl"@,
                follow_args(follow) + seq!["-u"@, service@, "-n"@, dec(lines as nat), "--"@],
            ),
    {
        let n = dec_string(lines as u64);
        Ok(AnyCommand::System(journal(follow).arg("-u").arg(service).arg("-n").arg(n.as_str()).arg("--")))
    }

    /// The whole system journal.
    pub fn sys_logs(&self, lines: u32, follow: bool) -> (r: Result<AnyCommand, AoError>)
        ensures
            r matches Ok(AnyCommand::System(c)) && c.runs("journalctl"@, follow_args(follow) + seq!["-n"@, dec(lines as nat), "--"@]),
    {
        let n = dec_string(lines as u64);
        Ok(AnyCommand::System(journal(follow).arg("-n").arg(n.as_str()).arg("--")))
    }
}

} // verus!
