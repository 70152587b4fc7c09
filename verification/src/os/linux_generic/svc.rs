//! Services under systemd.
use vstd::prelude::*;

use super::common::{SystemCommand, command_line, is_completing_arg, completing_arg, str_views};
use crate::cli::{OutputFormat, ServiceAction, ServiceArgs, is_structured_format};
use crate::os::{AnyCommand, AoError, Completion, ExecutableCommand, ServiceInfo, ServiceManager};
use crate::text::{
    fields, fields_of, filter_map, join, join_chars, lemma_filter_map_step, lines, lines_of,
    parts_from, split_whitespace, string_of, string_views, views,
};

verus! {

/// The service domain on systemd.
pub struct Systemd;

/// The service that a single-service action names.
pub open spec fn service_of(c: AnyCommand) -> Option<Seq<char>> {
    match c {
        AnyCommand::ServiceUp(c) => Some(c.service@),
        AnyCommand::ServiceDown(c) => Some(c.service@),
        AnyCommand::ServiceRestart(c) => Some(c.service@),
        AnyCommand::ServiceReload(c) => Some(c.service@),
        AnyCommand::ServiceStatus(c) => Some(c.service@),
        _ => None,
    }
}

/// The command that a service action stands for.
pub open spec fn service_plan(action: Option<ServiceAction>, c: AnyCommand) -> bool {
    match action {
        Some(ServiceAction::List { format }) => c == AnyCommand::ServiceList(ServiceListCommand { format }),
        Some(ServiceAction::Up { name }) => c is ServiceUp && service_of(c) == Some(name@),
        Some(ServiceAction::Down { name }) => c is ServiceDown && service_of(c) == Some(name@),
        Some(ServiceAction::Restart { name }) => c is ServiceRestart && service_of(c) == Some(name@),
        Some(ServiceAction::Reload { name }) => c is ServiceReload && service_of(c) == Some(name@),
        Some(ServiceAction::Status { name }) => c is ServiceStatus && service_of(c) == Some(name@),
        None => c == AnyCommand::ServiceList(ServiceListCommand { format: OutputFormat::Table }),
    }
}

/// The actions whose argument is a service name.
pub open spec fn service_name_actions() -> Seq<Seq<char>> {
    seq!["up"@, "down"@, "restart"@, "reload"@, "status"@]
}

/// The first field of each line that has one.
pub open spec fn first_fields(out: Seq<char>) -> Seq<Seq<char>> {
    filter_map(lines(out), |l: Seq<char>| if fields(l).len() > 0 { Some(fields(l)[0]) } else { None })
}

/// The first whitespace-separated field of each line of `stdout`.
pub fn first_words(stdout: &str) -> (r: Vec<String>)
    ensures
        string_views(r@) == first_fields(stdout@),
{
    let ls = lines_of(stdout);
    let ghost f = |l: Seq<char>| if fields(l).len() > 0 { Some(fields(l)[0]) } else { None };
    let mut out: Vec<String> = Vec::new();
    let mut i: usize = 0;
    while i < ls.len()
        invariant
            0 <= i <= ls.len(),
            views(ls@) == lines(stdout@),
            f == (|l: Seq<char>| if fields(l).len() > 0 { Some(fields(l)[0]) } else { None }),
            string_views(out@) == filter_map(views(ls@).take(i as int), f),
        decreases ls.len() - i,
    {
        proof {
            lemma_filter_map_step(views(ls@), f, i as int);
        }
        let fs = split_whitespace(&ls[i]);
        if fs.len() > 0 {
            out.push(string_of(&fs[0]));
            assert(string_views(out@) =~= filter_map(views(ls@).take(i as int), f).push(fs@[0]@));
        }
        i += 1;
    }
    assert(views(ls@).take(ls.len() as int) =~= views(ls@));
    out
}

impl Systemd {
    /// Maps a parsed `service` invocation to its command.
    pub fn execute(&self, args: &ServiceArgs) -> (r: Result<AnyCommand, AoError>)
        ensures
            r matches Ok(c) && service_plan(args.action, c),
    {
        match &args.action {
            Some(ServiceAction::List { format }) => self.ls(*format),
            Some(ServiceAction::Up { name }) => self.up(name.as_str()),
            Some(ServiceAction::Down { name }) => self.down(name.as_str()),
            Some(ServiceAction::Restart { name }) => self.restart(name.as_str()),
            Some(ServiceAction::Reload { name }) => self.reload(name.as_str()),
            Some(ServiceAction::Status { name }) => self.status(name.as_str()),
            None => self.ls(OutputFormat::Table),
        }
    }

    /// What to offer while completing `words`: the services, when the word
    /// being completed is the argument of an action that names one.
    pub fn complete(&self, words: &[&str]) -> (r: Completion)
        ensures
            (exists|i: int| 0 <= i < 5 && completing_arg(str_views(words@), seq!["ao"@, "service"@, service_name_actions()[i]], 1))
                ==> r is Services,
            !(exists|i: int| 0 <= i < 5 && completing_arg(str_views(words@), seq!["ao"@, "service"@, service_name_actions()[i]], 1))
                ==> r is Nothing,
    {
        let actions = vec!["up", "down", "restart", "reload", "status"];
        let ghost names = service_name_actions();
        assert(str_views(actions@) =~= names);
        let mut i: usize = 0;
        while i < actions.len()
            invariant
                0 <= i <= 5,
                actions@.len() == 5,
                str_views(actions@) == names,
                names == service_name_actions(),
                forall|j: int| 0 <= j < i ==> !completing_arg(str_views(words@), seq!["ao"@, "service"@, names[j]], 1),
            decreases 5 - i,
        {
            let parts = vec!["ao", "service", actions[i]];
            assert(str_views(parts@) =~= seq!["ao"@, "service"@, names[i as int]]);
            if is_completing_arg(words, parts.as_slice(), 1, false) {
                return Completion::Services;
            }
            i += 1;
        }
        Completion::Nothing
    }

    /// The query that lists the service unit files.
    pub fn services_query() -> (r: SystemCommand)
        ensures
            r.runs("systemctl"@, seq!["list-unit-files"@, "--type=service"@, "--no-legend"@]),
    {
        SystemCommand::new("systemctl").arg("list-unit-files").arg("--type=service").arg("--no-legend")
    }

    /// The service names in the output of the unit-file query.
    pub fn get_services(stdout: &str) -> (r: Vec<String>)
        ensures
            string_views(r@) == first_fields(stdout@),
    {
        first_words(stdout)
    }
}

impl ServiceManager for Systemd {
    fn ls(&self, format: OutputFormat) -> (r: Result<AnyCommand, AoError>)
        ensures
            r == Ok::<AnyCommand, AoError>(AnyCommand::ServiceList(ServiceListCommand { format })),
    {
        Ok(AnyCommand::ServiceList(ServiceListCommand { format }))
    }

    fn up(&self, service: &str) -> (r: Result<AnyCommand, AoError>)
        ensures
            r matches Ok(c) && c is ServiceUp && service_of(c) == Some(service@),
    {
        Ok(AnyCommand::ServiceUp(ServiceUpCommand { service: String::from_str(service) }))
    }

    fn down(&self, service: &str) -> (r: Result<AnyCommand, AoError>)
        ensures
            r matches Ok(c) && c is ServiceDown && service_of(c) == Some(service@),
    {
        Ok(AnyCommand::ServiceDown(ServiceDownCommand { service: String::from_str(service) }))
    }

    fn restart(&self, service: &str) -> (r: Result<AnyCommand, AoError>)
        ensures
            r matches Ok(c) && c is ServiceRestart && service_of(c) == Some(service@),
    {
        Ok(AnyCommand::ServiceRestart(ServiceRestartCommand { service: String::from_str(service) }))
    }

    fn reload(&self, service: &str) -> (r: Result<AnyCommand, AoError>)
        ensures
            r matches Ok(c) && c is ServiceReload && service_of(c) == Some(service@),
    {
        Ok(AnyCommand::ServiceReload(ServiceReloadCommand { service: String::from_str(service) }))
    }

    fn status(&self, service: &str) -> (r: Result<AnyCommand, AoError>)
        ensures
            r matches Ok(c) && c is ServiceStatus && service_of(c) == Some(service@),
    {
        Ok(AnyCommand::ServiceStatus(ServiceStatusCommand { service: String::from_str(service) }))
    }
}

/// Lists the loaded services.
pub struct ServiceListCommand {
    pub format: OutputFormat,
}

impl ServiceInfo {
    /// The fields as they are shown: name, loaded, active, status and
    /// description.
    pub open spec fn cells(&self) -> Seq<Seq<char>> {
        seq![self.name@, self.loaded@, self.active@, self.status@, self.description@]
    }
}

/// The record that a line of the unit listing gives: lines with at least
/// five fields, the description being the fifth field on, rejoined by
/// single spaces.
pub open spec fn service_row(line: Seq<char>) -> Option<Seq<Seq<char>>> {
    let f = fields(line);
    if f.len() >= 5 {
        Some(seq![f[0], f[1], f[2], f[3], join(f.skip(4), " "@)])
    } else {
        None
    }
}

/// The service that a line of `systemctl list-units` describes takes its
/// columns in order: UNIT is the name, LOAD the load state, ACTIVE the
/// active state, SUB the status, and the rest of the line, its words joined
/// by single spaces, the description; a line with fewer than five words
/// describes no service.
pub proof fn lemma_unit_columns(line: Seq<char>, s: ServiceInfo)
    ensures
        service_row(line) is Some <==> fields(line).len() >= 5,
        service_row(line) == Some(s.cells()) ==> {
            let f = fields(line);
            &&& s.name@ == f[0]
            &&& s.loaded@ == f[1]
            &&& s.active@ == f[2]
            &&& s.status@ == f[3]
            &&& s.description@ == join(f.skip(4), " "@)
        },
{
    if service_row(line) == Some(s.cells()) {
        let c = s.cells();
        assert(c[0] == s.name@ && c[1] == s.loaded@ && c[2] == s.active@);
        assert(c[3] == s.status@ && c[4] == s.description@);
    }
}

pub open spec fn service_rows(out: Seq<char>) -> Seq<Seq<Seq<char>>> {
    filter_map(lines(out), |l: Seq<char>| service_row(l))
}

pub open spec fn service_cells(s: Seq<ServiceInfo>) -> Seq<Seq<Seq<char>>> {
    s.map_values(|x: ServiceInfo| x.cells())
}

impl ServiceListCommand {
    /// The command run for the original output.
    pub fn original(&self) -> (r: SystemCommand)
        ensures
            r.runs("systemctl"@, seq!["list-units"@, "--type=service"@]),
    {
        SystemCommand::new("systemctl").arg("list-units").arg("--type=service")
    }

    /// The command whose output is parsed.
    pub fn query(&self) -> (r: SystemCommand)
        ensures
            r.runs("systemctl"@, seq!["list-units"@, "--type=service"@, "--no-legend"@, "--no-pager"@]),
    {
        SystemCommand::new("systemctl").arg("list-units").arg("--type=service").arg("--no-legend").arg(
            "--no-pager",
        )
    }

    /// The services that the unit listing describes, in order.
    pub fn parse(stdout: &str) -> (r: Vec<ServiceInfo>)
        ensures
            service_cells(r@) == service_rows(stdout@),
    {
        let ls = lines_of(stdout);
        let ghost f = |l: Seq<char>| service_row(l);
        let mut out: Vec<ServiceInfo> = Vec::new();
        let mut i: usize = 0;
        while i < ls.len()
            invariant
                0 <= i <= ls.len(),
                views(ls@) == lines(stdout@),
                f == (|l: Seq<char>| service_row(l)),
                service_cells(out@) == filter_map(views(ls@).take(i as int), f),
            decreases ls.len() - i,
        {
            proof {
                lemma_filter_map_step(views(ls@), f, i as int);
            }
            let fs = split_whitespace(&ls[i]);
            if fs.len() >= 5 {
                let rest = parts_from(&fs, 4);
                let sep = vec![' '];
                assert(sep@ =~= " "@) by {
                    reveal_strlit(" ");
                }
                let desc = join_chars(&rest, &sep);
                let info = ServiceInfo {
                    name: string_of(&fs[0]),
                    loaded: string_of(&fs[1]),
                    active: string_of(&fs[2]),
                    status: string_of(&fs[3]),
                    description: string_of(&desc),
                };
                assert(info.cells() =~= service_row(views(ls@)[i as int]).unwrap());
                out.push(info);
                assert(service_cells(out@) =~= filter_map(views(ls@).take(i as int), f).push(info.cells()));
            }
            i += 1;
        }
        assert(views(ls@).take(ls.len() as int) =~= views(ls@));
        out
    }
}

impl ExecutableCommand for ServiceListCommand {
    open spec fn text(&self) -> Seq<char> {
        "systemctl list-units --type=service"@
    }

    open spec fn structured(&self) -> bool {
        is_structured_format(self.format)
    }

    fn as_string(&self) -> (r: String) {
        String::from_str("systemctl list-units --type=service")
    }

    fn is_structured(&self) -> (r: bool) {
        self.format.structured()
    }
}

/// Starts a service and enables it at boot.
pub struct ServiceUpCommand {
    pub service: String,
}

/// Stops a service and disables it at boot.
pub struct ServiceDownCommand {
    pub service: String,
}

/// Restarts a service.
pub struct ServiceRestartCommand {
    pub service: String,
}

/// Reloads a service's configuration.
pub struct ServiceReloadCommand {
    pub service: String,
}

/// Shows a service's status; its exit status reports the state and is no
/// failure.
pub struct ServiceStatusCommand {
    pub service: String,
}

/// A `systemctl` invocation on one service.
fn systemctl_on(verb: &str, now: bool, service: &String, tolerant: bool) -> (r: SystemCommand)
    ensures
        r.binary@ == "systemctl"@,
        r.argv() == (if now { seq![verb@, "--now"@, "--"@, service@] } else { seq![verb@, "--"@, service@] }),
        r.stdin_data is None,
        r.ignore_exit_code == tolerant,
{
    let mut c = SystemCommand::new("systemctl").arg(verb);
    if now {
        c = c.arg("--now");
    }
    c = c.arg("--").arg(service.as_str());
    if tolerant {
        c = c.ignore_exit_code();
    }
    c
}

/// The text of `systemctl` run with `argv`, in a few concrete shapes.
proof fn lemma_systemctl_line(verb: Seq<char>, now: bool, service: Seq<char>)
    ensures
        command_line("systemctl"@, if now { seq![verb, "--now"@, "--"@, service] } else { seq![verb, "--"@, service] })
            == "systemctl "@ + verb + (if now { " --now -- "@ } else { " -- "@ }) + service,
{
    reveal_strlit("systemctl");
    reveal_strlit("systemctl ");
    reveal_strlit(" ");
    reveal_strlit("--now");
    reveal_strlit("--");
    reveal_strlit(" --now -- ");
    reveal_strlit(" -- ");
    reveal_with_fuel(join, 5);
    let s = " "@;
    if now {
        let a = seq![verb, "--now"@, "--"@, service];
        assert(a.drop_last().drop_last().drop_last() =~= seq![verb]);
        assert(a.drop_last().drop_last() =~= seq![verb, "--now"@]);
        assert(a.drop_last() =~= seq![verb, "--now"@, "--"@]);
        assert(join(a, s) =~= verb + s + "--now"@ + s + "--"@ + s + service);
    } else {
        let a = seq![verb, "--"@, service];
        assert(a.drop_last().drop_last() =~= seq![verb]);
        assert(a.drop_last() =~= seq![verb, "--"@]);
        assert(join(a, s) =~= verb + s + "--"@ + s + service);
    }
    assert(command_line("systemctl"@, if now { seq![verb, "--now"@, "--"@, service] } else { seq![verb, "--"@, service] })
        =~= "systemctl "@ + verb + (if now { " --now -- "@ } else { " -- "@ }) + service);
}

impl ServiceUpCommand {
    /// The command that is run; its text is the text shown.
    pub fn plan(&self) -> (r: SystemCommand)
        ensures
            r.runs("systemctl"@, seq!["enable"@, "--now"@, "--"@, self.service@]),
            r.text() == self.text(),
    {
        proof {
            lemma_systemctl_line("enable"@, true, self.service@);
            reveal_strlit("enable");
            reveal_strlit("systemctl ");
            reveal_strlit(" --now -- ");
            reveal_strlit("systemctl enable --now -- ");
            assert("systemctl "@ + "enable"@ + " --now -- "@ =~= "systemctl enable --now -- "@);
        }
        systemctl_on("enable", true, &self.service, false)
    }
}

impl ExecutableCommand for ServiceUpCommand {
    open spec fn text(&self) -> Seq<char> {
        "systemctl enable --now -- "@ + self.service@
    }

    open spec fn structured(&self) -> bool {
        false
    }

    fn as_string(&self) -> (r: String) {
        let mut s = String::from_str("systemctl enable --now -- ");
        s.append(self.service.as_str());
        s
    }

    fn is_structured(&self) -> (r: bool) {
        false
    }
}

impl ServiceDownCommand {
    /// The command that is run; its text is the text shown.
    pub fn plan(&self) -> (r: SystemCommand)
        ensures
            r.runs("systemctl"@, seq!["disable"@, "--now"@, "--"@, self.service@]),
            r.text() == self.text(),
    {
        proof {
            lemma_systemctl_line("disable"@, true, self.service@);
            reveal_strlit("disable");
            reveal_strlit("systemctl ");
            reveal_strlit(" --now -- ");
            reveal_strlit("systemctl disable --now -- ");
            assert("systemctl "@ + "disable"@ + " --now -- "@ =~= "systemctl disable --now -- "@);
        }
        systemctl_on("disable", true, &self.service, false)
    }
}

impl ExecutableCommand for ServiceDownCommand {
    open spec fn text(&self) -> Seq<char> {
        "systemctl disable --now -- "@ + self.service@
    }

    open spec fn structured(&self) -> bool {
        false
    }

    fn as_string(&self) -> (r: String) {
        let mut s = String::from_str("systemctl disable --now -- ");
        s.append(self.service.as_str());
        s
    }

    fn is_structured(&self) -> (r: bool) {
        false
    }
}

impl ServiceRestartCommand {
    /// The command that is run; its text is the text shown.
    pub fn plan(&self) -> (r: SystemCommand)
        ensures
            r.runs("systemctl"@, seq!["restart"@, "--"@, self.service@]),
            r.text() == self.text(),
    {
        proof {
            lemma_systemctl_line("restart"@, false, self.service@);
            reveal_strlit("restart");
            reveal_strlit("systemctl ");
            reveal_strlit(" -- ");
            reveal_strlit("systemctl restart -- ");
            assert("systemctl "@ + "restart"@ + " -- "@ =~= "systemctl restart -- "@);
        }
        systemctl_on("restart", false, &self.service, false)
    }
}

impl ExecutableCommand for ServiceRestartCommand {
    open spec fn text(&self) -> Seq<char> {
        "systemctl restart -- "@ + self.service@
    }

    open spec fn structured(&self) -> bool {
        false
    }

    fn as_string(&self) -> (r: String) {
        let mut s = String::from_str("systemctl restart -- ");
        s.append(self.service.as_str());
        s
    }

    fn is_structured(&self) -> (r: bool) {
        false
    }
}

impl ServiceReloadCommand {
    /// The command that is run; its text is the text shown.
    pub fn plan(&self) -> (r: SystemCommand)
        ensures
            r.runs("systemctl"@, seq!["reload"@, "--"@, self.service@]),
            r.text() == self.text(),
    {
        proof {
            lemma_systemctl_line("reload"@, false, self.service@);
            reveal_strlit("reload");
            reveal_strlit("systemctl ");
            reveal_strlit(" -- ");
            reveal_strlit("systemctl reload -- ");
            assert("systemctl "@ + "reload"@ + " -- "@ =~= "systemctl reload -- "@);
        }
        systemctl_on("reload", false, &self.service, false)
    }
}

impl ExecutableCommand for ServiceReloadCommand {
    open spec fn text(&self) -> Seq<char> {
        "systemctl reload -- "@ + self.service@
    }

    open spec fn structured(&self) -> bool {
        false
    }

    fn as_string(&self) -> (r: String) {
        let mut s = String::from_str("systemctl reload -- ");
        s.append(self.service.as_str());
        s
    }

    fn is_structured(&self) -> (r: bool) {
        false
    }
}

impl ServiceStatusCommand {
    /// The command that is run, whatever its exit status; its text is the
    /// text shown.
    pub fn plan(&self) -> (r: SystemCommand)
        ensures
            r.binary@ == "systemctl"@,
            r.argv() == seq!["status"@, "--"@, self.service@],
            r.stdin_data is None,
            r.ignore_exit_code,
            r.text() == self.text(),
    {
        proof {
            lemma_systemctl_line("status"@, false, self.service@);
            reveal_strlit("status");
            reveal_strlit("systemctl ");
            reveal_strlit(" -- ");
            reveal_strlit("systemctl status -- ");
            assert("systemctl "@ + "status"@ + " -- "@ =~= "systemctl status -- "@);
        }
        systemctl_on("status", false, &self.service, true)
    }
}

impl ExecutableCommand for ServiceStatusCommand {
    open spec fn text(&self) -> Seq<char> {
        "systemctl status -- "@ + self.service@
    }

    open spec fn structured(&self) -> bool {
        false
    }

    fn as_string(&self) -> (r: String) {
        let mut s = String::from_str("systemctl status -- ");
        s.append(self.service.as_str());
        s
    }

    fn is_structured(&self) -> (r: bool) {
        false
    }
}

} // verus!
