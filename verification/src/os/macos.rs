//! The domains on macOS, built on Homebrew, `launchctl`, `dscl`,
//! `networksetup`, `diskutil` and the other tools that ship with the system.
use vstd::prelude::*;

use crate::cli::{
    BootAction, BootArgs, BootModuleAction, CompletionsAction, DiskAction, DiskArgs, DistributionAction,
    DistributionArgs, FirewallAction, GuiAction, GuiArgs, GuiDisplayAction, LogAction, LogArgs, SecurityAction,
    SecurityArgs, SelfAction, SelfArgs, GroupAction, GroupArgs, NetworkAction, NetworkArgs, OutputFormat,
    PackageAction, PackageArgs, PartitionAction, PartitionArgs, ServiceAction, ServiceArgs, SystemAction,
    SystemArgs, UserAction, UserArgs, VirtualizationAction, VirtualizationArgs, WifiAction,
};
use crate::num::{dec, dec_string, parse_uint, parse_uint_chars};
use crate::os::linux_generic::common::{CompoundCommand, NoopCommand, Step, SystemCommand, bytes_text, format_bytes};
use crate::os::linux_generic::user::{trimmed_lines, trimmed_lines_of};
use crate::os::{
    AnyCommand, AoError, BootManager, ContainerInfo, DiskManager, DistroManager, ExecutableCommand, GroupManager,
    GuiManager, LogManager, MonitorManager, SecManager,
    NetInterfaceInfo, NetManager, PackageManager, PartitionManager, ServiceManager, SysInfoData, SysManager,
    UserManager, UserSessionInfo, VirtManager,
};
use crate::text::{
    cat, chars_of, contains_char, fields, filter_map, has_prefix, join, join_chars, lemma_filter_map_step,
    lemma_split_count, lines, lines_of, owned, parts_from, split_char, split_on, split_whitespace, starts_with,
    str_eq, string_of, string_views, trim, trim_ws, views,
};

verus! {

/// The macOS system as a whole.
#[derive(Default)]
pub struct MacOS;

impl MacOS {
    pub fn new() -> (r: MacOS) {
        MacOS
    }
}

/// A borrowed view of an optional string.
fn opt_str(o: &Option<String>) -> (r: Option<&str>)
    ensures
        match *o {
            Some(s) => r matches Some(t) && t@ == s@,
            None => r is None,
        },
{
    match o {
        Some(s) => Some(s.as_str()),
        None => None,
    }
}

/// The arguments of the Homebrew listing: the JSON inventory for the
/// structured formats, the plain list with versions otherwise.
pub open spec fn brew_list_argv(format: OutputFormat) -> Seq<Seq<char>> {
    if format == OutputFormat::Json || format == OutputFormat::Yaml {
        seq!["info"@, "--json=v2"@, "--installed"@]
    } else {
        seq!["list"@, "--versions"@]
    }
}

/// Packages with Homebrew.
pub struct MacOSPackage;

impl MacOSPackage {
    /// The domain's name.
    pub fn domain_name(&self) -> (r: &'static str)
        ensures
            r@ == "package"@,
    {
        "package"
    }

    /// The manager's name.
    pub fn name(&self) -> (r: &'static str)
        ensures
            r@ == "homebrew"@,
    {
        "homebrew"
    }

    /// `brew`, the program behind every package command.
    pub fn cmd(&self) -> (r: SystemCommand)
        ensures
            r.runs("brew"@, seq![]),
    {
        SystemCommand::new("brew")
    }

    /// Maps a parsed `package` invocation to its command.
    pub fn execute(&self, args: &PackageArgs) -> (r: Result<AnyCommand, AoError>)
        ensures
            r matches Ok(AnyCommand::System(c)) && match args.action {
                Some(PackageAction::Update) => c.runs("brew"@, seq!["update"@]),
                Some(PackageAction::Add { packages }) => c.runs("brew"@, seq!["install"@] + string_views(packages@)),
                Some(PackageAction::Delete { packages, purge }) =>
                    c.runs("brew"@, seq!["uninstall"@] + string_views(packages@)),
                Some(PackageAction::Search { query }) => c.runs("brew"@, seq!["search"@, query@]),
                Some(PackageAction::List { format }) => c.runs("brew"@, brew_list_argv(format)),
                None => c.runs("brew"@, brew_list_argv(OutputFormat::Table)),
            },
    {
        match &args.action {
            Some(PackageAction::Update) => self.update(),
            Some(PackageAction::Add { packages }) => self.add(packages.as_slice()),
            Some(PackageAction::Delete { packages, purge: _ }) => self.del(packages.as_slice(), false),
            Some(PackageAction::Search { query }) => self.search(query.as_str()),
            Some(PackageAction::List { format }) => self.ls(*format),
            None => self.ls(OutputFormat::Table),
        }
    }

    /// The query that lists the installed formulae.
    pub fn installed_query() -> (r: SystemCommand)
        ensures
            r.runs("brew"@, seq!["list"@]),
    {
        SystemCommand::new("brew").arg("list")
    }

    /// The installed formulae: the lines of the query's output, trimmed.
    pub fn get_installed_packages(stdout: &str) -> (r: Vec<String>)
        ensures
            string_views(r@) == trimmed_lines(stdout@),
    {
        trimmed_lines_of(stdout)
    }
}

impl PackageManager for MacOSPackage {
    open spec fn update_result(&self, r: Result<AnyCommand, AoError>) -> bool {
        r matches Ok(AnyCommand::System(c)) && c.runs("brew"@, seq!["update"@])
    }

    open spec fn add_result(&self, packages: Seq<Seq<char>>, r: Result<AnyCommand, AoError>) -> bool {
        r matches Ok(AnyCommand::System(c)) && c.runs("brew"@, seq!["install"@] + packages)
    }

    open spec fn del_result(&self, packages: Seq<Seq<char>>, purge: bool, r: Result<AnyCommand, AoError>) -> bool {
        r matches Ok(AnyCommand::System(c)) && c.runs("brew"@, seq!["uninstall"@] + packages)
    }

    open spec fn search_result(&self, query: Seq<char>, r: Result<AnyCommand, AoError>) -> bool {
        r matches Ok(AnyCommand::System(c)) && c.runs("brew"@, seq!["search"@, query])
    }

    open spec fn ls_result(&self, format: OutputFormat, r: Result<AnyCommand, AoError>) -> bool {
        r matches Ok(AnyCommand::System(c)) && c.runs("brew"@, brew_list_argv(format))
    }

    fn update(&self) -> (r: Result<AnyCommand, AoError>) {
        Ok(AnyCommand::System(self.cmd().arg("update")))
    }

    fn add(&self, packages: &[String]) -> (r: Result<AnyCommand, AoError>) {
        Ok(AnyCommand::System(self.cmd().arg("install").args(packages)))
    }

    /// Homebrew has no purge: both forms uninstall.
    fn del(&self, packages: &[String], purge: bool) -> (r: Result<AnyCommand, AoError>) {
        Ok(AnyCommand::System(self.cmd().arg("uninstall").args(packages)))
    }

    fn search(&self, query: &str) -> (r: Result<AnyCommand, AoError>) {
        Ok(AnyCommand::System(self.cmd().arg("search").arg(query)))
    }

    fn ls(&self, format: OutputFormat) -> (r: Result<AnyCommand, AoError>) {
        if matches!(format, OutputFormat::Json) || matches!(format, OutputFormat::Yaml) {
            Ok(AnyCommand::System(self.cmd().arg("info").arg("--json=v2").arg("--installed")))
        } else {
            Ok(AnyCommand::System(self.cmd().arg("list").arg("--versions")))
        }
    }
}

/// Whether `c` is the `launchctl` command with exactly `argv`.
pub open spec fn launchctl(c: AnyCommand, argv: Seq<Seq<char>>) -> bool {
    c matches AnyCommand::System(s) && s.runs("launchctl"@, argv)
}

/// Whether `c` unloads and then loads `service`, persistently.
pub open spec fn launchctl_cycle(c: AnyCommand, service: Seq<char>) -> bool {
    &&& c matches AnyCommand::Compound(k)
    &&& k.commands@.len() == 2
    &&& k.commands@[0] matches Step::Run(d) && d.runs("launchctl"@, seq!["unload"@, "-w"@, service])
    &&& k.commands@[1] matches Step::Run(u) && u.runs("launchctl"@, seq!["load"@, "-w"@, service])
}

/// Services with `launchctl`.
pub struct MacOSService;

impl MacOSService {
    /// The domain's name.
    pub fn name(&self) -> (r: &'static str)
        ensures
            r@ == "service"@,
    {
        "service"
    }

    /// Maps a parsed `service` invocation to its command.
    pub fn execute(&self, args: &ServiceArgs) -> (r: Result<AnyCommand, AoError>)
        ensures
            r matches Ok(c) && match args.action {
                Some(ServiceAction::List { format }) => launchctl(c, seq!["list"@]),
                Some(ServiceAction::Up { name }) => launchctl(c, seq!["load"@, "-w"@, name@]),
                Some(ServiceAction::Down { name }) => launchctl(c, seq!["unload"@, "-w"@, name@]),
                Some(ServiceAction::Restart { name }) => launchctl_cycle(c, name@),
                Some(ServiceAction::Reload { name }) => launchctl_cycle(c, name@),
                Some(ServiceAction::Status { name }) => launchctl(c, seq!["list"@, name@]),
                None => launchctl(c, seq!["list"@]),
            },
    {
        match &args.action {
            Some(ServiceAction::List { format }) => self.ls(*format),
            Some(ServiceAction::Up { name }) => self.up(name.as_str()),
            Some(ServiceAction::Down { name }) => self.down(name.as_str()),
            Some(ServiceAction::Restart { name }) => self.restart(name.as_str()),
            Some(ServiceAction::Reload { name }) => self.reload(name.as_str()),
            Some(ServiceAction::Status { name }) => self.status(name.as_str()),
            None => self.ls(OutputFormat::Table),
        }
    }

    fn unload(service: &str) -> (r: SystemCommand)
        ensures
            r.runs("launchctl"@, seq!["unload"@, "-w"@, service@]),
    {
        SystemCommand::new("launchctl").arg("unload").arg("-w").arg(service)
    }

    fn load(service: &str) -> (r: SystemCommand)
        ensures
            r.runs("launchctl"@, seq!["load"@, "-w"@, service@]),
    {
        SystemCommand::new("launchctl").arg("load").arg("-w").arg(service)
    }
}

impl ServiceManager for MacOSService {
    fn ls(&self, format: OutputFormat) -> (r: Result<AnyCommand, AoError>)
        ensures
            r matches Ok(c) && launchctl(c, seq!["list"@]),
    {
        Ok(AnyCommand::System(SystemCommand::new("launchctl").arg("list")))
    }

    fn up(&self, service: &str) -> (r: Result<AnyCommand, AoError>)
        ensures
            r matches Ok(c) && launchctl(c, seq!["load"@, "-w"@, service@]),
    {
        Ok(AnyCommand::System(MacOSService::load(service)))
    }

    fn down(&self, service: &str) -> (r: Result<AnyCommand, AoError>)
        ensures
            r matches Ok(c) && launchctl(c, seq!["unload"@, "-w"@, service@]),
    {
        Ok(AnyCommand::System(MacOSService::unload(service)))
    }

    /// Unloads, then loads again.
    fn restart(&self, service: &str) -> (r: Result<AnyCommand, AoError>)
        ensures
            r matches Ok(c) && launchctl_cycle(c, service@),
    {
        let steps = vec![Step::Run(MacOSService::unload(service)), Step::Run(MacOSService::load(service))];
        Ok(AnyCommand::Compound(CompoundCommand::new(steps)))
    }

    /// The same as a restart.
    fn reload(&self, service: &str) -> (r: Result<AnyCommand, AoError>)
        ensures
            r matches Ok(c) && launchctl_cycle(c, service@),
    {
        self.restart(service)
    }

    fn status(&self, service: &str) -> (r: Result<AnyCommand, AoError>)
        ensures
            r matches Ok(c) && launchctl(c, seq!["list"@, service@]),
    {
        Ok(AnyCommand::System(SystemCommand::new("launchctl").arg("list").arg(service)))
    }
}

/// Whether `c` is `dscl` on the local directory with exactly `argv`.
pub open spec fn dscl(c: AnyCommand, argv: Seq<Seq<char>>) -> bool {
    c matches AnyCommand::System(s) && s.runs("dscl"@, seq!["."@] + argv)
}

/// A `dscl` command on the local directory.
fn dscl_cmd() -> (r: SystemCommand)
    ensures
        r.runs("dscl"@, seq!["."@]),
{
    SystemCommand::new("dscl").arg(".")
}

/// The fields of a line of `last`: user, terminal, host, the rest as the
/// start; lines of fewer than four fields are skipped.
pub open spec fn last_row(line: Seq<char>) -> Option<Seq<Seq<char>>> {
    let p = fields(line);
    if p.len() >= 4 {
        Some(seq![p[0], p[1], p[2], join(p.skip(3), " "@), seq![], seq![]])
    } else {
        None
    }
}

pub open spec fn last_rows(out: Seq<char>) -> Seq<Seq<Seq<char>>> {
    filter_map(lines(out), |l: Seq<char>| last_row(l))
}

/// The arguments of the `last` query: a count, then a user.
pub open spec fn last_argv(username: Option<Seq<char>>, n: Option<u32>) -> Seq<Seq<char>> {
    let a: Seq<Seq<char>> = match n {
        Some(k) => seq!["-n"@, dec(k as nat)],
        None => seq![],
    };
    match username {
        Some(u) => a.push(u),
        None => a,
    }
}

/// The names of a directory listing, trimmed, without the system accounts
/// whose names begin with `_`.
pub open spec fn visible_names(out: Seq<char>) -> Seq<Seq<char>> {
    filter_map(
        lines(out),
        |l: Seq<char>| if trim(l).len() > 0 && trim(l)[0] == '_' { None } else { Some(trim(l)) },
    )
}

/// The trimmed lines of `stdout` that do not begin with `_`.
fn visible_names_of(stdout: &str) -> (r: Vec<String>)
    ensures
        string_views(r@) == visible_names(stdout@),
{
    let ls = lines_of(stdout);
    let ghost f = |l: Seq<char>| if trim(l).len() > 0 && trim(l)[0] == '_' { None } else { Some(trim(l)) };
    let mut out: Vec<String> = Vec::new();
    let mut i: usize = 0;
    while i < ls.len()
        invariant
            0 <= i <= ls.len(),
            views(ls@) == lines(stdout@),
            f == (|l: Seq<char>| if trim(l).len() > 0 && trim(l)[0] == '_' { None } else { Some(trim(l)) }),
            string_views(out@) == filter_map(views(ls@).take(i as int), f),
        decreases ls.len() - i,
    {
        proof {
            lemma_filter_map_step(views(ls@), f, i as int);
        }
        let t = trim_ws(&ls[i]);
        if !(t.len() > 0 && t[0] == '_') {
            out.push(string_of(&t));
            assert(string_views(out@) =~= filter_map(views(ls@).take(i as int), f).push(t@));
        }
        i += 1;
    }
    assert(views(ls@).take(ls.len() as int) =~= views(ls@));
    out
}

/// Users with `dscl`.
pub struct MacOSUser;

impl MacOSUser {
    /// The domain's name.
    pub fn name(&self) -> (r: &'static str)
        ensures
            r@ == "user"@,
    {
        "user"
    }

    /// Maps a parsed `user` invocation to its command.
    pub fn execute(&self, args: &UserArgs) -> (r: Result<AnyCommand, AoError>)
        ensures
            r matches Ok(c) && match args.action {
                Some(UserAction::List { all, groups, format }) => dscl(c, seq!["-list"@, "/Users"@]),
                Some(UserAction::Add { username, name, email, groups, shell, system, no_create_home }) =>
                    dscl(c, seq!["-create"@, "/Users/"@ + username@]),
                Some(UserAction::Delete { username, purge }) => dscl(c, seq!["-delete"@, "/Users/"@ + username@]),
                Some(UserAction::Modify { username, action, value }) =>
                    dscl(c, seq!["-create"@, "/Users/"@ + username@, action@, value@]),
                Some(UserAction::Passwd { username }) =>
                    c matches AnyCommand::System(s) && s.runs("passwd"@, seq![username@]),
                Some(UserAction::Session { username, all, n, format }) =>
                    c matches AnyCommand::System(s) && s.runs("last"@, seq![]),
                None => dscl(c, seq!["-list"@, "/Users"@]),
            },
    {
        match &args.action {
            Some(UserAction::List { all, groups, format }) => self.list(*all, *groups, *format),
            Some(UserAction::Add { username, name, email, groups, shell, system, no_create_home }) => self.add(
                username.as_str(),
                opt_str(name),
                opt_str(email),
                opt_str(groups),
                opt_str(shell),
                *system,
                *no_create_home,
            ),
            Some(UserAction::Delete { username, purge }) => self.delete(username.as_str(), *purge),
            Some(UserAction::Modify { username, action, value }) => self.modify_user(
                username.as_str(),
                action.as_str(),
                value.as_str(),
            ),
            Some(UserAction::Passwd { username }) => self.passwd(username.as_str()),
            Some(UserAction::Session { username, all, n, format }) => self.session(opt_str(username), *all, *n, *format),
            None => self.list(false, false, OutputFormat::Table),
        }
    }

    /// The query behind the session records: `last`, limited to `n` entries
    /// and to one user where they are given.
    pub fn sessions_query(username: Option<&str>, n: Option<u32>) -> (r: SystemCommand)
        ensures
            r.runs(
                "last"@,
                last_argv(
                    match username {
                        Some(u) => Some(u@),
                        None => None,
                    },
                    n,
                ),
            ),
    {
        let mut c = SystemCommand::new("last");
        match n {
            Some(k) => {
                let t = dec_string(k as u64);
                c = c.arg("-n").arg(t.as_str());
            },
            None => {},
        }
        match username {
            Some(u) => {
                c = c.arg(u);
            },
            None => {},
        }
        c
    }

    /// The session records in the output of `last`.
    pub fn get_sessions(stdout: &str) -> (r: Vec<UserSessionInfo>)
        ensures
            r@.len() == last_rows(stdout@).len(),
            forall|i: int| 0 <= i < r@.len() ==> (#[trigger] r@[i]).cells() == last_rows(stdout@)[i],
    {
        let ls = lines_of(stdout);
        let ghost f = |l: Seq<char>| last_row(l);
        let sep = chars_of(" ");
        let mut out: Vec<UserSessionInfo> = Vec::new();
        let ghost mut cells: Seq<Seq<Seq<char>>> = seq![];
        let mut i: usize = 0;
        while i < ls.len()
            invariant
                0 <= i <= ls.len(),
                views(ls@) == lines(stdout@),
                sep@ == " "@,
                f == (|l: Seq<char>| last_row(l)),
                cells == filter_map(views(ls@).take(i as int), f),
                out@.len() == cells.len(),
                forall|j: int| 0 <= j < out@.len() ==> (#[trigger] out@[j]).cells() == cells[j],
            decreases ls.len() - i,
        {
            proof {
                lemma_filter_map_step(views(ls@), f, i as int);
            }
            let p = split_whitespace(&ls[i]);
            if p.len() >= 4 {
                let rest = parts_from(&p, 3);
                let start = join_chars(&rest, &sep);
                let s = UserSessionInfo {
                    username: string_of(&p[0]),
                    line: string_of(&p[1]),
                    host: string_of(&p[2]),
                    start: string_of(&start),
                    end: String::new(),
                    duration: String::new(),
                };
                proof {
                    assert(s.cells() =~= last_row(views(ls@)[i as int]).unwrap());
                    cells = cells.push(s.cells());
                }
                out.push(s);
            }
            i += 1;
        }
        assert(views(ls@).take(ls.len() as int) =~= views(ls@));
        out
    }

    /// The query that lists the accounts.
    pub fn users_query() -> (r: SystemCommand)
        ensures
            r.runs("dscl"@, seq!["."@, "-list"@, "/Users"@]),
    {
        dscl_cmd().arg("-list").arg("/Users")
    }

    /// The account names, without the system accounts.
    pub fn get_users(stdout: &str) -> (r: Vec<String>)
        ensures
            string_views(r@) == visible_names(stdout@),
    {
        visible_names_of(stdout)
    }
}

impl UserManager for MacOSUser {
    fn list(&self, all: bool, groups: bool, format: OutputFormat) -> (r: Result<AnyCommand, AoError>)
        ensures
            r matches Ok(c) && dscl(c, seq!["-list"@, "/Users"@]),
    {
        Ok(AnyCommand::System(dscl_cmd().arg("-list").arg("/Users")))
    }

    /// Creates the account record; the other details are not set.
    fn add(
        &self,
        username: &str,
        name: Option<&str>,
        email: Option<&str>,
        groups: Option<&str>,
        shell: Option<&str>,
        system: bool,
        no_create_home: bool,
    ) -> (r: Result<AnyCommand, AoError>)
        ensures
            r matches Ok(c) && dscl(c, seq!["-create"@, "/Users/"@ + username@]),
    {
        let path = cat("/Users/", username);
        Ok(AnyCommand::System(dscl_cmd().arg("-create").arg(path.as_str())))
    }

    fn delete(&self, username: &str, purge: bool) -> (r: Result<AnyCommand, AoError>)
        ensures
            r matches Ok(c) && dscl(c, seq!["-delete"@, "/Users/"@ + username@]),
    {
        let path = cat("/Users/", username);
        Ok(AnyCommand::System(dscl_cmd().arg("-delete").arg(path.as_str())))
    }

    /// Sets the attribute `action` of the account to `value`.
    fn modify_user(&self, username: &str, action: &str, value: &str) -> (r: Result<AnyCommand, AoError>)
        ensures
            r matches Ok(c) && dscl(c, seq!["-create"@, "/Users/"@ + username@, action@, value@]),
    {
        let path = cat("/Users/", username);
        Ok(AnyCommand::System(dscl_cmd().arg("-create").arg(path.as_str()).arg(action).arg(value)))
    }

    fn passwd(&self, username: &str) -> (r: Result<AnyCommand, AoError>)
        ensures
            r matches Ok(c) && c matches AnyCommand::System(s) && s.runs("passwd"@, seq![username@]),
    {
        Ok(AnyCommand::System(SystemCommand::new("passwd").arg(username)))
    }

    /// The login history, as `last` prints it.
    fn session(&self, username: Option<&str>, all: bool, n: Option<u32>, format: OutputFormat) -> (r: Result<
        AnyCommand,
        AoError,
    >)
        ensures
            r matches Ok(c) && c matches AnyCommand::System(s) && s.runs("last"@, seq![]),
    {
        Ok(AnyCommand::System(SystemCommand::new("last")))
    }
}

/// Groups with `dscl`.
pub struct MacOSGroup;

impl MacOSGroup {
    /// The domain's name.
    pub fn name(&self) -> (r: &'static str)
        ensures
            r@ == "group"@,
    {
        "group"
    }

    /// Maps a parsed `group` invocation to its command.
    pub fn execute(&self, args: &GroupArgs) -> (r: Result<AnyCommand, AoError>)
        ensures
            r matches Ok(c) && match args.action {
                Some(GroupAction::List { format }) => dscl(c, seq!["-list"@, "/Groups"@]),
                Some(GroupAction::Add { groupname }) => dscl(c, seq!["-create"@, "/Groups/"@ + groupname@]),
                Some(GroupAction::Delete { groupname }) => dscl(c, seq!["-delete"@, "/Groups/"@ + groupname@]),
                Some(GroupAction::Modify { groupname, gid }) =>
                    dscl(c, seq!["-create"@, "/Groups/"@ + groupname@, "PrimaryGroupID"@, dec(gid as nat)]),
                None => dscl(c, seq!["-list"@, "/Groups"@]),
            },
    {
        match &args.action {
            Some(GroupAction::List { format }) => self.ls(*format),
            Some(GroupAction::Add { groupname }) => self.add(groupname.as_str()),
            Some(GroupAction::Delete { groupname }) => self.del(groupname.as_str()),
            Some(GroupAction::Modify { groupname, gid }) => self.mod_group(groupname.as_str(), *gid),
            None => self.ls(OutputFormat::Table),
        }
    }

    /// The query that lists the groups.
    pub fn groups_query() -> (r: SystemCommand)
        ensures
            r.runs("dscl"@, seq!["."@, "-list"@, "/Groups"@]),
    {
        dscl_cmd().arg("-list").arg("/Groups")
    }

    /// The group names, without the system groups.
    pub fn get_groups(stdout: &str) -> (r: Vec<String>)
        ensures
            string_views(r@) == visible_names(stdout@),
    {
        visible_names_of(stdout)
    }
}

impl GroupManager for MacOSGroup {
    fn ls(&self, format: OutputFormat) -> (r: Result<AnyCommand, AoError>)
        ensures
            r matches Ok(c) && dscl(c, seq!["-list"@, "/Groups"@]),
    {
        Ok(AnyCommand::System(dscl_cmd().arg("-list").arg("/Groups")))
    }

    fn add(&self, groupname: &str) -> (r: Result<AnyCommand, AoError>)
        ensures
            r matches Ok(c) && dscl(c, seq!["-create"@, "/Groups/"@ + groupname@]),
    {
        let path = cat("/Groups/", groupname);
        Ok(AnyCommand::System(dscl_cmd().arg("-create").arg(path.as_str())))
    }

    fn del(&self, groupname: &str) -> (r: Result<AnyCommand, AoError>)
        ensures
            r matches Ok(c) && dscl(c, seq!["-delete"@, "/Groups/"@ + groupname@]),
    {
        let path = cat("/Groups/", groupname);
        Ok(AnyCommand::System(dscl_cmd().arg("-delete").arg(path.as_str())))
    }

    /// Sets the group's primary id.
    fn mod_group(&self, groupname: &str, gid: u32) -> (r: Result<AnyCommand, AoError>)
        ensures
            r matches Ok(c) && dscl(c, seq!["-create"@, "/Groups/"@ + groupname@, "PrimaryGroupID"@, dec(gid as nat)]),
    {
        let path = cat("/Groups/", groupname);
        let g = dec_string(gid as u64);
        Ok(AnyCommand::System(dscl_cmd().arg("-create").arg(path.as_str()).arg("PrimaryGroupID").arg(g.as_str())))
    }
}

/// Whether `c` is `program` run with exactly `argv`.
pub open spec fn runs_cmd(c: AnyCommand, program: Seq<char>, argv: Seq<Seq<char>>) -> bool {
    c matches AnyCommand::System(s) && s.runs(program, argv)
}

/// The firewall tool of macOS.
pub open spec fn socketfilterfw() -> Seq<char> {
    "/usr/libexec/ApplicationFirewall/socketfilterfw"@
}

/// The Wi-Fi scanner of macOS.
pub open spec fn airport() -> Seq<char> {
    "/System/Library/PrivateFrameworks/Apple80211.framework/Versions/Current/Resources/airport"@
}

/// An interface as `ifconfig` describes it: name, hardware address and the
/// IPv4 addresses.
pub type IfaceModel = (Seq<char>, Seq<char>, Seq<Seq<char>>);

/// Whether a line of `ifconfig` opens an interface: it has a `:` and does
/// not begin with a tab.
pub open spec fn opens_iface(line: Seq<char>) -> bool {
    line.contains(':') && !(line.len() > 0 && line[0] == '\t')
}

/// The second whitespace-separated word, or nothing.
pub open spec fn second_word(t: Seq<char>) -> Seq<char> {
    if fields(t).len() > 1 {
        fields(t)[1]
    } else {
        seq![]
    }
}

/// The interfaces finished so far and the one being read, after `ls`.
pub open spec fn ifconfig_scan(ls: Seq<Seq<char>>) -> (Seq<IfaceModel>, Option<IfaceModel>)
    decreases ls.len(),
{
    if ls.len() == 0 {
        (seq![], None)
    } else {
        let (done, cur) = ifconfig_scan(ls.drop_last());
        let line = ls.last();
        if opens_iface(line) {
            let done2 = match cur {
                Some(c) => done.push(c),
                None => done,
            };
            (done2, Some((split_on(line, ':')[0], seq![], seq![])))
        } else {
            match cur {
                None => (done, None),
                Some(c) => {
                    let t = trim(line);
                    if starts_with(t, "inet "@) {
                        (done, Some((c.0, c.1, c.2.push(second_word(t)))))
                    } else if starts_with(t, "ether "@) {
                        (done, Some((c.0, second_word(t), c.2)))
                    } else {
                        (done, Some(c))
                    }
                },
            }
        }
    }
}

/// The interfaces that `ifconfig` prints, in order.
pub open spec fn ifconfig_interfaces(out: Seq<char>) -> Seq<IfaceModel> {
    let (done, cur) = ifconfig_scan(lines(out));
    match cur {
        Some(c) => done.push(c),
        None => done,
    }
}

/// Whether `i` is the record of `m`: every interface is reported up, with
/// the usual MTU, as physical.
pub open spec fn iface_matches(i: NetInterfaceInfo, m: IfaceModel) -> bool {
    &&& i.name@ == m.0
    &&& i.mac@ == m.1
    &&& string_views(i.ips@) == m.2
    &&& i.state@ == "UP"@
    &&& i.mtu == 1500
    &&& i.interface_type@ == "Physical"@
}

/// The second word of `t`, or an empty string.
fn second_word_of(t: &Vec<char>) -> (r: String)
    ensures
        r@ == second_word(t@),
{
    let f = split_whitespace(t);
    if f.len() > 1 {
        string_of(&f[1])
    } else {
        String::new()
    }
}

/// Networking with `networksetup`, `ifconfig`, `netstat` and the
/// application firewall.
pub struct MacOSNet;

impl MacOSNet {
    /// The domain's name.
    pub fn name(&self) -> (r: &'static str)
        ensures
            r@ == "network"@,
    {
        "network"
    }

    /// Maps a parsed `network` invocation to its command; the firewall
    /// rules are refused.
    pub fn execute(&self, args: &NetworkArgs) -> (r: Result<AnyCommand, AoError>)
        ensures
            match args.action {
                Some(NetworkAction::Interfaces { format }) => r matches Ok(c)
                    && runs_cmd(c, "networksetup"@, seq!["-listallnetworkservices"@]),
                Some(NetworkAction::Ips { format }) => r matches Ok(c) && runs_cmd(c, "ifconfig"@, seq![]),
                Some(NetworkAction::Routes { format }) => r matches Ok(c) && runs_cmd(c, "netstat"@, seq!["-nr"@]),
                Some(NetworkAction::Firewall { action }) => match action {
                    FirewallAction::Status { format } => r matches Ok(c)
                        && runs_cmd(c, socketfilterfw(), seq!["--getglobalstate"@]),
                    FirewallAction::Allow { rule } => r matches Err(e) && e.message@ == "Use socketfilterfw manually"@,
                    FirewallAction::Deny { rule } => r matches Err(e) && e.message@ == "Use socketfilterfw manually"@,
                },
                Some(NetworkAction::Wifi { action }) => match action {
                    WifiAction::Scan => r matches Ok(c) && runs_cmd(c, airport(), seq!["-s"@]),
                    WifiAction::Connect { ssid } => r matches Ok(c)
                        && runs_cmd(c, "networksetup"@, seq!["-setairportnetwork"@, "en0"@, ssid@]),
                },
                None => r matches Ok(c) && runs_cmd(c, "networksetup"@, seq!["-listallnetworkservices"@]),
            },
    {
        match &args.action {
            Some(NetworkAction::Interfaces { format }) => self.interfaces(*format),
            Some(NetworkAction::Ips { format }) => self.ips(*format),
            Some(NetworkAction::Routes { format }) => self.routes(*format),
            Some(NetworkAction::Firewall { action }) => match action {
                FirewallAction::Status { format } => self.fw_status(*format),
                FirewallAction::Allow { rule } => self.fw_allow(rule.as_str()),
                FirewallAction::Deny { rule } => self.fw_deny(rule.as_str()),
            },
            Some(NetworkAction::Wifi { action }) => match action {
                WifiAction::Scan => self.wifi_scan(),
                WifiAction::Connect { ssid } => self.wifi_connect(ssid.as_str()),
            },
            None => self.interfaces(OutputFormat::Table),
        }
    }

    /// The query whose output `get_interfaces` reads.
    pub fn interfaces_query() -> (r: SystemCommand)
        ensures
            r.runs("ifconfig"@, seq![]),
    {
        SystemCommand::new("ifconfig")
    }

    /// The interfaces in the output of `ifconfig`: a line with a `:` that
    /// does not begin with a tab opens one, named by the text before the
    /// `:`; within it, `inet` lines add an address and an `ether` line sets
    /// the hardware address.
    pub fn get_interfaces(stdout: &str) -> (r: Vec<NetInterfaceInfo>)
        ensures
            r@.len() == ifconfig_interfaces(stdout@).len(),
            forall|i: int| 0 <= i < r@.len() ==> iface_matches(#[trigger] r@[i], ifconfig_interfaces(stdout@)[i]),
    {
        let ls = lines_of(stdout);
        let inet = chars_of("inet ");
        let ether = chars_of("ether ");
        let mut done: Vec<NetInterfaceInfo> = Vec::new();
        let mut open = false;
        let mut name = String::new();
        let mut mac = String::new();
        let mut ips: Vec<String> = Vec::new();
        let mut i: usize = 0;
        while i < ls.len()
            invariant
                0 <= i <= ls.len(),
                views(ls@) == lines(stdout@),
                inet@ == "inet "@,
                ether@ == "ether "@,
                done@.len() == ifconfig_scan(views(ls@).take(i as int)).0.len(),
                forall|j: int|
                    0 <= j < done@.len() ==> iface_matches(
                        #[trigger] done@[j],
                        ifconfig_scan(views(ls@).take(i as int)).0[j],
                    ),
                open == ifconfig_scan(views(ls@).take(i as int)).1 is Some,
                open ==> ifconfig_scan(views(ls@).take(i as int)).1 == Some(
                    (name@, mac@, string_views(ips@)),
                ),
            decreases ls.len() - i,
        {
            let ghost before = views(ls@).take(i as int);
            let ghost after = views(ls@).take(i + 1 as int);
            assert(after.drop_last() =~= before);
            assert(after.last() == ls@[i as int]@);
            let line = &ls[i];
            let is_open_line = contains_char(line, ':') && !(line.len() > 0 && line[0] == '\t');
            if is_open_line {
                if open {
                    let finished = ips;
                    ips = Vec::new();
                    let f = NetInterfaceInfo {
                        name: name.clone(),
                        state: owned("UP"),
                        mtu: 1500,
                        mac: mac.clone(),
                        interface_type: owned("Physical"),
                        ips: finished,
                    };
                    done.push(f);
                }
                let p = split_char(line, ':');
                proof {
                    lemma_split_count(line@, ':');
                }
                name = string_of(&p[0]);
                mac = String::new();
                ips = Vec::new();
                open = true;
                assert(string_views(ips@) =~= seq![]);
            } else if open {
                let t = trim_ws(line);
                if has_prefix(&t, &inet) {
                    let w = second_word_of(&t);
                    ips.push(w);
                    assert(string_views(ips@) =~= ifconfig_scan(before).1.unwrap().2.push(w@));
                } else if has_prefix(&t, &ether) {
                    mac = second_word_of(&t);
                }
            }
            i += 1;
        }
        assert(views(ls@).take(ls.len() as int) =~= views(ls@));
        if open {
            let f = NetInterfaceInfo {
                name,
                state: owned("UP"),
                mtu: 1500,
                mac,
                interface_type: owned("Physical"),
                ips,
            };
            done.push(f);
        }
        done
    }
}

impl NetManager for MacOSNet {
    fn interfaces(&self, format: OutputFormat) -> (r: Result<AnyCommand, AoError>)
        ensures
            r matches Ok(c) && runs_cmd(c, "networksetup"@, seq!["-listallnetworkservices"@]),
    {
        Ok(AnyCommand::System(SystemCommand::new("networksetup").arg("-listallnetworkservices")))
    }

    fn ips(&self, format: OutputFormat) -> (r: Result<AnyCommand, AoError>)
        ensures
            r matches Ok(c) && runs_cmd(c, "ifconfig"@, seq![]),
    {
        Ok(AnyCommand::System(SystemCommand::new("ifconfig")))
    }

    fn routes(&self, format: OutputFormat) -> (r: Result<AnyCommand, AoError>)
        ensures
            r matches Ok(c) && runs_cmd(c, "netstat"@, seq!["-nr"@]),
    {
        Ok(AnyCommand::System(SystemCommand::new("netstat").arg("-nr")))
    }

    fn fw_status(&self, format: OutputFormat) -> (r: Result<AnyCommand, AoError>)
        ensures
            r matches Ok(c) && runs_cmd(c, socketfilterfw(), seq!["--getglobalstate"@]),
    {
        Ok(AnyCommand::System(
            SystemCommand::new("/usr/libexec/ApplicationFirewall/socketfilterfw").arg("--getglobalstate"),
        ))
    }

    /// Not offered: rules are added with the firewall tool itself.
    fn fw_allow(&self, rule: &str) -> (r: Result<AnyCommand, AoError>)
        ensures
            r matches Err(e) && e.message@ == "Use socketfilterfw manually"@,
    {
        Err(AoError::new(owned("Use socketfilterfw manually")))
    }

    /// Not offered: rules are added with the firewall tool itself.
    fn fw_deny(&self, rule: &str) -> (r: Result<AnyCommand, AoError>)
        ensures
            r matches Err(e) && e.message@ == "Use socketfilterfw manually"@,
    {
        Err(AoError::new(owned("Use socketfilterfw manually")))
    }

    fn wifi_scan(&self) -> (r: Result<AnyCommand, AoError>)
        ensures
            r matches Ok(c) && runs_cmd(c, airport(), seq!["-s"@]),
    {
        Ok(AnyCommand::System(
            SystemCommand::new(
                "/System/Library/PrivateFrameworks/Apple80211.framework/Versions/Current/Resources/airport",
            ).arg("-s"),
        ))
    }

    /// Joins `ssid` on the built-in Wi-Fi port.
    fn wifi_connect(&self, ssid: &str) -> (r: Result<AnyCommand, AoError>)
        ensures
            r matches Ok(c) && runs_cmd(c, "networksetup"@, seq!["-setairportnetwork"@, "en0"@, ssid@]),
    {
        Ok(AnyCommand::System(SystemCommand::new("networksetup").arg("-setairportnetwork").arg("en0").arg(ssid)))
    }
}

/// The result of a power-state change: restart or halt now, through
/// `sudo shutdown`; any other state is refused.
pub open spec fn mac_power_result(state: Seq<char>, r: Result<AnyCommand, AoError>) -> bool {
    if state == "reboot"@ {
        r matches Ok(c) && runs_cmd(c, "sudo"@, seq!["shutdown"@, "-r"@, "now"@])
    } else if state == "shutdown"@ {
        r matches Ok(c) && runs_cmd(c, "sudo"@, seq!["shutdown"@, "-h"@, "now"@])
    } else {
        r matches Err(e) && e.message@ == "Unknown power state"@
    }
}

/// The facts that the system report reads, one query each.
#[derive(Clone, Copy, Debug, PartialEq, Eq, Structural)]
pub enum MacFact {
    Hostname,
    ProductName,
    ProductVersion,
    OsRelease,
    Machine,
    CpuCount,
    CpuBrand,
    MemSize,
}

/// The program and arguments that read a fact.
pub open spec fn fact_argv(f: MacFact) -> (Seq<char>, Seq<Seq<char>>) {
    match f {
        MacFact::Hostname => ("sysctl"@, seq!["-n"@, "kern.hostname"@]),
        MacFact::ProductName => ("sw_vers"@, seq!["-productName"@]),
        MacFact::ProductVersion => ("sw_vers"@, seq!["-productVersion"@]),
        MacFact::OsRelease => ("sysctl"@, seq!["-n"@, "kern.osrelease"@]),
        MacFact::Machine => ("sysctl"@, seq!["-n"@, "hw.machine"@]),
        MacFact::CpuCount => ("sysctl"@, seq!["-n"@, "hw.ncpu"@]),
        MacFact::CpuBrand => ("sysctl"@, seq!["-n"@, "machdep.cpu.brand_string"@]),
        MacFact::MemSize => ("sysctl"@, seq!["-n"@, "hw.memsize"@]),
    }
}

/// The outputs of the fact queries; `None` where the query could not be run.
pub struct MacFacts {
    pub hostname: Option<String>,
    pub product_name: Option<String>,
    pub product_version: Option<String>,
    pub os_release: Option<String>,
    pub machine: Option<String>,
    pub cpu_count: Option<String>,
    pub cpu_brand: Option<String>,
    pub mem_size: Option<String>,
}

/// An output, trimmed; nothing where the query could not be run.
pub open spec fn fact_text(o: Option<String>) -> Seq<char> {
    match o {
        Some(s) => trim(s@),
        None => seq![],
    }
}

/// The number an output gives (`str::parse` of the trimmed text, up to
/// `max`); zero where it gives none.
pub open spec fn fact_number(o: Option<String>, max: nat) -> nat {
    match o {
        Some(s) => match parse_uint(trim(s@), max) {
            Some(v) => v,
            None => 0,
        },
        None => 0,
    }
}

/// The trimmed text of an output, or `fallback` where the query could not
/// be run.
fn fact_or(o: &Option<String>, fallback: &str) -> (r: String)
    ensures
        r@ == (match *o {
            Some(s) => trim(s@),
            None => fallback@,
        }),
{
    match o {
        Some(s) => {
            let t = trim_ws(&chars_of(s.as_str()));
            string_of(&t)
        },
        None => owned(fallback),
    }
}

/// The number in an output, or zero.
fn fact_num(o: &Option<String>, max: u64) -> (r: u64)
    ensures
        r == fact_number(*o, max as nat),
{
    match o {
        Some(s) => {
            let t = trim_ws(&chars_of(s.as_str()));
            match parse_uint_chars(&t, max) {
                Some(v) => v,
                None => 0,
            }
        },
        None => 0,
    }
}

/// The core system: `system_profiler`, `shutdown` and `date`.
pub struct MacOSSys;

impl MacOSSys {
    /// The domain's name.
    pub fn name(&self) -> (r: &'static str)
        ensures
            r@ == "system"@,
    {
        "system"
    }

    /// Maps a parsed `system` invocation to its command.
    pub fn execute(&self, args: &SystemArgs) -> (r: Result<AnyCommand, AoError>)
        ensures
            match args.action {
                Some(SystemAction::Info { format }) => r matches Ok(c)
                    && runs_cmd(c, "system_profiler"@, seq!["SPSoftwareDataType"@, "SPHardwareDataType"@]),
                Some(SystemAction::Power { state, now, force }) => mac_power_result(state@, r),
                Some(SystemAction::Time { action, value, format }) => r matches Ok(c) && runs_cmd(c, "date"@, seq![]),
                None => r matches Ok(c)
                    && runs_cmd(c, "system_profiler"@, seq!["SPSoftwareDataType"@, "SPHardwareDataType"@]),
            },
    {
        match &args.action {
            Some(SystemAction::Info { format }) => self.info(*format),
            Some(SystemAction::Power { state, now, force }) => self.power(state.as_str(), *now, *force),
            Some(SystemAction::Time { action, value, format }) => self.time(action.as_str(), opt_str(value), *format),
            None => self.info(OutputFormat::Table),
        }
    }

    /// The query that reads a fact.
    pub fn fact_query(f: MacFact) -> (r: SystemCommand)
        ensures
            r.runs(fact_argv(f).0, fact_argv(f).1),
    {
        match f {
            MacFact::Hostname => SystemCommand::new("sysctl").arg("-n").arg("kern.hostname"),
            MacFact::ProductName => SystemCommand::new("sw_vers").arg("-productName"),
            MacFact::ProductVersion => SystemCommand::new("sw_vers").arg("-productVersion"),
            MacFact::OsRelease => SystemCommand::new("sysctl").arg("-n").arg("kern.osrelease"),
            MacFact::Machine => SystemCommand::new("sysctl").arg("-n").arg("hw.machine"),
            MacFact::CpuCount => SystemCommand::new("sysctl").arg("-n").arg("hw.ncpu"),
            MacFact::CpuBrand => SystemCommand::new("sysctl").arg("-n").arg("machdep.cpu.brand_string"),
            MacFact::MemSize => SystemCommand::new("sysctl").arg("-n").arg("hw.memsize"),
        }
    }

    /// The system report made of the query outputs. What macOS does not
    /// tell this way stays empty or zero, and the uptime is unknown.
    pub fn get_info(facts: &MacFacts) -> (r: SysInfoData)
        ensures
            r.hostname@ == fact_text(facts.hostname),
            r.os@ == fact_text(facts.product_name) + " "@ + fact_text(facts.product_version),
            r.kernel@ == fact_text(facts.os_release),
            r.architecture@ == fact_text(facts.machine),
            r.uptime@ == "Unknown"@,
            r.cpu_count == fact_number(facts.cpu_count, usize::MAX as nat),
            r.cpu_model@ == (match facts.cpu_brand {
                Some(s) => trim(s@),
                None => "Unknown"@,
            }),
            r.total_memory == fact_number(facts.mem_size, u64::MAX as nat),
            r.used_memory == 0,
            r.total_memory_readable@ == bytes_text(r.total_memory as nat),
            r.used_memory_readable@ == "0 B"@,
            r.ram_type@.len() == 0 && r.ram_model@.len() == 0 && r.ram_config@.len() == 0 && r.ram_speed@.len() == 0,
            r.physical_drives == 0,
            r.lan_adapters@.len() == 0 && r.wifi_adapters@.len() == 0,
            r.bt_adapters@.len() == 0 && r.monitors@.len() == 0,
            r.system_users_count == 0 && r.common_users_count == 0,
    {
        proof {
            reveal_strlit("");
        }
        let os = fact_or(&facts.product_name, "");
        let ver = fact_or(&facts.product_version, "");
        let mut os_line = os;
        os_line.append(" ");
        os_line.append(ver.as_str());
        let cpus = fact_num(&facts.cpu_count, usize::MAX as u64);
        let total = fact_num(&facts.mem_size, u64::MAX);
        SysInfoData {
            hostname: fact_or(&facts.hostname, ""),
            os: os_line,
            kernel: fact_or(&facts.os_release, ""),
            architecture: fact_or(&facts.machine, ""),
            uptime: owned("Unknown"),
            cpu_count: cpus as usize,
            cpu_model: fact_or(&facts.cpu_brand, "Unknown"),
            total_memory: total,
            used_memory: 0,
            total_memory_readable: format_bytes(total),
            used_memory_readable: owned("0 B"),
            ram_type: String::new(),
            ram_model: String::new(),
            ram_config: String::new(),
            ram_speed: String::new(),
            physical_drives: 0,
            lan_adapters: Vec::new(),
            wifi_adapters: Vec::new(),
            bt_adapters: Vec::new(),
            monitors: Vec::new(),
            system_users_count: 0,
            common_users_count: 0,
        }
    }
}

impl SysManager for MacOSSys {
    fn info(&self, format: OutputFormat) -> (r: Result<AnyCommand, AoError>)
        ensures
            r matches Ok(c) && runs_cmd(c, "system_profiler"@, seq!["SPSoftwareDataType"@, "SPHardwareDataType"@]),
    {
        Ok(AnyCommand::System(SystemCommand::new("system_profiler").arg("SPSoftwareDataType").arg("SPHardwareDataType")))
    }

    fn power(&self, state: &str, now: bool, force: bool) -> (r: Result<AnyCommand, AoError>)
        ensures
            mac_power_result(state@, r),
    {
        if str_eq(state, "reboot") {
            Ok(AnyCommand::System(SystemCommand::new("sudo").arg("shutdown").arg("-r").arg("now")))
        } else if str_eq(state, "shutdown") {
            Ok(AnyCommand::System(SystemCommand::new("sudo").arg("shutdown").arg("-h").arg("now")))
        } else {
            Err(AoError::new(owned("Unknown power state")))
        }
    }

    /// The current date and time, whatever the action.
    fn time(&self, action: &str, value: Option<&str>, format: OutputFormat) -> (r: Result<AnyCommand, AoError>)
        ensures
            r matches Ok(c) && runs_cmd(c, "date"@, seq![]),
    {
        Ok(AnyCommand::System(SystemCommand::new("date")))
    }
}

/// What `serde_json` reads at `key` of the JSON text `line`: `None` when
/// the text is no JSON, `Some(None)` when there is no string at `key`,
/// and the string otherwise.
pub uninterp spec fn json_str_field(line: Seq<char>, key: Seq<char>) -> Option<Option<Seq<char>>>;

/// Parses `line` with `serde_json::from_str` into a `serde_json::Value`,
/// then reads `value[key].as_str()`; the result is `json_str_field` of the
/// two texts.
#[verifier::external_body]
fn json_str_field_of(line: &str, key: &str) -> (r: Option<Option<String>>)
    ensures
        match r {
            Some(Some(s)) => json_str_field(line@, key@) == Some(Some(s@)),
            Some(None) => json_str_field(line@, key@) == Some(None::<Seq<char>>),
            None => json_str_field(line@, key@) is None,
        },
{
    let v: serde_json::Value = serde_json::from_str(line).ok()?;
    Some(v[key].as_str().map(|s| s.to_string()))
}

/// The string at `key` of a JSON line, or nothing.
pub open spec fn json_text(line: Seq<char>, key: Seq<char>) -> Seq<char> {
    match json_str_field(line, key) {
        Some(Some(s)) => s,
        _ => seq![],
    }
}

/// The container that a JSON line of `docker ps` describes; lines that
/// are no JSON are skipped.
pub open spec fn docker_json_row(line: Seq<char>) -> Option<Seq<Seq<char>>> {
    if json_str_field(line, "ID"@) is Some {
        Some(
            seq![
                json_text(line, "ID"@),
                json_text(line, "Image"@),
                json_text(line, "Command"@),
                json_text(line, "CreatedAt"@),
                json_text(line, "Status"@),
                json_text(line, "Names"@),
            ],
        )
    } else {
        None
    }
}

pub open spec fn docker_json_rows(out: Seq<char>) -> Seq<Seq<Seq<char>>> {
    filter_map(lines(out), |l: Seq<char>| docker_json_row(l))
}

/// The string at `key` of a JSON line, or an empty string.
fn json_text_of(line: &str, key: &str) -> (r: String)
    ensures
        r@ == json_text(line@, key@),
{
    match json_str_field_of(line, key) {
        Some(Some(s)) => s,
        _ => String::new(),
    }
}

/// Containers with Docker.
pub struct MacOSVirt;

impl MacOSVirt {
    /// The domain's name.
    pub fn name(&self) -> (r: &'static str)
        ensures
            r@ == "virtualization"@,
    {
        "virtualization"
    }

    /// Maps a parsed `virtualization` invocation to its command.
    pub fn execute(&self, args: &VirtualizationArgs) -> (r: Result<AnyCommand, AoError>)
        ensures
            r matches Ok(c) && match args.action {
                Some(VirtualizationAction::List { format }) => runs_cmd(c, "docker"@, seq!["ps"@, "-a"@]),
                Some(VirtualizationAction::Start { name }) => runs_cmd(c, "docker"@, seq!["start"@, name@]),
                Some(VirtualizationAction::Stop { name }) => runs_cmd(c, "docker"@, seq!["stop"@, name@]),
                Some(VirtualizationAction::Remove { name }) => runs_cmd(c, "docker"@, seq!["rm"@, name@]),
                Some(VirtualizationAction::Logs { name }) => runs_cmd(c, "docker"@, seq!["logs"@, name@]),
                None => runs_cmd(c, "docker"@, seq!["ps"@, "-a"@]),
            },
    {
        match &args.action {
            Some(VirtualizationAction::List { format }) => self.ls(*format),
            Some(VirtualizationAction::Start { name }) => self.start(name.as_str()),
            Some(VirtualizationAction::Stop { name }) => self.stop(name.as_str()),
            Some(VirtualizationAction::Remove { name }) => self.del(name.as_str()),
            Some(VirtualizationAction::Logs { name }) => self.logs(name.as_str()),
            None => self.ls(OutputFormat::Table),
        }
    }

    /// The query whose output `get_containers` reads: every container,
    /// one JSON object per line.
    pub fn containers_query() -> (r: SystemCommand)
        ensures
            r.runs("docker"@, seq!["ps"@, "-a"@, "--format"@, "{{json .}}"@]),
    {
        SystemCommand::new("docker").arg("ps").arg("-a").arg("--format").arg("{{json .}}")
    }

    /// The containers in the query's output: each line that is JSON gives
    /// one, with the strings at `ID`, `Image`, `Command`, `CreatedAt`,
    /// `Status` and `Names` (empty where there is none).
    pub fn get_containers(stdout: &str) -> (r: Vec<ContainerInfo>)
        ensures
            r@.map_values(|c: ContainerInfo| c.cells()) == docker_json_rows(stdout@),
    {
        let ls = lines_of(stdout);
        let ghost f = |l: Seq<char>| docker_json_row(l);
        let mut out: Vec<ContainerInfo> = Vec::new();
        let mut i: usize = 0;
        while i < ls.len()
            invariant
                0 <= i <= ls.len(),
                views(ls@) == lines(stdout@),
                f == (|l: Seq<char>| docker_json_row(l)),
                out@.map_values(|c: ContainerInfo| c.cells()) == filter_map(views(ls@).take(i as int), f),
            decreases ls.len() - i,
        {
            proof {
                lemma_filter_map_step(views(ls@), f, i as int);
            }
            let line = string_of(&ls[i]);
            let l = line.as_str();
            match json_str_field_of(l, "ID") {
                Some(id) => {
                    let c = ContainerInfo {
                        id: match id {
                            Some(s) => s,
                            None => String::new(),
                        },
                        image: json_text_of(l, "Image"),
                        command: json_text_of(l, "Command"),
                        created: json_text_of(l, "CreatedAt"),
                        status: json_text_of(l, "Status"),
                        names: json_text_of(l, "Names"),
                    };
                    let ghost before = out@;
                    out.push(c);
                    assert(c.cells() =~= docker_json_row(views(ls@)[i as int]).unwrap());
                    assert(out@.map_values(|c: ContainerInfo| c.cells()) =~= before.map_values(
                        |c: ContainerInfo| c.cells(),
                    ).push(c.cells()));
                },
                None => {},
            }
            i += 1;
        }
        assert(views(ls@).take(ls.len() as int) =~= views(ls@));
        out
    }
}

impl VirtManager for MacOSVirt {
    fn ls(&self, format: OutputFormat) -> (r: Result<AnyCommand, AoError>)
        ensures
            r matches Ok(c) && runs_cmd(c, "docker"@, seq!["ps"@, "-a"@]),
    {
        Ok(AnyCommand::System(SystemCommand::new("docker").arg("ps").arg("-a")))
    }

    fn start(&self, name: &str) -> (r: Result<AnyCommand, AoError>)
        ensures
            r matches Ok(c) && runs_cmd(c, "docker"@, seq!["start"@, name@]),
    {
        Ok(AnyCommand::System(SystemCommand::new("docker").arg("start").arg(name)))
    }

    fn stop(&self, name: &str) -> (r: Result<AnyCommand, AoError>)
        ensures
            r matches Ok(c) && runs_cmd(c, "docker"@, seq!["stop"@, name@]),
    {
        Ok(AnyCommand::System(SystemCommand::new("docker").arg("stop").arg(name)))
    }

    fn del(&self, name: &str) -> (r: Result<AnyCommand, AoError>)
        ensures
            r matches Ok(c) && runs_cmd(c, "docker"@, seq!["rm"@, name@]),
    {
        Ok(AnyCommand::System(SystemCommand::new("docker").arg("rm").arg(name)))
    }

    fn logs(&self, name: &str) -> (r: Result<AnyCommand, AoError>)
        ensures
            r matches Ok(c) && runs_cmd(c, "docker"@, seq!["logs"@, name@]),
    {
        Ok(AnyCommand::System(SystemCommand::new("docker").arg("logs").arg(name)))
    }
}

/// The system overview with `top`.
pub struct MacOSOverview;

impl MacOSOverview {
    /// The domain's name.
    pub fn name(&self) -> (r: &'static str)
        ensures
            r@ == "overview"@,
    {
        "overview"
    }

    /// The overview takes no arguments: it is the live figures.
    pub fn execute(&self) -> (r: Result<AnyCommand, AoError>)
        ensures
            r matches Ok(c) && runs_cmd(c, "top"@, seq!["-l"@, "1"@, "-n"@, "10"@]),
    {
        self.live_stats(OutputFormat::Table)
    }

    /// The readings that stand for temperature sensors, in the order they
    /// are tried.
    pub fn sensor_keys() -> (r: Vec<&'static str>)
        ensures
            r@.map_values(|k: &str| k@) == seq!["machdep.cpu.temperature"@, "hw.sensors.cpu0.temp"@],
    {
        let r = vec!["machdep.cpu.temperature", "hw.sensors.cpu0.temp"];
        assert(r@.map_values(|k: &str| k@) =~= seq!["machdep.cpu.temperature"@, "hw.sensors.cpu0.temp"@]);
        r
    }

    /// The query that reads one sensor.
    pub fn sensor_query(key: &str) -> (r: SystemCommand)
        ensures
            r.runs("sysctl"@, seq!["-n"@, key@]),
    {
        SystemCommand::new("sysctl").arg("-n").arg(key)
    }
}

impl MonitorManager for MacOSOverview {
    /// One sample of `top`, with the ten busiest processes.
    fn live_stats(&self, format: OutputFormat) -> (r: Result<AnyCommand, AoError>)
        ensures
            r matches Ok(c) && runs_cmd(c, "top"@, seq!["-l"@, "1"@, "-n"@, "10"@]),
    {
        Ok(AnyCommand::System(SystemCommand::new("top").arg("-l").arg("1").arg("-n").arg("10")))
    }
}

/// Disks with `diskutil`.
pub struct MacOSDisk;

impl MacOSDisk {
    /// The domain's name.
    pub fn name(&self) -> (r: &'static str)
        ensures
            r@ == "disk"@,
    {
        "disk"
    }

    /// Maps a parsed `disk` invocation to its command; loop devices are
    /// a Linux notion and the flag is not passed on.
    pub fn execute(&self, args: &DiskArgs) -> (r: Result<AnyCommand, AoError>)
        ensures
            r matches Ok(c) && runs_cmd(c, "diskutil"@, seq!["list"@]),
    {
        match &args.action {
            Some(DiskAction::List { format, loop_devices: _ }) => self.ls(*format, false),
            None => self.ls(OutputFormat::Table, false),
        }
    }
}

impl DiskManager for MacOSDisk {
    fn ls(&self, format: OutputFormat, show_loop: bool) -> (r: Result<AnyCommand, AoError>)
        ensures
            r matches Ok(c) && runs_cmd(c, "diskutil"@, seq!["list"@]),
    {
        Ok(AnyCommand::System(SystemCommand::new("diskutil").arg("list")))
    }
}

/// Partitions and mounts with `df`, `diskutil` and `du`.
pub struct MacOSPartition;

impl MacOSPartition {
    /// The domain's name.
    pub fn name(&self) -> (r: &'static str)
        ensures
            r@ == "partition"@,
    {
        "partition"
    }

    /// Maps a parsed `partition` invocation to its command.
    pub fn execute(&self, args: &PartitionArgs) -> (r: Result<AnyCommand, AoError>)
        ensures
            r matches Ok(c) && match args.action {
                Some(PartitionAction::List { format }) => runs_cmd(c, "df"@, seq!["-h"@]),
                Some(PartitionAction::Mount { device, path, fstype, options }) =>
                    runs_cmd(c, "diskutil"@, seq!["mount"@, "-mountPoint"@, path@, device@]),
                Some(PartitionAction::Unmount { target, lazy, force }) =>
                    runs_cmd(c, "diskutil"@, seq!["unmount"@, target@]),
                Some(PartitionAction::Usage { path, depth }) => runs_cmd(c, "du"@, seq!["-sh"@, path@]),
                None => runs_cmd(c, "df"@, seq!["-h"@]),
            },
    {
        match &args.action {
            Some(PartitionAction::List { format }) => self.ls(*format),
            Some(PartitionAction::Mount { device, path, fstype, options }) => self.mount(
                device.as_str(),
                path.as_str(),
                opt_str(fstype),
                opt_str(options),
            ),
            Some(PartitionAction::Unmount { target, lazy, force }) => self.unmount(target.as_str(), *lazy, *force),
            Some(PartitionAction::Usage { path, depth }) => self.usage(path.as_str(), *depth),
            None => self.ls(OutputFormat::Table),
        }
    }
}

impl PartitionManager for MacOSPartition {
    fn ls(&self, format: OutputFormat) -> (r: Result<AnyCommand, AoError>)
        ensures
            r matches Ok(c) && runs_cmd(c, "df"@, seq!["-h"@]),
    {
        Ok(AnyCommand::System(SystemCommand::new("df").arg("-h")))
    }

    /// Mounts `device` at `path`; the file system type and options are
    /// left to `diskutil`.
    fn mount(&self, device: &str, path: &str, fstype: Option<&str>, options: Option<&str>) -> (r: Result<
        AnyCommand,
        AoError,
    >)
        ensures
            r matches Ok(c) && runs_cmd(c, "diskutil"@, seq!["mount"@, "-mountPoint"@, path@, device@]),
    {
        Ok(AnyCommand::System(SystemCommand::new("diskutil").arg("mount").arg("-mountPoint").arg(path).arg(device)))
    }

    fn unmount(&self, target: &str, lazy: bool, force: bool) -> (r: Result<AnyCommand, AoError>)
        ensures
            r matches Ok(c) && runs_cmd(c, "diskutil"@, seq!["unmount"@, target@]),
    {
        Ok(AnyCommand::System(SystemCommand::new("diskutil").arg("unmount").arg(target)))
    }

    /// The total size of `path`, whatever the depth asked for.
    fn usage(&self, path: &str, depth: Option<u32>) -> (r: Result<AnyCommand, AoError>)
        ensures
            r matches Ok(c) && runs_cmd(c, "du"@, seq!["-sh"@, path@]),
    {
        Ok(AnyCommand::System(SystemCommand::new("du").arg("-sh").arg(path)))
    }
}

/// Whether `c` shows the unified log entries that match `predicate`.
pub open spec fn log_show(c: AnyCommand, predicate: Seq<char>) -> bool {
    runs_cmd(c, "log"@, seq!["show"@, "--predicate"@, predicate])
}

/// Logs with `log show` and the log files.
pub struct MacOSLog;

impl MacOSLog {
    /// The domain's name.
    pub fn name(&self) -> (r: &'static str)
        ensures
            r@ == "log"@,
    {
        "log"
    }

    /// Maps a parsed `log` invocation to its command.
    pub fn execute(&self, args: &LogArgs) -> (r: Result<AnyCommand, AoError>)
        ensures
            r matches Ok(c) && match args.action {
                Some(LogAction::Auth { lines, follow }) => log_show(c, "eventMessage contains \"auth\""@),
                Some(LogAction::Boot { lines, follow, id }) => log_show(c, "eventMessage contains \"boot\""@),
                Some(LogAction::Crash { lines }) => runs_cmd(c, "ls"@, seq!["-t"@, "/Library/Logs/DiagnosticReports"@]),
                Some(LogAction::Dev { lines, follow }) => log_show(c, "subsystem contains \"com.apple.CoreBluetooth\""@),
                Some(LogAction::Error { lines, follow }) => log_show(c, "messageType == error"@),
                Some(LogAction::File { path, lines, follow }) => runs_cmd(c, "tail"@, seq!["-n"@, "50"@, path@]),
                Some(LogAction::Package { lines }) => runs_cmd(c, "tail"@, seq!["-n"@, "50"@, "/var/log/install.log"@]),
                Some(LogAction::Service { name, lines, follow }) =>
                    log_show(c, "process == \""@ + name@ + "\""@),
                Some(LogAction::System { lines, follow }) => runs_cmd(c, "log"@, seq!["show"@, "--last"@, "1h"@]),
                None => runs_cmd(c, "log"@, seq!["show"@, "--last"@, "1h"@]),
            },
    {
        match &args.action {
            Some(LogAction::Auth { lines, follow }) => self.auth(*lines, *follow),
            Some(LogAction::Boot { lines, follow, id }) => self.boot(*lines, *follow, opt_str(id)),
            Some(LogAction::Crash { lines }) => self.crash(*lines),
            Some(LogAction::Dev { lines, follow }) => self.dev(*lines, *follow),
            Some(LogAction::Error { lines, follow }) => self.error(*lines, *follow),
            Some(LogAction::File { path, lines, follow }) => self.file(path.as_str(), *lines, *follow),
            Some(LogAction::Package { lines }) => self.pkg(*lines),
            Some(LogAction::Service { name, lines, follow }) => self.svc(name.as_str(), *lines, *follow),
            Some(LogAction::System { lines, follow }) => self.sys_logs(*lines, *follow),
            None => self.sys_logs(50, false),
        }
    }

    fn show(predicate: &str) -> (r: AnyCommand)
        ensures
            log_show(r, predicate@),
    {
        AnyCommand::System(SystemCommand::new("log").arg("show").arg("--predicate").arg(predicate))
    }
}

impl LogManager for MacOSLog {
    fn auth(&self, lines: u32, follow: bool) -> (r: Result<AnyCommand, AoError>)
        ensures
            r matches Ok(c) && log_show(c, "eventMessage contains \"auth\""@),
    {
        Ok(MacOSLog::show("eventMessage contains \"auth\""))
    }

    fn boot(&self, lines: u32, follow: bool, id: Option<&str>) -> (r: Result<AnyCommand, AoError>)
        ensures
            r matches Ok(c) && log_show(c, "eventMessage contains \"boot\""@),
    {
        Ok(MacOSLog::show("eventMessage contains \"boot\""))
    }

    /// The crash reports, newest first.
    fn crash(&self, lines: u32) -> (r: Result<AnyCommand, AoError>)
        ensures
            r matches Ok(c) && runs_cmd(c, "ls"@, seq!["-t"@, "/Library/Logs/DiagnosticReports"@]),
    {
        Ok(AnyCommand::System(SystemCommand::new("ls").arg("-t").arg("/Library/Logs/DiagnosticReports")))
    }

    /// Device messages: those of the Bluetooth subsystem.
    fn dev(&self, lines: u32, follow: bool) -> (r: Result<AnyCommand, AoError>)
        ensures
            r matches Ok(c) && log_show(c, "subsystem contains \"com.apple.CoreBluetooth\""@),
    {
        Ok(MacOSLog::show("subsystem contains \"com.apple.CoreBluetooth\""))
    }

    fn error(&self, lines: u32, follow: bool) -> (r: Result<AnyCommand, AoError>)
        ensures
            r matches Ok(c) && log_show(c, "messageType == error"@),
    {
        Ok(MacOSLog::show("messageType == error"))
    }

    /// The last fifty lines of a file.
    fn file(&self, path: &str, lines: u32, follow: bool) -> (r: Result<AnyCommand, AoError>)
        ensures
            r matches Ok(c) && runs_cmd(c, "tail"@, seq!["-n"@, "50"@, path@]),
    {
        Ok(AnyCommand::System(SystemCommand::new("tail").arg("-n").arg("50").arg(path)))
    }

    /// The last fifty lines of the installer's log.
    fn pkg(&self, lines: u32) -> (r: Result<AnyCommand, AoError>)
        ensures
            r matches Ok(c) && runs_cmd(c, "tail"@, seq!["-n"@, "50"@, "/var/log/install.log"@]),
    {
        Ok(AnyCommand::System(SystemCommand::new("tail").arg("-n").arg("50").arg("/var/log/install.log")))
    }

    /// The messages of the process named `service`.
    fn svc(&self, service: &str, lines: u32, follow: bool) -> (r: Result<AnyCommand, AoError>)
        ensures
            r matches Ok(c) && log_show(c, "process == \""@ + service@ + "\""@),
    {
        let mut p = owned("process == \"");
        p.append(service);
        p.append("\"");
        Ok(MacOSLog::show(p.as_str()))
    }

    /// The last hour of the log.
    fn sys_logs(&self, lines: u32, follow: bool) -> (r: Result<AnyCommand, AoError>)
        ensures
            r matches Ok(c) && runs_cmd(c, "log"@, seq!["show"@, "--last"@, "1h"@]),
    {
        Ok(AnyCommand::System(SystemCommand::new("log").arg("show").arg("--last").arg("1h")))
    }
}

/// The displays, with `system_profiler`.
pub struct MacOSGui;

impl MacOSGui {
    /// The domain's name.
    pub fn name(&self) -> (r: &'static str)
        ensures
            r@ == "gui"@,
    {
        "gui"
    }

    /// Maps a parsed `gui` invocation to its command: every action shows
    /// the display report.
    pub fn execute(&self, args: &GuiArgs) -> (r: Result<AnyCommand, AoError>)
        ensures
            r matches Ok(c) && runs_cmd(c, "system_profiler"@, seq!["SPDisplaysDataType"@]),
    {
        match &args.action {
            Some(GuiAction::Info) => self.info(),
            Some(GuiAction::Display { action }) => match action {
                GuiDisplayAction::List { format } => self.ls_displays(*format),
            },
            None => self.info(),
        }
    }
}

impl GuiManager for MacOSGui {
    fn info(&self) -> (r: Result<AnyCommand, AoError>)
        ensures
            r matches Ok(c) && runs_cmd(c, "system_profiler"@, seq!["SPDisplaysDataType"@]),
    {
        Ok(AnyCommand::System(SystemCommand::new("system_profiler").arg("SPDisplaysDataType")))
    }

    fn ls_displays(&self, format: OutputFormat) -> (r: Result<AnyCommand, AoError>)
        ensures
            r matches Ok(c) && runs_cmd(c, "system_profiler"@, seq!["SPDisplaysDataType"@]),
    {
        self.info()
    }
}

/// Boot settings and kernel extensions.
pub struct MacOSBoot;

impl MacOSBoot {
    /// The domain's name.
    pub fn name(&self) -> (r: &'static str)
        ensures
            r@ == "boot"@,
    {
        "boot"
    }

    /// Maps a parsed `boot` invocation to its command.
    pub fn execute(&self, args: &BootArgs) -> (r: Result<AnyCommand, AoError>)
        ensures
            r matches Ok(c) && match args.action {
                Some(BootAction::List { format }) => runs_cmd(c, "nvram"@, seq!["-p"@]),
                Some(BootAction::Module { action }) => match action {
                    BootModuleAction::List { format } => runs_cmd(c, "kextstat"@, seq![]),
                    BootModuleAction::Load { name } => runs_cmd(c, "sudo"@, seq!["kextload"@, name@]),
                    BootModuleAction::Unload { name } => runs_cmd(c, "sudo"@, seq!["kextunload"@, name@]),
                },
                None => runs_cmd(c, "nvram"@, seq!["-p"@]),
            },
    {
        match &args.action {
            Some(BootAction::List { format }) => self.ls_entries(*format),
            Some(BootAction::Module { action }) => match action {
                BootModuleAction::List { format } => self.ls_modules(*format),
                BootModuleAction::Load { name } => self.load_module(name.as_str()),
                BootModuleAction::Unload { name } => self.unload_module(name.as_str()),
            },
            None => self.ls_entries(OutputFormat::Table),
        }
    }
}

impl BootManager for MacOSBoot {
    /// The firmware variables.
    fn ls_entries(&self, format: OutputFormat) -> (r: Result<AnyCommand, AoError>)
        ensures
            r matches Ok(c) && runs_cmd(c, "nvram"@, seq!["-p"@]),
    {
        Ok(AnyCommand::System(SystemCommand::new("nvram").arg("-p")))
    }

    fn ls_modules(&self, format: OutputFormat) -> (r: Result<AnyCommand, AoError>)
        ensures
            r matches Ok(c) && runs_cmd(c, "kextstat"@, seq![]),
    {
        Ok(AnyCommand::System(SystemCommand::new("kextstat")))
    }

    fn load_module(&self, name: &str) -> (r: Result<AnyCommand, AoError>)
        ensures
            r matches Ok(c) && runs_cmd(c, "sudo"@, seq!["kextload"@, name@]),
    {
        Ok(AnyCommand::System(SystemCommand::new("sudo").arg("kextload").arg(name)))
    }

    fn unload_module(&self, name: &str) -> (r: Result<AnyCommand, AoError>)
        ensures
            r matches Ok(c) && runs_cmd(c, "sudo"@, seq!["kextunload"@, name@]),
    {
        Ok(AnyCommand::System(SystemCommand::new("sudo").arg("kextunload").arg(name)))
    }
}

/// The macOS version and its updates.
pub struct MacOSDistro;

impl MacOSDistro {
    /// The domain's name.
    pub fn name(&self) -> (r: &'static str)
        ensures
            r@ == "distribution"@,
    {
        "distribution"
    }

    /// Maps a parsed `distribution` invocation to its command.
    pub fn execute(&self, args: &DistributionArgs) -> (r: Result<AnyCommand, AoError>)
        ensures
            r matches Ok(c) && match args.action {
                Some(DistributionAction::Upgrade) => runs_cmd(c, "softwareupdate"@, seq!["-l"@]),
                _ => runs_cmd(c, "sw_vers"@, seq![]),
            },
    {
        match &args.action {
            Some(DistributionAction::Info { format }) => self.info(*format),
            Some(DistributionAction::Upgrade) => self.upgrade(),
            None => self.info(OutputFormat::Table),
        }
    }
}

impl DistroManager for MacOSDistro {
    fn info(&self, format: OutputFormat) -> (r: Result<AnyCommand, AoError>)
        ensures
            r matches Ok(c) && runs_cmd(c, "sw_vers"@, seq![]),
    {
        Ok(AnyCommand::System(SystemCommand::new("sw_vers")))
    }

    /// Lists the available updates.
    fn upgrade(&self) -> (r: Result<AnyCommand, AoError>)
        ensures
            r matches Ok(c) && runs_cmd(c, "softwareupdate"@, seq!["-l"@]),
    {
        Ok(AnyCommand::System(SystemCommand::new("softwareupdate").arg("-l")))
    }
}

/// Gatekeeper and the identity of the user.
pub struct MacOSSec;

impl MacOSSec {
    /// The domain's name.
    pub fn name(&self) -> (r: &'static str)
        ensures
            r@ == "security"@,
    {
        "security"
    }

    /// Maps a parsed `security` invocation to its command.
    pub fn execute(&self, args: &SecurityArgs) -> (r: Result<AnyCommand, AoError>)
        ensures
            r matches Ok(c) && match args.action {
                Some(SecurityAction::Context) => runs_cmd(c, "id"@, seq![]),
                _ => runs_cmd(c, "spctl"@, seq!["--status"@]),
            },
    {
        match &args.action {
            Some(SecurityAction::Audit { format }) => self.audit(*format),
            Some(SecurityAction::Context) => self.context(),
            None => self.audit(OutputFormat::Table),
        }
    }
}

impl SecManager for MacOSSec {
    /// The Gatekeeper status.
    fn audit(&self, format: OutputFormat) -> (r: Result<AnyCommand, AoError>)
        ensures
            r matches Ok(c) && runs_cmd(c, "spctl"@, seq!["--status"@]),
    {
        Ok(AnyCommand::System(SystemCommand::new("spctl").arg("--status")))
    }

    fn context(&self) -> (r: Result<AnyCommand, AoError>)
        ensures
            r matches Ok(c) && runs_cmd(c, "id"@, seq![]),
    {
        Ok(AnyCommand::System(SystemCommand::new("id")))
    }
}

/// `ao` itself on macOS, where Homebrew installs and updates it.
pub struct MacOSSelf;

impl MacOSSelf {
    /// The domain's name.
    pub fn name(&self) -> (r: &'static str)
        ensures
            r@ == "self"@,
    {
        "self"
    }

    /// Maps a parsed `self` invocation to its command, given `ao`'s
    /// version. Setting up completions needs nothing more here; the other
    /// completion actions and updates are refused with a hint.
    pub fn execute(&self, args: &SelfArgs, version: &str) -> (r: Result<AnyCommand, AoError>)
        ensures
            match args.action {
                Some(SelfAction::Info { format }) => r matches Ok(c) && runs_cmd(c, "echo"@, seq!["ao v"@ + version@]),
                Some(SelfAction::Update) => r matches Err(e) && e.message@ == "Use brew upgrade ao-cli"@,
                Some(SelfAction::Completions { action }) => match action {
                    CompletionsAction::Setup { shell } => r == Ok::<AnyCommand, AoError>(AnyCommand::Noop(NoopCommand)),
                    _ => r matches Err(e) && e.message@ == "Use ao self completions setup <shell>"@,
                },
                None => r matches Ok(c) && runs_cmd(c, "echo"@, seq!["ao v"@ + version@]),
            },
    {
        match &args.action {
            Some(SelfAction::Info { format }) => self.info(*format, version),
            Some(SelfAction::Update) => self.update(),
            Some(SelfAction::Completions { action }) => match action {
                CompletionsAction::Setup { shell: _ } => Ok(AnyCommand::Noop(NoopCommand)),
                _ => Err(AoError::new(owned("Use ao self completions setup <shell>"))),
            },
            None => self.info(OutputFormat::Table, version),
        }
    }

    /// Prints the version.
    pub fn info(&self, format: OutputFormat, version: &str) -> (r: Result<AnyCommand, AoError>)
        ensures
            r matches Ok(c) && runs_cmd(c, "echo"@, seq!["ao v"@ + version@]),
    {
        let v = cat("ao v", version);
        Ok(AnyCommand::System(SystemCommand::new("echo").arg(v.as_str())))
    }

    /// Updates come through Homebrew.
    pub fn update(&self) -> (r: Result<AnyCommand, AoError>)
        ensures
            r matches Err(e) && e.message@ == "Use brew upgrade ao-cli"@,
    {
        Err(AoError::new(owned("Use brew upgrade ao-cli")))
    }
}

/// Deleting packages with Homebrew uninstalls them (`brew uninstall`), and
/// is never the command that installs packages.
pub proof fn lemma_brew_delete_removes(
    packages: Seq<Seq<char>>,
    purge: bool,
    others: Seq<Seq<char>>,
    r: Result<AnyCommand, AoError>,
)
    ensures
        MacOSPackage.del_result(packages, purge, r) <==> (r matches Ok(AnyCommand::System(c)) && c.runs(
            "brew"@,
            seq!["uninstall"@] + packages,
        )),
        MacOSPackage.del_result(packages, purge, r) ==> !MacOSPackage.add_result(others, r),
{
    reveal_strlit("uninstall");
    reveal_strlit("install");
    match r {
        Ok(AnyCommand::System(c)) => {
            if MacOSPackage.del_result(packages, purge, r) && MacOSPackage.add_result(others, r) {
                assert(c.argv()[0] == (seq!["uninstall"@] + packages)[0]);
                assert(c.argv()[0] == (seq!["install"@] + others)[0]);
            }
        },
        _ => {},
    }
}

} // verus!
