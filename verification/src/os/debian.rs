//! Packages with APT (Debian, Ubuntu).
use vstd::prelude::*;

use crate::cli::{OutputFormat, is_structured_format};
use crate::os::linux_generic::common::SystemCommand;
use crate::os::{AnyCommand, AoError, ExecutableCommand, PackageInfo, PackageManager};
use crate::text::{filter_map, lemma_filter_map_step, lines, lines_of, owned, split_char, split_on, string_of, string_views, views};

verus! {

/// The APT package manager.
pub struct Apt;

impl Apt {
    /// The manager's name.
    pub fn name(&self) -> (r: &'static str)
        ensures
            r@ == "APT"@,
    {
        "APT"
    }

    /// `apt-get`, the program that changes packages.
    pub fn cmd(&self) -> (r: SystemCommand)
        ensures
            r.runs("apt-get"@, seq![]),
    {
        SystemCommand::new("apt-get")
    }

    /// The query that lists the installed package names.
    pub fn installed_query() -> (r: SystemCommand)
        ensures
            r.runs("dpkg-query"@, seq!["-W"@, "-f=${Package}\n"@]),
    {
        SystemCommand::new("dpkg-query").arg("-W").arg("-f=${Package}\n")
    }

    /// The query that lists the package names that can be installed.
    pub fn available_query() -> (r: SystemCommand)
        ensures
            r.runs("apt-cache"@, seq!["pkgnames"@]),
    {
        SystemCommand::new("apt-cache").arg("pkgnames")
    }
}

impl PackageManager for Apt {
    open spec fn update_result(&self, r: Result<AnyCommand, AoError>) -> bool {
        r matches Ok(AnyCommand::System(c)) && c.runs("apt-get"@, seq!["update"@])
    }

    open spec fn add_result(&self, packages: Seq<Seq<char>>, r: Result<AnyCommand, AoError>) -> bool {
        r matches Ok(AnyCommand::System(c)) && c.runs("apt-get"@, seq!["install"@, "-y"@, "--"@] + packages)
    }

    open spec fn del_result(&self, packages: Seq<Seq<char>>, purge: bool, r: Result<AnyCommand, AoError>) -> bool {
        r matches Ok(AnyCommand::System(c)) && c.runs(
            "apt-get"@,
            seq![if purge { "purge"@ } else { "remove"@ }, "-y"@, "--"@] + packages,
        )
    }

    open spec fn search_result(&self, query: Seq<char>, r: Result<AnyCommand, AoError>) -> bool {
        r matches Ok(AnyCommand::System(c)) && c.runs("apt-cache"@, seq!["search"@, "--"@, query])
    }

    open spec fn ls_result(&self, format: OutputFormat, r: Result<AnyCommand, AoError>) -> bool {
        r == Ok::<AnyCommand, AoError>(AnyCommand::AptList(AptListCommand { format }))
    }

    fn update(&self) -> (r: Result<AnyCommand, AoError>) {
        Ok(AnyCommand::System(self.cmd().arg("update")))
    }

    fn add(&self, packages: &[String]) -> (r: Result<AnyCommand, AoError>) {
        Ok(AnyCommand::System(self.cmd().arg("install").arg("-y").arg("--").args(packages)))
    }

    fn del(&self, packages: &[String], purge: bool) -> (r: Result<AnyCommand, AoError>) {
        let mut cmd = self.cmd();
        if purge {
            cmd = cmd.arg("purge");
        } else {
            cmd = cmd.arg("remove");
        }
        Ok(AnyCommand::System(cmd.arg("-y").arg("--").args(packages)))
    }

    fn search(&self, query: &str) -> (r: Result<AnyCommand, AoError>) {
        Ok(AnyCommand::System(SystemCommand::new("apt-cache").arg("search").arg("--").arg(query)))
    }

    fn ls(&self, format: OutputFormat) -> (r: Result<AnyCommand, AoError>) {
        Ok(AnyCommand::AptList(AptListCommand { format }))
    }
}

/// Lists the installed packages with `dpkg-query`.
pub struct AptListCommand {
    pub format: OutputFormat,
}

impl PackageInfo {
    /// Name, version, architecture and status.
    pub open spec fn cells(&self) -> Seq<Seq<char>> {
        seq![self.name@, self.version@, self.architecture@, self.status@]
    }
}

pub open spec fn package_cells(s: Seq<PackageInfo>) -> Seq<Seq<Seq<char>>> {
    s.map_values(|p: PackageInfo| p.cells())
}

/// A package of the tab-separated listing: lines of at least four fields.
pub open spec fn dpkg_row(line: Seq<char>) -> Option<Seq<Seq<char>>> {
    let p = split_on(line, '\t');
    if p.len() >= 4 {
        Some(seq![p[0], p[1], p[2], p[3]])
    } else {
        None
    }
}

pub open spec fn dpkg_rows(out: Seq<char>) -> Seq<Seq<Seq<char>>> {
    filter_map(lines(out), |l: Seq<char>| dpkg_row(l))
}

impl AptListCommand {
    /// The command run for the original output.
    pub fn original(&self) -> (r: SystemCommand)
        ensures
            r.runs("apt"@, seq!["list"@, "--installed"@]),
    {
        SystemCommand::new("apt").arg("list").arg("--installed")
    }

    /// The command whose output is parsed.
    pub fn query(&self) -> (r: SystemCommand)
        ensures
            r.runs("dpkg-query"@, seq!["-W"@, "-f=${Package}\t${Version}\t${Architecture}\t${db:Status-Abbrev}\n"@]),
    {
        SystemCommand::new("dpkg-query").arg("-W").arg("-f=${Package}\t${Version}\t${Architecture}\t${db:Status-Abbrev}\n")
    }

    /// The packages of the listing.
    pub fn parse(stdout: &str) -> (r: Vec<PackageInfo>)
        ensures
            package_cells(r@) == dpkg_rows(stdout@),
    {
        let ls = lines_of(stdout);
        let ghost f = |l: Seq<char>| dpkg_row(l);
        let mut out: Vec<PackageInfo> = Vec::new();
        let mut i: usize = 0;
        while i < ls.len()
            invariant
                0 <= i <= ls.len(),
                views(ls@) == lines(stdout@),
                f == (|l: Seq<char>| dpkg_row(l)),
                package_cells(out@) == filter_map(views(ls@).take(i as int), f),
            decreases ls.len() - i,
        {
            proof {
                lemma_filter_map_step(views(ls@), f, i as int);
            }
            let p = split_char(&ls[i], '\t');
            if p.len() >= 4 {
                let pkg = PackageInfo {
                    name: string_of(&p[0]),
                    version: string_of(&p[1]),
                    architecture: string_of(&p[2]),
                    status: string_of(&p[3]),
                };
                let ghost cells = pkg.cells();
                assert(cells =~= dpkg_row(views(ls@)[i as int]).unwrap());
                out.push(pkg);
                assert(package_cells(out@) =~= filter_map(views(ls@).take(i as int), f).push(cells));
            }
            i += 1;
        }
        assert(views(ls@).take(ls.len() as int) =~= views(ls@));
        out
    }
}

impl ExecutableCommand for AptListCommand {
    open spec fn text(&self) -> Seq<char> {
        "dpkg-query -W"@
    }

    open spec fn structured(&self) -> bool {
        is_structured_format(self.format)
    }

    fn as_string(&self) -> (r: String) {
        owned("dpkg-query -W")
    }

    fn is_structured(&self) -> (r: bool) {
        self.format.structured()
    }
}

/// Deleting packages with apt-get removes them (`remove`, or `purge` to
/// drop their configuration too), and is never the command that installs
/// packages.
pub proof fn lemma_apt_delete_removes(
    packages: Seq<Seq<char>>,
    purge: bool,
    others: Seq<Seq<char>>,
    r: Result<AnyCommand, AoError>,
)
    ensures
        Apt.del_result(packages, purge, r) <==> (r matches Ok(AnyCommand::System(c)) && c.runs(
            "apt-get"@,
            seq![if purge { "purge"@ } else { "remove"@ }, "-y"@, "--"@] + packages,
        )),
        Apt.del_result(packages, purge, r) ==> !Apt.add_result(others, r),
{
    reveal_strlit("purge");
    reveal_strlit("remove");
    reveal_strlit("install");
    match r {
        Ok(AnyCommand::System(c)) => {
            if Apt.del_result(packages, purge, r) && Apt.add_result(others, r) {
                assert(c.argv()[0] == (seq![if purge { "purge"@ } else { "remove"@ }, "-y"@, "--"@] + packages)[0]);
                assert(c.argv()[0] == (seq!["install"@, "-y"@, "--"@] + others)[0]);
            }
        },
        _ => {},
    }
}

} // verus!
