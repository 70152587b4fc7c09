//! Packages with apk (Alpine Linux).
use vstd::prelude::*;

use crate::cli::{OutputFormat, is_structured_format};
use crate::os::debian::package_cells;
use crate::os::linux_generic::common::SystemCommand;
use crate::os::{AnyCommand, AoError, ExecutableCommand, PackageInfo, PackageManager};
use crate::text::{
    filter_map, lemma_filter_map_step, lines, lines_of, owned, rfind, rfind_char, slice_chars, string_of, string_views,
    trim_start_char, trim_start_matches_char, views,
};

verus! {

/// The apk package manager.
pub struct Apk;

impl Apk {
    /// The manager's name.
    pub fn name(&self) -> (r: &'static str)
        ensures
            r@ == "APK"@,
    {
        "APK"
    }

    /// `apk`, the program that changes packages.
    pub fn cmd(&self) -> (r: SystemCommand)
        ensures
            r.runs("apk"@, seq![]),
    {
        SystemCommand::new("apk")
    }

    /// The query that lists the installed packages.
    pub fn installed_query() -> (r: SystemCommand)
        ensures
            r.runs("apk"@, seq!["info"@]),
    {
        SystemCommand::new("apk").arg("info")
    }

    /// The query that lists the packages that can be installed.
    pub fn available_query() -> (r: SystemCommand)
        ensures
            r.runs("apk"@, seq!["search"@, "-q"@]),
    {
        SystemCommand::new("apk").arg("search").arg("-q")
    }
}

impl PackageManager for Apk {
    open spec fn update_result(&self, r: Result<AnyCommand, AoError>) -> bool {
        r matches Ok(AnyCommand::System(c)) && c.runs("apk"@, seq!["update"@])
    }

    open spec fn add_result(&self, packages: Seq<Seq<char>>, r: Result<AnyCommand, AoError>) -> bool {
        r matches Ok(AnyCommand::System(c)) && c.runs("apk"@, seq!["add"@, "--"@] + packages)
    }

    open spec fn del_result(&self, packages: Seq<Seq<char>>, purge: bool, r: Result<AnyCommand, AoError>) -> bool {
        r matches Ok(AnyCommand::System(c)) && c.runs("apk"@, seq!["delete"@, "--"@] + packages)
    }

    open spec fn search_result(&self, query: Seq<char>, r: Result<AnyCommand, AoError>) -> bool {
        r matches Ok(AnyCommand::System(c)) && c.runs("apk"@, seq!["search"@, "-v"@, "--"@, query])
    }

    open spec fn ls_result(&self, format: OutputFormat, r: Result<AnyCommand, AoError>) -> bool {
        r == Ok::<AnyCommand, AoError>(AnyCommand::ApkList(ApkListCommand { format }))
    }

    fn update(&self) -> (r: Result<AnyCommand, AoError>) {
        Ok(AnyCommand::System(self.cmd().arg("update")))
    }

    fn add(&self, packages: &[String]) -> (r: Result<AnyCommand, AoError>) {
        Ok(AnyCommand::System(self.cmd().arg("add").arg("--").args(packages)))
    }

    fn del(&self, packages: &[String], _purge: bool) -> (r: Result<AnyCommand, AoError>) {
        Ok(AnyCommand::System(self.cmd().arg("delete").arg("--").args(packages)))
    }

    fn search(&self, query: &str) -> (r: Result<AnyCommand, AoError>) {
        Ok(AnyCommand::System(self.cmd().arg("search").arg("-v").arg("--").arg(query)))
    }

    fn ls(&self, format: OutputFormat) -> (r: Result<AnyCommand, AoError>) {
        Ok(AnyCommand::ApkList(ApkListCommand { format }))
    }
}

/// Lists the installed packages with `apk info -v`.
pub struct ApkListCommand {
    pub format: OutputFormat,
}

/// A package of `apk info -v`: a line with a `-`, cut at its last `-` into
/// name and version (without leading dashes); architecture unknown,
/// installed.
pub open spec fn apk_row(line: Seq<char>) -> Option<Seq<Seq<char>>> {
    match rfind(line, '-') {
        Some(pos) => Some(seq![line.take(pos), trim_start_char(line.skip(pos), '-'), "unknown"@, "installed"@]),
        None => None,
    }
}

pub open spec fn apk_rows(out: Seq<char>) -> Seq<Seq<Seq<char>>> {
    filter_map(lines(out), |l: Seq<char>| apk_row(l))
}

impl ApkListCommand {
    /// The command run for the original output, and whose output is
    /// parsed.
    pub fn query(&self) -> (r: SystemCommand)
        ensures
            r.runs("apk"@, seq!["info"@, "-v"@]),
    {
        SystemCommand::new("apk").arg("info").arg("-v")
    }

    /// The packages of the listing.
    pub fn parse(stdout: &str) -> (r: Vec<PackageInfo>)
        ensures
            package_cells(r@) == apk_rows(stdout@),
    {
        let ls = lines_of(stdout);
        let ghost f = |l: Seq<char>| apk_row(l);
        let mut out: Vec<PackageInfo> = Vec::new();
        let mut i: usize = 0;
        while i < ls.len()
            invariant
                0 <= i <= ls.len(),
                views(ls@) == lines(stdout@),
                f == (|l: Seq<char>| apk_row(l)),
                package_cells(out@) == filter_map(views(ls@).take(i as int), f),
            decreases ls.len() - i,
        {
            proof {
                lemma_filter_map_step(views(ls@), f, i as int);
            }
            let line = &ls[i];
            match rfind_char(line, '-') {
                Some(pos) => {
                    let name = slice_chars(line, 0, pos);
                    let rest = slice_chars(line, pos, line.len());
                    let ver = trim_start_matches_char(&rest, '-');
                    let pkg = PackageInfo {
                        name: string_of(&name),
                        version: string_of(&ver),
                        architecture: owned("unknown"),
                        status: owned("installed"),
                    };
                    let ghost cells = pkg.cells();
                    assert(rest@ =~= line@.skip(pos as int));
                    assert(cells =~= apk_row(views(ls@)[i as int]).unwrap());
                    out.push(pkg);
                    assert(package_cells(out@) =~= filter_map(views(ls@).take(i as int), f).push(cells));
                },
                None => {},
            }
            i += 1;
        }
        assert(views(ls@).take(ls.len() as int) =~= views(ls@));
        out
    }
}

impl ExecutableCommand for ApkListCommand {
    open spec fn text(&self) -> Seq<char> {
        "apk info -v"@
    }

    open spec fn structured(&self) -> bool {
        is_structured_format(self.format)
    }

    fn as_string(&self) -> (r: String) {
        owned("apk info -v")
    }

    fn is_structured(&self) -> (r: bool) {
        self.format.structured()
    }
}

/// Deleting packages with apk removes them (`apk delete`), and is never the
/// command that installs packages.
pub proof fn lemma_apk_delete_removes(
    packages: Seq<Seq<char>>,
    purge: bool,
    others: Seq<Seq<char>>,
    r: Result<AnyCommand, AoError>,
)
    ensures
        Apk.del_result(packages, purge, r) <==> (r matches Ok(AnyCommand::System(c)) && c.runs(
            "apk"@,
            seq!["delete"@, "--"@] + packages,
        )),
        Apk.del_result(packages, purge, r) ==> !Apk.add_result(others, r),
{
    reveal_strlit("delete");
    reveal_strlit("add");
    match r {
        Ok(AnyCommand::System(c)) => {
            if Apk.del_result(packages, purge, r) && Apk.add_result(others, r) {
                assert(c.argv()[0] == (seq!["delete"@, "--"@] + packages)[0]);
                assert(c.argv()[0] == (seq!["add"@, "--"@] + others)[0]);
            }
        },
        _ => {},
    }
}

} // verus!
