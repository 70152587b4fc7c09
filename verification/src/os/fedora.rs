//! Packages with DNF (Fedora).
use vstd::prelude::*;

use crate::cli::OutputFormat;
use crate::os::linux_generic::common::SystemCommand;
use crate::os::{AnyCommand, AoError, PackageManager};
use crate::text::string_views;

verus! {

/// The DNF package manager.
pub struct Dnf;

impl Dnf {
    /// The manager's name.
    pub fn name(&self) -> (r: &'static str)
        ensures
            r@ == "DNF"@,
    {
        "DNF"
    }

    /// The query that lists the installed package names.
    pub fn installed_query() -> (r: SystemCommand)
        ensures
            r.runs("rpm"@, seq!["-qa"@, "--queryformat"@, "%{NAME}\n"@]),
    {
        SystemCommand::new("rpm").arg("-qa").arg("--queryformat").arg("%{NAME}\n")
    }

    /// The query that lists the package names that can be installed.
    pub fn available_query() -> (r: SystemCommand)
        ensures
            r.runs("dnf"@, seq!["repoquery"@, "--qf"@, "%{name}"@]),
    {
        SystemCommand::new("dnf").arg("repoquery").arg("--qf").arg("%{name}")
    }
}

impl PackageManager for Dnf {
    open spec fn update_result(&self, r: Result<AnyCommand, AoError>) -> bool {
        r matches Ok(AnyCommand::System(c)) && c.runs("dnf"@, seq!["check-update"@])
    }

    open spec fn add_result(&self, packages: Seq<Seq<char>>, r: Result<AnyCommand, AoError>) -> bool {
        r matches Ok(AnyCommand::System(c)) && c.runs("dnf"@, seq!["install"@, "-y"@, "--"@] + packages)
    }

    open spec fn del_result(&self, packages: Seq<Seq<char>>, purge: bool, r: Result<AnyCommand, AoError>) -> bool {
        r matches Ok(AnyCommand::System(c)) && c.runs("dnf"@, seq!["remove"@, "-y"@, "--"@] + packages)
    }

    open spec fn search_result(&self, query: Seq<char>, r: Result<AnyCommand, AoError>) -> bool {
        r matches Ok(AnyCommand::System(c)) && c.runs("dnf"@, seq!["search"@, "--"@, query])
    }

    open spec fn ls_result(&self, format: OutputFormat, r: Result<AnyCommand, AoError>) -> bool {
        r matches Ok(AnyCommand::System(c)) && c.runs("dnf"@, seq!["list"@, "--installed"@])
    }

    fn update(&self) -> (r: Result<AnyCommand, AoError>) {
        Ok(AnyCommand::System(SystemCommand::new("dnf").arg("check-update")))
    }

    fn add(&self, packages: &[String]) -> (r: Result<AnyCommand, AoError>) {
        Ok(AnyCommand::System(SystemCommand::new("dnf").arg("install").arg("-y").arg("--").args(packages)))
    }

    fn del(&self, packages: &[String], _purge: bool) -> (r: Result<AnyCommand, AoError>) {
        Ok(AnyCommand::System(SystemCommand::new("dnf").arg("remove").arg("-y").arg("--").args(packages)))
    }

    fn search(&self, query: &str) -> (r: Result<AnyCommand, AoError>) {
        Ok(AnyCommand::System(SystemCommand::new("dnf").arg("search").arg("--").arg(query)))
    }

    fn ls(&self, _format: OutputFormat) -> (r: Result<AnyCommand, AoError>) {
        Ok(AnyCommand::System(SystemCommand::new("dnf").arg("list").arg("--installed")))
    }
}

/// Deleting packages with dnf removes them (`dnf remove`), and is never the
/// command that installs packages.
pub proof fn lemma_dnf_delete_removes(
    packages: Seq<Seq<char>>,
    purge: bool,
    others: Seq<Seq<char>>,
    r: Result<AnyCommand, AoError>,
)
    ensures
        Dnf.del_result(packages, purge, r) <==> (r matches Ok(AnyCommand::System(c)) && c.runs(
            "dnf"@,
            seq!["remove"@, "-y"@, "--"@] + packages,
        )),
        Dnf.del_result(packages, purge, r) ==> !Dnf.add_result(others, r),
{
    reveal_strlit("remove");
    reveal_strlit("install");
    match r {
        Ok(AnyCommand::System(c)) => {
            if Dnf.del_result(packages, purge, r) && Dnf.add_result(others, r) {
                assert(c.argv()[0] == (seq!["remove"@, "-y"@, "--"@] + packages)[0]);
                assert(c.argv()[0] == (seq!["install"@, "-y"@, "--"@] + others)[0]);
            }
        },
        _ => {},
    }
}

} // verus!
