//! Packages with pacman (Arch Linux).
use vstd::prelude::*;

use crate::cli::OutputFormat;
use crate::os::linux_generic::common::SystemCommand;
use crate::os::{AnyCommand, AoError, PackageManager};
use crate::text::string_views;

verus! {

/// The pacman package manager.
pub struct Pacman;

impl Pacman {
    /// The manager's name.
    pub fn name(&self) -> (r: &'static str)
        ensures
            r@ == "Pacman"@,
    {
        "Pacman"
    }

    /// The query that lists the installed package names.
    pub fn installed_query() -> (r: SystemCommand)
        ensures
            r.runs("pacman"@, seq!["-Qq"@]),
    {
        SystemCommand::new("pacman").arg("-Qq")
    }

    /// The query that lists the package names that can be installed.
    pub fn available_query() -> (r: SystemCommand)
        ensures
            r.runs("pacman"@, seq!["-Slq"@]),
    {
        SystemCommand::new("pacman").arg("-Slq")
    }
}

impl PackageManager for Pacman {
    open spec fn update_result(&self, r: Result<AnyCommand, AoError>) -> bool {
        r matches Ok(AnyCommand::System(c)) && c.runs("pacman"@, seq!["-Syu"@])
    }

    open spec fn add_result(&self, packages: Seq<Seq<char>>, r: Result<AnyCommand, AoError>) -> bool {
        r matches Ok(AnyCommand::System(c)) && c.runs("pacman"@, seq!["-S"@, "--noconfirm"@, "--"@] + packages)
    }

    open spec fn del_result(&self, packages: Seq<Seq<char>>, purge: bool, r: Result<AnyCommand, AoError>) -> bool {
        r matches Ok(AnyCommand::System(c)) && c.runs("pacman"@, seq!["-Rs"@, "--noconfirm"@, "--"@] + packages)
    }

    open spec fn search_result(&self, query: Seq<char>, r: Result<AnyCommand, AoError>) -> bool {
        r matches Ok(AnyCommand::System(c)) && c.runs("pacman"@, seq!["-Ss"@, "--"@, query])
    }

    open spec fn ls_result(&self, format: OutputFormat, r: Result<AnyCommand, AoError>) -> bool {
        r matches Ok(AnyCommand::System(c)) && c.runs("pacman"@, seq!["-Q"@])
    }

    fn update(&self) -> (r: Result<AnyCommand, AoError>) {
        Ok(AnyCommand::System(SystemCommand::new("pacman").arg("-Syu")))
    }

    fn add(&self, packages: &[String]) -> (r: Result<AnyCommand, AoError>) {
        Ok(AnyCommand::System(SystemCommand::new("pacman").arg("-S").arg("--noconfirm").arg("--").args(packages)))
    }

    fn del(&self, packages: &[String], _purge: bool) -> (r: Result<AnyCommand, AoError>) {
        Ok(AnyCommand::System(SystemCommand::new("pacman").arg("-Rs").arg("--noconfirm").arg("--").args(packages)))
    }

    fn search(&self, query: &str) -> (r: Result<AnyCommand, AoError>) {
        Ok(AnyCommand::System(SystemCommand::new("pacman").arg("-Ss").arg("--").arg(query)))
    }

    fn ls(&self, _format: OutputFormat) -> (r: Result<AnyCommand, AoError>) {
        Ok(AnyCommand::System(SystemCommand::new("pacman").arg("-Q")))
    }
}

/// Deleting packages with pacman removes them with the dependencies that
/// nothing else needs (`pacman -Rs`), and is never the command that
/// installs packages.
pub proof fn lemma_pacman_delete_removes(
    packages: Seq<Seq<char>>,
    purge: bool,
    others: Seq<Seq<char>>,
    r: Result<AnyCommand, AoError>,
)
    ensures
        Pacman.del_result(packages, purge, r) <==> (r matches Ok(AnyCommand::System(c)) && c.runs(
            "pacman"@,
            seq!["-Rs"@, "--noconfirm"@, "--"@] + packages,
        )),
        Pacman.del_result(packages, purge, r) ==> !Pacman.add_result(others, r),
{
    reveal_strlit("-Rs");
    reveal_strlit("-S");
    match r {
        Ok(AnyCommand::System(c)) => {
            if Pacman.del_result(packages, purge, r) && Pacman.add_result(others, r) {
                assert(c.argv()[0] == (seq!["-Rs"@, "--noconfirm"@, "--"@] + packages)[0]);
                assert(c.argv()[0] == (seq!["-S"@, "--noconfirm"@, "--"@] + others)[0]);
            }
        },
        _ => {},
    }
}

} // verus!
