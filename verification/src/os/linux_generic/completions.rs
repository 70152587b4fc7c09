//! The stand-alone `completions` domain: generating, installing and
//! setting up shell completions.
use vstd::prelude::*;

use super::common::NoopCommand;
use super::self_domain::{CompletionWork, InstallPlan, completion_work, install_plan, install_target, shell_name, work_of};
use crate::cli::{CompletionsAction, Shell};
use crate::os::{AnyCommand, AoError};

verus! {

/// The stand-alone completions domain, managed under `completions`.
pub struct StandardCompletions;

impl StandardCompletions {
    /// Maps a parsed `completions` invocation to its work, followed by the
    /// command that does nothing.
    pub fn execute(&self, action: &CompletionsAction, bin: &str, exe: &str) -> (r: Result<(CompletionWork, AnyCommand), AoError>)
        ensures
            r matches Ok((w, c)) && work_of(*action, bin@, exe@, "completions"@, w) && c == AnyCommand::Noop(NoopCommand),
    {
        let w = completion_work(action, bin, exe, "completions");
        Ok((w, AnyCommand::Noop(NoopCommand)))
    }

    /// The plan for installing completions.
    pub fn install(&self, shell: Shell, home: &str, exe: &str) -> (r: Result<InstallPlan, AoError>)
        ensures
            match install_target(shell, home@, exe@, "completions"@) {
                Some((path, line)) => r matches Ok(p) && p.config_path@ == path && p.source_cmd@ == line
                    && p.marker@ == "ao "@ + "completions"@ + " generate"@,
                None => r matches Err(e) && e.message@ == "Auto-installation for "@ + shell_name(shell)
                    + " is not supported yet."@,
            },
    {
        install_plan(shell, home, exe, "completions")
    }
}

} // verus!
