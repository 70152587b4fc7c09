//! Security: a quick audit and the mandatory access control state.
use vstd::prelude::*;

use super::common::SystemCommand;
use crate::cli::{OutputFormat, SecurityAction, SecurityArgs, is_structured_format};
use crate::os::{AnyCommand, AoError, ExecutableCommand, SecAuditInfo};
use crate::text::owned;

verus! {

/// The security domain.
pub struct StandardSec;

pub open spec fn audit_plan(format: OutputFormat, c: AnyCommand) -> bool {
    if format == OutputFormat::Original {
        c matches AnyCommand::System(s) && s.runs("lynis"@, seq!["audit"@, "system"@, "--quick"@])
    } else {
        c == AnyCommand::SecAudit(SecAuditCommand { format })
    }
}

impl StandardSec {
    /// Maps a parsed `security` invocation to its command.
    pub fn execute(&self, args: &SecurityArgs) -> (r: Result<AnyCommand, AoError>)
        ensures
            r matches Ok(c) && match args.action {
                Some(SecurityAction::Audit { format }) => audit_plan(format, c),
                Some(SecurityAction::Context) => c == AnyCommand::SecContext(SecContextCommand),
                None => audit_plan(OutputFormat::Table, c),
            },
    {
        match &args.action {
            Some(SecurityAction::Audit { format }) => self.audit(*format),
            Some(SecurityAction::Context) => self.context(),
            None => self.audit(OutputFormat::Table),
        }
    }

    /// The audit; the original output is a quick `lynis` audit.
    pub fn audit(&self, format: OutputFormat) -> (r: Result<AnyCommand, AoError>)
        ensures
            r matches Ok(c) && audit_plan(format, c),
    {
        if matches!(format, OutputFormat::Original) {
            return Ok(AnyCommand::System(SystemCommand::new("lynis").arg("audit").arg("system").arg("--quick")));
        }
        Ok(AnyCommand::SecAudit(SecAuditCommand { format }))
    }

    pub fn context(&self) -> (r: Result<AnyCommand, AoError>)
        ensures
            r == Ok::<AnyCommand, AoError>(AnyCommand::SecContext(SecContextCommand)),
    {
        Ok(AnyCommand::SecContext(SecContextCommand))
    }
}

/// Shows the state of SELinux, or else of AppArmor.
pub struct SecContextCommand;

/// How running a status tool ended.
#[derive(Clone, Copy, Debug, PartialEq, Eq, Structural)]
pub enum ToolOutcome {
    /// It ran (it prints its own report).
    Ran,
    /// It is not installed.
    NotFound,
    /// It could not be started for another reason.
    Failed,
}

/// What to do next while showing the security context.
pub enum ContextStep {
    /// Run this tool and report how it ended.
    Run(SystemCommand),
    /// Done.
    Done,
    /// Print this notice; done.
    Notice(String),
    /// Stop with the failure of the tool that was tried.
    Fail,
}

impl SecContextCommand {
    /// The next step, given how many tools were tried and how the last one
    /// ended: `sestatus` first, then `apparmor_status`, then a notice that
    /// neither is available.
    pub fn next(tried: usize, last: Option<ToolOutcome>) -> (r: ContextStep)
        ensures
            tried == 0 ==> (r matches ContextStep::Run(c) && c.runs("sestatus"@, seq![])),
            tried > 0 && last == Some(ToolOutcome::Ran) ==> r is Done,
            tried > 0 && last == Some(ToolOutcome::Failed) ==> r is Fail,
            tried == 1 && last != Some(ToolOutcome::Ran) && last != Some(ToolOutcome::Failed) ==> (r matches ContextStep::Run(c)
                && c.runs("apparmor_status"@, seq![])),
            tried >= 2 && last != Some(ToolOutcome::Ran) && last != Some(ToolOutcome::Failed) ==> (r matches ContextStep::Notice(m)
                && m@ == "Neither SELinux nor AppArmor appear to be available on this system."@),
    {
        if tried == 0 {
            return ContextStep::Run(SystemCommand::new("sestatus"));
        }
        match last {
            Some(ToolOutcome::Ran) => ContextStep::Done,
            Some(ToolOutcome::Failed) => ContextStep::Fail,
            _ => if tried == 1 {
                ContextStep::Run(SystemCommand::new("apparmor_status"))
            } else {
                ContextStep::Notice(owned("Neither SELinux nor AppArmor appear to be available on this system."))
            },
        }
    }
}

impl ExecutableCommand for SecContextCommand {
    open spec fn text(&self) -> Seq<char> {
        "sestatus || apparmor_status"@
    }

    open spec fn structured(&self) -> bool {
        false
    }

    fn as_string(&self) -> (r: String) {
        owned("sestatus || apparmor_status")
    }

    fn is_structured(&self) -> (r: bool) {
        false
    }
}

/// A quick security audit.
pub struct SecAuditCommand {
    pub format: OutputFormat,
}

impl SecAuditInfo {
    pub open spec fn record(&self) -> (Seq<char>, Seq<char>, Seq<char>) {
        (self.title@, self.result@, self.recommendation@)
    }
}

impl SecAuditCommand {
    /// The checks of the audit and their findings.
    pub fn audits() -> (r: Vec<SecAuditInfo>)
        ensures
            r@.map_values(|a: SecAuditInfo| a.record()) == seq![
                ("Password Quality"@, "Weak"@, "Use libpam-pwquality"@),
                ("SSH Port"@, "Standard (22)"@, "Close port 22 if not needed"@),
            ],
    {
        let v = vec![
            SecAuditInfo {
                title: owned("Password Quality"),
                result: owned("Weak"),
                recommendation: owned("Use libpam-pwquality"),
            },
            SecAuditInfo {
                title: owned("SSH Port"),
                result: owned("Standard (22)"),
                recommendation: owned("Close port 22 if not needed"),
            },
        ];
        assert(v@.map_values(|a: SecAuditInfo| a.record()) =~= seq![
            ("Password Quality"@, "Weak"@, "Use libpam-pwquality"@),
            ("SSH Port"@, "Standard (22)"@, "Close port 22 if not needed"@),
        ]);
        v
    }
}

impl ExecutableCommand for SecAuditCommand {
    open spec fn text(&self) -> Seq<char> {
        "Custom security audit logic"@
    }

    open spec fn structured(&self) -> bool {
        is_structured_format(self.format)
    }

    fn as_string(&self) -> (r: String) {
        owned("Custom security audit logic")
    }

    fn is_structured(&self) -> (r: bool) {
        self.format.structured()
    }
}

} // verus!
