//! Services driven straight through `systemctl`: each action runs the tool
//! and reports a failing exit status as an error of its own.
use vstd::prelude::*;

use crate::os::AoError;
use crate::os::linux_generic::common::SystemCommand;
use crate::text::{cat, owned};

verus! {

/// How a failing exit status of a call is reported.
pub enum FailureNote {
    /// A failure is accepted.
    Accept,
    /// This message.
    Message(String),
    /// This text followed by the exit status.
    WithStatus(String),
}

/// A `systemctl` call: the command, the message for a command that could
/// not be started, and how a failure is reported.
pub struct ServiceCall {
    pub command: SystemCommand,
    pub context: String,
    pub failure: FailureNote,
}

/// How a call ended.
pub enum CallEnd {
    /// The command could not be started.
    NotStarted,
    /// It ran, and exited with this status (shown as `status`).
    Exited { success: bool, status: String },
}

/// What a call that ended so reports.
pub open spec fn call_outcome(call: ServiceCall, end: CallEnd, r: Result<(), AoError>) -> bool {
    match end {
        CallEnd::NotStarted => r matches Err(e) && e.message@ == call.context@,
        CallEnd::Exited { success, status } => if success {
            r is Ok
        } else {
            match call.failure {
                FailureNote::Accept => r is Ok,
                FailureNote::Message(m) => r matches Err(e) && e.message@ == m@,
                FailureNote::WithStatus(m) => r matches Err(e) && e.message@ == m@ + status@,
            }
        },
    }
}

/// Whether `c` is the call that runs `systemctl` with `argv`, reporting
/// `context` and `failure`.
pub open spec fn systemctl_call(c: ServiceCall, argv: Seq<Seq<char>>, context: Seq<char>, failure: Option<Seq<char>>) -> bool {
    &&& c.command.runs("systemctl"@, argv)
    &&& c.context@ == context
    &&& match failure {
        Some(m) => c.failure matches FailureNote::Message(n) && n@ == m,
        None => c.failure is Accept,
    }
}

/// The service manager that runs `systemctl` itself.
pub struct Systemd;

impl Systemd {
    /// Lists the service units.
    pub fn list(&self) -> (r: ServiceCall)
        ensures
            r.command.runs("systemctl"@, seq!["list-units"@, "--type=service"@]),
            r.context@ == "Failed to execute systemctl list-units"@,
            r.failure matches FailureNote::WithStatus(m) && m@ == "systemctl failed with status "@,
    {
        ServiceCall {
            command: SystemCommand::new("systemctl").arg("list-units").arg("--type=service"),
            context: owned("Failed to execute systemctl list-units"),
            failure: FailureNote::WithStatus(owned("systemctl failed with status ")),
        }
    }

    /// Enables and starts a service.
    pub fn up(&self, service: &str) -> (r: ServiceCall)
        ensures
            systemctl_call(
                r,
                seq!["enable"@, "--now"@, service@],
                "Failed to start/enable service"@,
                Some("systemctl failed to start service "@ + service@),
            ),
    {
        ServiceCall {
            command: SystemCommand::new("systemctl").arg("enable").arg("--now").arg(service),
            context: owned("Failed to start/enable service"),
            failure: FailureNote::Message(cat("systemctl failed to start service ", service)),
        }
    }

    /// Disables and stops a service.
    pub fn down(&self, service: &str) -> (r: ServiceCall)
        ensures
            systemctl_call(
                r,
                seq!["disable"@, "--now"@, service@],
                "Failed to stop/disable service"@,
                Some("systemctl failed to stop service "@ + service@),
            ),
    {
        ServiceCall {
            command: SystemCommand::new("systemctl").arg("disable").arg("--now").arg(service),
            context: owned("Failed to stop/disable service"),
            failure: FailureNote::Message(cat("systemctl failed to stop service ", service)),
        }
    }

    pub fn restart(&self, service: &str) -> (r: ServiceCall)
        ensures
            systemctl_call(
                r,
                seq!["restart"@, service@],
                "Failed to restart service"@,
                Some("systemctl failed to restart service "@ + service@),
            ),
    {
        ServiceCall {
            command: SystemCommand::new("systemctl").arg("restart").arg(service),
            context: owned("Failed to restart service"),
            failure: FailureNote::Message(cat("systemctl failed to restart service ", service)),
        }
    }

    pub fn reload(&self, service: &str) -> (r: ServiceCall)
        ensures
            systemctl_call(
                r,
                seq!["reload"@, service@],
                "Failed to reload service"@,
                Some("systemctl failed to reload service "@ + service@),
            ),
    {
        ServiceCall {
            command: SystemCommand::new("systemctl").arg("reload").arg(service),
            context: owned("Failed to reload service"),
            failure: FailureNote::Message(cat("systemctl failed to reload service ", service)),
        }
    }

    /// The status report, which streams to the terminal; its exit status
    /// is not judged.
    pub fn status(&self, service: &str) -> (r: ServiceCall)
        ensures
            systemctl_call(r, seq!["status"@, service@], "Failed to get status"@, None),
    {
        ServiceCall {
            command: SystemCommand::new("systemctl").arg("status").arg(service),
            context: owned("Failed to get status"),
            failure: FailureNote::Accept,
        }
    }

    /// What a call reports, given how it ended.
    pub fn outcome(call: &ServiceCall, end: &CallEnd) -> (r: Result<(), AoError>)
        ensures
            call_outcome(*call, *end, r),
    {
        match end {
            CallEnd::NotStarted => Err(AoError::new(call.context.clone())),
            CallEnd::Exited { success, status } => {
                if *success {
                    Ok(())
                } else {
                    match &call.failure {
                        FailureNote::Accept => Ok(()),
                        FailureNote::Message(m) => Err(AoError::new(m.clone())),
                        FailureNote::WithStatus(m) => Err(AoError::new(cat(m.as_str(), status.as_str()))),
                    }
                }
            },
        }
    }
}

} // verus!
