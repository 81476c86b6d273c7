//! Failures that the supervisor reports to its caller.
use vstd::prelude::*;
use vstd::string::*;

verus! {

/// Why a supervisor command failed.
#[derive(Clone, Copy, Debug, PartialEq, Eq, Structural)]
pub enum DaemonError {
    /// The PID file holds bytes that are not UTF-8 text.
    PidNotText,
    /// The PID file's text is not a process id.
    InvalidPid,
    /// No PID file exists.
    NotRunning,
    /// The caller lacks the rights to manage the daemon.
    PermissionDenied,
}

impl DaemonError {
    /// A one-line description for the user.
    pub fn message(&self) -> (r: String)
        ensures
            *self == DaemonError::PidNotText ==> r@ == "pid file is not utf8"@,
            *self == DaemonError::InvalidPid ==> r@ == "pid file does not hold a process id"@,
            *self == DaemonError::NotRunning ==> r@ == "devicecheck is not running"@,
            *self == DaemonError::PermissionDenied ==> r@
                == "You must run this executable with root permissions"@,
    {
        match self {
            DaemonError::PidNotText => String::from_str("pid file is not utf8"),
            DaemonError::InvalidPid => String::from_str("pid file does not hold a process id"),
            DaemonError::NotRunning => String::from_str("devicecheck is not running"),
            DaemonError::PermissionDenied => String::from_str(
                "You must run this executable with root permissions",
            ),
        }
    }
}

} // verus!
