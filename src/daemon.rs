//! The supervisor's commands as decisions: what `start`, `stop`,
//! `restart`, `status` and `log` do, given what was found on disk and what
//! the operating system reported. The caller performs the chosen steps.
use crate::error::DaemonError;
use crate::paths::Platform;
use crate::pidfile::lemma_pid_round_trip;
use crate::text::{
    all_white_space, decimal_text, i32_from_text, parse_i32, parse_u32, trimmed, u32_from_text,
};
use vstd::prelude::*;
use vstd::string::*;

verus! {

/// Options handed unread to the supervised service.
#[derive(Clone, Debug)]
pub struct BootArgs {
    /// Debug mode.
    pub debug: bool,
    /// Bind address.
    pub bind: String,
    /// Upstream proxy.
    pub proxy: Option<String>,
    /// CA certificate file path.
    pub cert: String,
    /// CA private key file path.
    pub key: String,
}

impl Default for BootArgs {
    fn default() -> (r: BootArgs)
        ensures
            !r.debug,
            r.bind@ == "0.0.0.0:1080"@,
            r.proxy is None,
            r.cert@ == "ca/cert.crt"@,
            r.key@ == "ca/key.pem"@,
    {
        BootArgs {
            debug: false,
            bind: String::from_str("0.0.0.0:1080"),
            proxy: None,
            cert: String::from_str("ca/cert.crt"),
            key: String::from_str("ca/key.pem"),
        }
    }
}

/// The commands of the command-line surface.
#[derive(Clone, Debug)]
pub enum Commands {
    /// Run the service in the foreground.
    Run(BootArgs),
    /// Start the service as a daemon.
    Start(BootArgs),
    /// Stop, then start, the daemon.
    Restart(BootArgs),
    /// Stop the daemon.
    Stop,
    /// Show the daemon's logs.
    Log,
    /// Show the daemon's process (on `Unix`).
    PS,
    /// Show the daemon's process (on `Windows`).
    Status,
}

/// What `start` decided.
#[derive(Clone, Debug)]
pub enum StartStep {
    /// A PID file exists and names this process id: report it, touch nothing.
    AlreadyRunning(String),
    /// Create the PID and log files, detach, redirect the output streams to
    /// the logs, record the detached process's id, drop privileges, then run
    /// the service.
    Daemonize(BootArgs),
    /// Record this process's id, create the log files, run the service in
    /// the foreground, then remove the PID file whatever the service returned.
    Foreground(BootArgs),
}

/// The decision that `start` makes, where `privilege` is the privilege
/// guard's verdict on the caller.
pub open spec fn start_spec(
    args: BootArgs,
    platform: Platform,
    privilege: Result<(), DaemonError>,
    recorded: Option<String>,
) -> Result<StartStep, DaemonError> {
    match recorded {
        Some(pid) => Ok(StartStep::AlreadyRunning(pid)),
        None => match privilege {
            Err(e) => Err(e),
            Ok(()) => match platform {
                Platform::Unix => Ok(StartStep::Daemonize(args)),
                Platform::Windows => Ok(StartStep::Foreground(args)),
            },
        },
    }
}

/// Starts the service unless the PID file read as `recorded` says that it
/// already runs; a second start is then a no-op, not an error. Otherwise a
/// caller whom the privilege guard refused (`privilege`) gets that error
/// before anything is created.
pub fn start(
    args: BootArgs,
    platform: Platform,
    privilege: Result<(), DaemonError>,
    recorded: Option<String>,
) -> (r: Result<StartStep, DaemonError>)
    ensures
        r == start_spec(args, platform, privilege, recorded),
{
    match recorded {
        Some(pid) => Ok(StartStep::AlreadyRunning(pid)),
        None => match privilege {
            Err(e) => Err(e),
            Ok(()) => match platform {
                Platform::Unix => Ok(StartStep::Daemonize(args)),
                Platform::Windows => Ok(StartStep::Foreground(args)),
            },
        },
    }
}

/// Restarts: the outcome of the stop that ran first, then `start` on what
/// the PID file held afterwards.
pub fn restart(
    args: BootArgs,
    platform: Platform,
    stopped: Result<(), DaemonError>,
    privilege: Result<(), DaemonError>,
    recorded: Option<String>,
) -> (r: Result<StartStep, DaemonError>)
    ensures
        stopped is Err ==> r == Err::<StartStep, DaemonError>(stopped->Err_0),
        stopped is Ok ==> r == start_spec(args, platform, privilege, recorded),
{
    match stopped {
        Err(e) => Err(e),
        Ok(()) => start(args, platform, privilege, recorded),
    }
}

/// What `status` reports for the PID file read as `recorded`.
pub open spec fn status_spec(recorded: Option<String>) -> Result<String, DaemonError> {
    match recorded {
        Some(pid) => Ok(pid),
        None => Err(DaemonError::NotRunning),
    }
}

/// The recorded process id; fails with `NotRunning` when there is no PID file.
pub fn status(recorded: Option<String>) -> (r: Result<String, DaemonError>)
    ensures
        r == status_spec(recorded),
{
    match recorded {
        Some(pid) => Ok(pid),
        None => Err(DaemonError::NotRunning),
    }
}


/// How many interrupt signals a stop sends at most, one second apart.
pub const SIGNAL_ATTEMPTS: u32 = 360;

/// The next step of a stop.
#[derive(Clone, Copy, Debug, PartialEq, Eq, Structural)]
pub enum StopStep {
    /// No PID file exists: nothing to do, and nothing is touched.
    NotRunning,
    /// Send an interrupt to `pid`; where it was delivered, wait one second.
    /// Report the delivery to `after_interrupt`. `attempt` counts the
    /// signals sent before this one.
    Interrupt { pid: i32, attempt: u32 },
    /// Terminate `pid` by force; report the outcome to `after_task_kill`.
    TaskKill(u32),
    /// Remove the PID file, ignoring a failure to do so; the stop succeeded.
    RemovePidFile,
    /// Leave the PID file in place; the stop is over.
    KeepPidFile,
}

/// How a forced termination went.
#[derive(Clone, Copy, Debug, PartialEq, Eq, Structural)]
pub enum TaskKillOutcome {
    /// The process was terminated.
    Succeeded,
    /// The terminating tool ran and reported failure.
    Failed,
    /// The terminating tool could not be run.
    NotLaunched,
}

/// How a stop begins, given the privilege guard's verdict `privilege` and
/// the PID file read as `recorded`.
pub open spec fn stop_spec(
    platform: Platform,
    privilege: Result<(), DaemonError>,
    recorded: Option<Seq<char>>,
) -> Result<StopStep, DaemonError> {
    if privilege is Err {
        Err(privilege->Err_0)
    } else {
        match recorded {
            None => Ok(StopStep::NotRunning),
            Some(t) => match platform {
                Platform::Unix => match i32_from_text(t) {
                    Some(pid) => Ok(StopStep::Interrupt { pid, attempt: 0 }),
                    None => Err(DaemonError::InvalidPid),
                },
                Platform::Windows => match u32_from_text(t) {
                    Some(pid) => Ok(StopStep::TaskKill(pid)),
                    None => Err(DaemonError::InvalidPid),
                },
            },
        }
    }
}

/// The text of an optional string, as a sequence.
pub open spec fn recorded_view(recorded: Option<String>) -> Option<Seq<char>> {
    match recorded {
        Some(t) => Some(t@),
        None => None,
    }
}

/// Begins stopping the daemon whose PID file was read as `recorded`: on
/// `Unix` by interrupt signals, on `Windows` by forced termination. A caller
/// whom the privilege guard refused (`privilege`) gets that error first;
/// otherwise the stop fails with `InvalidPid` where the recorded text is not
/// a process id.
pub fn stop(platform: Platform, privilege: Result<(), DaemonError>, recorded: Option<String>) -> (r:
    Result<StopStep, DaemonError>)
    ensures
        r == stop_spec(platform, privilege, recorded_view(recorded)),
{
    if let Err(e) = privilege {
        return Err(e);
    }
    match recorded {
        None => Ok(StopStep::NotRunning),
        Some(t) => match platform {
            Platform::Unix => match parse_i32(t.as_str()) {
                Some(pid) => Ok(StopStep::Interrupt { pid, attempt: 0 }),
                None => Err(DaemonError::InvalidPid),
            },
            Platform::Windows => match parse_u32(t.as_str()) {
                Some(pid) => Ok(StopStep::TaskKill(pid)),
                None => Err(DaemonError::InvalidPid),
            },
        },
    }
}

/// The step after the interrupt numbered `attempt` was sent to `pid`.
pub open spec fn interrupt_next(pid: i32, attempt: u32, delivered: bool) -> StopStep {
    if delivered && attempt + 1 < SIGNAL_ATTEMPTS {
        StopStep::Interrupt { pid, attempt: (attempt + 1) as u32 }
    } else {
        StopStep::RemovePidFile
    }
}

/// Continues a stop after an interrupt: another one while the signal is
/// still delivered and attempts remain, else removal of the PID file.
pub fn after_interrupt(pid: i32, attempt: u32, delivered: bool) -> (r: StopStep)
    requires
        attempt < SIGNAL_ATTEMPTS,
    ensures
        r == interrupt_next(pid, attempt, delivered),
{
    if delivered && attempt + 1 < SIGNAL_ATTEMPTS {
        StopStep::Interrupt { pid, attempt: attempt + 1 }
    } else {
        StopStep::RemovePidFile
    }
}

/// Continues a stop after a forced termination: the PID file is removed
/// only where the process was terminated, and stays in place otherwise.
pub fn after_task_kill(outcome: TaskKillOutcome) -> (r: StopStep)
    ensures
        outcome == TaskKillOutcome::Succeeded ==> r == StopStep::RemovePidFile,
        outcome != TaskKillOutcome::Succeeded ==> r == StopStep::KeepPidFile,
{
    match outcome {
        TaskKillOutcome::Succeeded => StopStep::RemovePidFile,
        _ => StopStep::KeepPidFile,
    }
}

/// Where interrupts are reported delivered or not as `outcomes` says, the
/// number of interrupts sent from `step` until the PID file is removed;
/// `None` where that does not happen within `outcomes`.
pub open spec fn signals_until_removal(step: StopStep, outcomes: Seq<bool>) -> Option<nat>
    decreases outcomes.len(),
{
    match step {
        StopStep::RemovePidFile => Some(0),
        StopStep::Interrupt { pid, attempt } => if outcomes.len() > 0 && attempt
            < SIGNAL_ATTEMPTS {
            match signals_until_removal(
                interrupt_next(pid, attempt, outcomes[0]),
                outcomes.drop_first(),
            ) {
                Some(n) => Some(n + 1),
                None => None,
            }
        } else {
            None
        },
        _ => None,
    }
}

proof fn lemma_interrupts_end(pid: i32, attempt: u32, outcomes: Seq<bool>)
    requires
        attempt < SIGNAL_ATTEMPTS,
        outcomes.len() >= SIGNAL_ATTEMPTS - attempt,
    ensures
        signals_until_removal(StopStep::Interrupt { pid, attempt }, outcomes) matches Some(n) && n
            <= SIGNAL_ATTEMPTS - attempt,
    decreases SIGNAL_ATTEMPTS - attempt,
{
    let next = interrupt_next(pid, attempt, outcomes[0]);
    let rest = outcomes.drop_first();
    if next is Interrupt {
        lemma_interrupts_end(pid, (attempt + 1) as u32, rest);
    } else {
        assert(signals_until_removal(next, rest) == Some(0nat));
    }
}

/// On `Unix`, a permitted stop that finds a PID file holding a process id
/// removes that file after at most `SIGNAL_ATTEMPTS` interrupts, whether or
/// not the process ever exits.
pub proof fn lemma_stop_removes_pid_file(recorded: Seq<char>, outcomes: Seq<bool>)
    requires
        i32_from_text(recorded) is Some,
        outcomes.len() >= SIGNAL_ATTEMPTS,
    ensures
        stop_spec(Platform::Unix, Ok(()), Some(recorded)) matches Ok(step) && signals_until_removal(
            step,
            outcomes,
        ) matches Some(n) && n <= SIGNAL_ATTEMPTS,
{
    let pid = i32_from_text(recorded)->0;
    lemma_interrupts_end(pid, 0, outcomes);
}

/// A permitted stop that finds no PID file succeeds at once and touches
/// nothing.
pub proof fn lemma_stop_without_pid_file(platform: Platform)
    ensures
        stop_spec(platform, Ok(()), None) == Ok::<StopStep, DaemonError>(StopStep::NotRunning),
{
}

/// Once a start has recorded process `pid` (the file's text may be framed
/// by white space), a second start reports that same id and writes nothing,
/// whatever the privilege guard says.
pub proof fn lemma_second_start_is_no_op(
    args: BootArgs,
    platform: Platform,
    privilege: Result<(), DaemonError>,
    pid: u32,
    before: Seq<char>,
    after: Seq<char>,
    recorded: String,
)
    requires
        all_white_space(before),
        all_white_space(after),
        recorded@ == trimmed(before + decimal_text(pid as nat) + after),
    ensures
        start_spec(args, platform, privilege, Some(recorded)) == Ok::<StartStep, DaemonError>(
            StartStep::AlreadyRunning(recorded),
        ),
        recorded@ == decimal_text(pid as nat),
{
    lemma_pid_round_trip(pid, before, after);
}

/// Status fails exactly when there is no PID file; otherwise it reports the
/// process id that start recorded.
pub proof fn lemma_status_reports_recorded_pid(
    pid: u32,
    before: Seq<char>,
    after: Seq<char>,
    recorded: Option<String>,
)
    requires
        all_white_space(before),
        all_white_space(after),
        recorded matches Some(t) ==> t@ == trimmed(before + decimal_text(pid as nat) + after),
    ensures
        status_spec(recorded) is Err <==> recorded is None,
        recorded is None ==> status_spec(recorded) == Err::<String, DaemonError>(
            DaemonError::NotRunning,
        ),
        status_spec(recorded) matches Ok(t) ==> t@ == decimal_text(pid as nat),
{
    lemma_pid_round_trip(pid, before, after);
}


/// The line printed before the standard output log.
pub const STDOUT_MARKER: &'static str = "STDOUT>";

/// The line printed before the standard error log.
pub const STDERR_MARKER: &'static str = "STDERR>";

/// The texts of a sequence of lines.
pub open spec fn lines_view(lines: Seq<String>) -> Seq<Seq<char>> {
    lines.map_values(|l: String| l@)
}

/// One log's part of the output: its marker then its lines, or nothing
/// where it has no line.
pub open spec fn section(marker: Seq<char>, lines: Seq<Seq<char>>) -> Seq<Seq<char>> {
    if lines.len() == 0 {
        Seq::empty()
    } else {
        seq![marker] + lines
    }
}

/// What `log` prints for the lines read from the two logs.
pub open spec fn log_spec(stdout_lines: Seq<Seq<char>>, stderr_lines: Seq<Seq<char>>) -> Seq<Seq<char>> {
    section(STDOUT_MARKER@, stdout_lines) + section(STDERR_MARKER@, stderr_lines)
}

fn push_section(out: &mut Vec<String>, marker: &str, lines: &Vec<String>)
    ensures
        lines_view(final(out)@) == lines_view(old(out)@) + section(marker@, lines_view(lines@)),
{
    if lines.len() == 0 {
        assert(lines_view(old(out)@) + section(marker@, lines_view(lines@)) =~= lines_view(old(out)@));
        return;
    }
    let ghost start = out@;
    out.push(String::from_str(marker));
    let mut i: usize = 0;
    while i < lines.len()
        invariant
            0 <= i <= lines.len(),
            lines_view(out@) == lines_view(start) + seq![marker@] + lines_view(lines@.subrange(0, i as int)),
        decreases lines.len() - i,
    {
        let ghost before = out@;
        out.push(lines[i].clone());
        assert(lines@.subrange(0, i + 1) == lines@.subrange(0, i as int).push(lines@[i as int]));
        assert(lines_view(out@) =~= lines_view(before).push(lines@[i as int]@));
        assert(lines_view(lines@.subrange(0, i + 1)) =~= lines_view(lines@.subrange(0, i as int)).push(lines@[i as int]@));
        assert(lines_view(out@) =~= lines_view(start) + seq![marker@] + lines_view(lines@.subrange(0, i + 1)));
        i = i + 1;
    }
    assert(lines@.subrange(0, i as int) == lines@);
    assert(lines_view(out@) =~= lines_view(start) + section(marker@, lines_view(lines@)));
}

/// The lines to print for the logs whose lines are `stdout_lines` and
/// `stderr_lines`: each non-empty log under its marker, output first.
pub fn log(stdout_lines: &Vec<String>, stderr_lines: &Vec<String>) -> (r: Vec<String>)
    ensures
        lines_view(r@) == log_spec(lines_view(stdout_lines@), lines_view(stderr_lines@)),
{
    let mut out: Vec<String> = Vec::new();
    push_section(&mut out, STDOUT_MARKER, stdout_lines);
    push_section(&mut out, STDERR_MARKER, stderr_lines);
    assert(lines_view(Seq::<String>::empty()) =~= Seq::<Seq<char>>::empty());
    assert(lines_view(out@) =~= log_spec(lines_view(stdout_lines@), lines_view(stderr_lines@)));
    out
}

/// Where both logs hold lines, the output is one output marker, the output
/// lines, one error marker and the error lines, in that order.
pub proof fn lemma_log_layout(stdout_lines: Seq<Seq<char>>, stderr_lines: Seq<Seq<char>>)
    requires
        stdout_lines.len() > 0,
        stderr_lines.len() > 0,
    ensures
        log_spec(stdout_lines, stderr_lines) == seq![STDOUT_MARKER@] + stdout_lines + seq![
            STDERR_MARKER@,
        ] + stderr_lines,
{
    assert(log_spec(stdout_lines, stderr_lines) =~= seq![STDOUT_MARKER@] + stdout_lines + seq![
        STDERR_MARKER@,
    ] + stderr_lines);
}

} // verus!
