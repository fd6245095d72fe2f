//! Stopping an instance and proving that its process is dead.

use crate::error::{Error, ErrorView};
use crate::manager::recovery::ReapOutcome;
use crate::text;
use vstd::prelude::*;
use vstd::string::*;

verus! {

/// The decimals of that many thousandths, without zeros at the end.
pub open spec fn decimals(thousandths: nat) -> Seq<char> {
    let tenths = text::decimal(thousandths / 100);
    let hundredths = text::decimal(thousandths / 10 % 10);
    if thousandths == 0 {
        ""@
    } else if thousandths % 100 == 0 {
        "."@ + tenths
    } else if thousandths % 10 == 0 {
        "."@ + tenths + hundredths
    } else {
        "."@ + tenths + hundredths + text::decimal(thousandths % 10)
    }
}

/// A duration of that many milliseconds as it is shown: in seconds from one
/// second on, and else in milliseconds.
pub open spec fn shown_duration(millis: u64) -> Seq<char> {
    if millis == 0 {
        "0ns"@
    } else if millis < 1000 {
        text::decimal(millis as nat) + "ms"@
    } else {
        text::decimal(millis as nat / 1000) + decimals(millis as nat % 1000) + "s"@
    }
}

fn show_decimals(thousandths: u64) -> (res: String)
    requires
        thousandths < 1000,
    ensures
        res@ == decimals(thousandths as nat),
{
    let tenths: String = text::decimal_text(thousandths / 100);
    let hundredths: String = text::decimal_text(thousandths / 10 % 10);
    if thousandths == 0 {
        "".to_owned()
    } else if thousandths % 100 == 0 {
        text::concat(".", tenths.as_str())
    } else if thousandths % 10 == 0 {
        text::concat3(".", tenths.as_str(), hundredths.as_str())
    } else {
        let rest: String = text::decimal_text(thousandths % 10);
        text::concat4(".", tenths.as_str(), hundredths.as_str(), rest.as_str())
    }
}

/// Shows a duration of that many milliseconds.
pub fn show_duration(millis: u64) -> (res: String)
    ensures
        res@ == shown_duration(millis),
{
    if millis == 0 {
        "0ns".to_owned()
    } else if millis < 1000 {
        let digits: String = text::decimal_text(millis);
        text::concat(digits.as_str(), "ms")
    } else {
        let digits: String = text::decimal_text(millis / 1000);
        let rest: String = show_decimals(millis % 1000);
        text::concat3(digits.as_str(), rest.as_str(), "s")
    }
}

/// Where the pid record of an epoch is, and the runtime directory it has to
/// stand in, if the config path has one.
#[derive(Debug, PartialEq, Eq)]
pub struct EpochRecord {
    pub pid_file: String,
    pub runtime_dir: Option<String>,
}

/// What came of stopping the supervisor.
#[derive(Debug, PartialEq, Eq)]
pub enum SupervisorStop {
    /// There was no supervisor any more.
    Absent,
    Stopped,
    AlreadyExited,
    Failed(String),
    TimedOut,
}

/// What is done to stop an instance.
#[derive(Debug, Clone, Copy, PartialEq, Eq)]
pub enum HaltWork<'a> {
    /// Cancel the probes and stop the supervisor, within the time given.
    StopSupervisor { timeout_ms: u64 },
    /// Wait for the monitor to end, within the time given.
    JoinMonitor { timeout_ms: u64 },
    /// Look whether the pid record exists.
    FindRecord { pid_file: &'a str },
    /// Find and end the process by its pid record, which has to stand in the
    /// runtime directory.
    Reap { pid_file: &'a str, runtime_dir: &'a str },
}

/// The content of a [`HaltWork`].
pub enum HaltWorkView {
    StopSupervisor { timeout_ms: u64 },
    JoinMonitor { timeout_ms: u64 },
    FindRecord { pid_file: Seq<char> },
    Reap { pid_file: Seq<char>, runtime_dir: Seq<char> },
}

impl<'a> View for HaltWork<'a> {
    type V = HaltWorkView;

    open spec fn view(&self) -> HaltWorkView {
        match *self {
            HaltWork::StopSupervisor { timeout_ms } => HaltWorkView::StopSupervisor { timeout_ms },
            HaltWork::JoinMonitor { timeout_ms } => HaltWorkView::JoinMonitor { timeout_ms },
            HaltWork::FindRecord { pid_file } => HaltWorkView::FindRecord { pid_file: pid_file@ },
            HaltWork::Reap { pid_file, runtime_dir } => HaltWorkView::Reap {
                pid_file: pid_file@,
                runtime_dir: runtime_dir@,
            },
        }
    }
}

/// What came of a piece of [`HaltWork`].
#[derive(Debug, PartialEq, Eq)]
pub enum HaltReport {
    SupervisorStopped(SupervisorStop),
    /// Whether the monitor ended by itself in time, and whether the instance
    /// shows as ended now.
    MonitorJoined { confirmed: bool, terminal: bool },
    RecordFound(Result<bool, Error>),
    Reaped(Result<ReapOutcome, Error>),
}

/// A step of stopping an instance.
#[derive(Debug, PartialEq, Eq)]
pub enum HaltStep {
    StopSupervisor { record: Option<EpochRecord>, timeout_ms: u64 },
    JoinMonitor { record: Option<EpochRecord>, timeout_ms: u64, stop_error: Option<String> },
    /// The instance ended; a record that is left has to be dealt with.
    FindRecord { left: EpochRecord, stopped: bool },
    VerifyRecord { pid_file: String, runtime_dir: String, stopped: bool },
    /// The instance may not have ended; its record decides.
    ReapRecord { pid_file: String, runtime_dir: String, failure: String, terminal: bool },
}

/// Where stopping an instance stands.
#[derive(Debug, PartialEq, Eq)]
pub enum Halt {
    Continue(HaltStep),
    /// The process is dead. `publish_stopped` asks to publish that the user
    /// stopped it.
    Dead { publish_stopped: bool },
    /// Nobody knows whether the process is dead.
    Unknown(Error),
}

/// The content of a [`Halt`].
pub enum HaltView {
    Continue(HaltStepView),
    Dead { publish_stopped: bool },
    Unknown(ErrorView),
}

/// The content of a [`HaltStep`].
pub enum HaltStepView {
    StopSupervisor { record: Option<EpochRecord>, timeout_ms: u64 },
    JoinMonitor { record: Option<EpochRecord>, timeout_ms: u64, stop_error: Option<Seq<char>> },
    FindRecord { left: EpochRecord, stopped: bool },
    VerifyRecord { pid_file: Seq<char>, runtime_dir: Seq<char>, stopped: bool },
    ReapRecord {
        pid_file: Seq<char>,
        runtime_dir: Seq<char>,
        failure: Seq<char>,
        terminal: bool,
    },
}

impl View for HaltStep {
    type V = HaltStepView;

    open spec fn view(&self) -> HaltStepView {
        match *self {
            HaltStep::StopSupervisor { record, timeout_ms } => HaltStepView::StopSupervisor {
                record,
                timeout_ms,
            },
            HaltStep::JoinMonitor { record, timeout_ms, stop_error } => HaltStepView::JoinMonitor {
                record,
                timeout_ms,
                stop_error: crate::state::text_of(stop_error),
            },
            HaltStep::FindRecord { left, stopped } => HaltStepView::FindRecord { left, stopped },
            HaltStep::VerifyRecord { pid_file, runtime_dir, stopped } =>
                HaltStepView::VerifyRecord {
                pid_file: pid_file@,
                runtime_dir: runtime_dir@,
                stopped,
            },
            HaltStep::ReapRecord { pid_file, runtime_dir, failure, terminal } =>
                HaltStepView::ReapRecord {
                pid_file: pid_file@,
                runtime_dir: runtime_dir@,
                failure: failure@,
                terminal,
            },
        }
    }
}

impl View for Halt {
    type V = HaltView;

    open spec fn view(&self) -> HaltView {
        match *self {
            Halt::Continue(step) => HaltView::Continue(step@),
            Halt::Dead { publish_stopped } => HaltView::Dead { publish_stopped },
            Halt::Unknown(error) => HaltView::Unknown(error@),
        }
    }
}

/// That a process may be alive.
pub open spec fn unconfirmed(detail: Seq<char>) -> HaltView {
    HaltView::Unknown(ErrorView::StopUnconfirmed(detail))
}

/// That the record of an instance that ended could not be dealt with.
pub open spec fn unverified(stopped: bool, error: ErrorView) -> HaltView {
    unconfirmed(
        (if stopped {
            "stopped instance identity verification failed: "@
        } else {
            "terminal instance identity verification failed: "@
        }) + error.text(),
    )
}

/// An instance that ended is dead once its record, if there is one, has been
/// dealt with. `stopped` tells whether it ended because it was stopped.
pub open spec fn begin_verification(record: Option<EpochRecord>, stopped: bool) -> HaltView {
    match record {
        Some(record) => HaltView::Continue(HaltStepView::FindRecord { left: record, stopped }),
        None => HaltView::Dead { publish_stopped: false },
    }
}

/// What stopping an instance begins with.
pub open spec fn begin_halt(
    terminal: bool,
    record: Option<EpochRecord>,
    timeout_ms: u64,
) -> HaltView {
    if terminal {
        begin_verification(record, false)
    } else {
        HaltView::Continue(HaltStepView::StopSupervisor { record, timeout_ms })
    }
}

/// Why the supervisor's stop does not count, if it does not.
pub open spec fn supervisor_failure(stop: SupervisorStop, timeout_ms: u64) -> Option<Seq<char>> {
    match stop {
        SupervisorStop::Absent => None,
        SupervisorStop::Stopped => None,
        SupervisorStop::AlreadyExited => None,
        SupervisorStop::Failed(error) => Some("supervisor stop failed: "@ + error@),
        SupervisorStop::TimedOut => Some("supervisor stop exceeded "@ + shown_duration(timeout_ms)),
    }
}

/// What follows a report to a step of stopping. Any report other than the one
/// that the step waits for changes nothing.
pub open spec fn halt_advanced(step: HaltStep, report: HaltReport) -> HaltView {
    match (step, report) {
        (
            HaltStep::StopSupervisor { record, timeout_ms },
            HaltReport::SupervisorStopped(stop),
        ) => HaltView::Continue(
            HaltStepView::JoinMonitor {
                record,
                timeout_ms,
                stop_error: supervisor_failure(stop, timeout_ms),
            },
        ),
        (
            HaltStep::JoinMonitor { record, stop_error, .. },
            HaltReport::MonitorJoined { confirmed, terminal },
        ) => if stop_error is None && (confirmed || terminal) {
            begin_verification(record, true)
        } else {
            let detail = match stop_error {
                Some(error) => error@,
                None => "instance monitor did not confirm termination"@,
            };
            match record {
                None => unconfirmed(detail),
                Some(record) => match record.runtime_dir {
                    None => unconfirmed("runtime config has no parent directory"@),
                    Some(runtime_dir) => HaltView::Continue(
                        HaltStepView::ReapRecord {
                            pid_file: record.pid_file@,
                            runtime_dir: runtime_dir@,
                            failure: detail,
                            terminal,
                        },
                    ),
                },
            }
        },
        (HaltStep::FindRecord { stopped, .. }, HaltReport::RecordFound(Err(error))) => unverified(
            stopped,
            error@,
        ),
        (HaltStep::FindRecord { left, stopped }, HaltReport::RecordFound(Ok(exists))) => if !exists {
            HaltView::Dead { publish_stopped: false }
        } else {
            match left.runtime_dir {
                None => unverified(
                    stopped,
                    ErrorView::StopUnconfirmed("runtime config has no parent directory"@),
                ),
                Some(runtime_dir) => HaltView::Continue(
                    HaltStepView::VerifyRecord {
                        pid_file: left.pid_file@,
                        runtime_dir: runtime_dir@,
                        stopped,
                    },
                ),
            }
        },
        (HaltStep::VerifyRecord { stopped, .. }, HaltReport::Reaped(Err(error))) => unverified(
            stopped,
            error@,
        ),
        (HaltStep::VerifyRecord { .. }, HaltReport::Reaped(Ok(_))) => HaltView::Dead {
            publish_stopped: false,
        },
        (HaltStep::ReapRecord { failure, .. }, HaltReport::Reaped(Err(error))) => unconfirmed(
            failure@ + "; epoch identity reaper failed: "@ + error@.text(),
        ),
        (HaltStep::ReapRecord { failure, terminal, .. }, HaltReport::Reaped(Ok(outcome))) => if outcome
            != ReapOutcome::NotFound || terminal {
            HaltView::Dead { publish_stopped: !terminal }
        } else {
            unconfirmed(failure@)
        },
        (step, _) => HaltView::Continue(step@),
    }
}

fn verify(record: Option<EpochRecord>, stopped: bool) -> (res: Halt)
    ensures
        res@ == begin_verification(record, stopped),
{
    match record {
        Some(record) => Halt::Continue(HaltStep::FindRecord { left: record, stopped }),
        None => Halt::Dead { publish_stopped: false },
    }
}

fn verification_failed(stopped: bool, error: &Error) -> (res: Halt)
    ensures
        res@ == unverified(stopped, error@),
{
    let detail: String = error.message();
    let lead: &str = if stopped {
        "stopped instance identity verification failed: "
    } else {
        "terminal instance identity verification failed: "
    };
    Halt::Unknown(Error::StopUnconfirmed(text::concat(lead, detail.as_str())))
}

impl HaltStep {
    /// The work that this step waits for.
    pub fn work<'a>(&'a self) -> (res: HaltWork<'a>)
        ensures
            res@ == match self@ {
                HaltStepView::StopSupervisor { timeout_ms, .. } => HaltWorkView::StopSupervisor {
                    timeout_ms,
                },
                HaltStepView::JoinMonitor { timeout_ms, .. } => HaltWorkView::JoinMonitor {
                    timeout_ms,
                },
                HaltStepView::FindRecord { left, .. } => HaltWorkView::FindRecord {
                    pid_file: left.pid_file@,
                },
                HaltStepView::VerifyRecord { pid_file, runtime_dir, .. } => HaltWorkView::Reap {
                    pid_file,
                    runtime_dir,
                },
                HaltStepView::ReapRecord { pid_file, runtime_dir, .. } => HaltWorkView::Reap {
                    pid_file,
                    runtime_dir,
                },
            },
    {
        match self {
            HaltStep::StopSupervisor { timeout_ms, .. } => HaltWork::StopSupervisor {
                timeout_ms: *timeout_ms,
            },
            HaltStep::JoinMonitor { timeout_ms, .. } => HaltWork::JoinMonitor {
                timeout_ms: *timeout_ms,
            },
            HaltStep::FindRecord { left, .. } => HaltWork::FindRecord {
                pid_file: left.pid_file.as_str(),
            },
            HaltStep::VerifyRecord { pid_file, runtime_dir, .. } => HaltWork::Reap {
                pid_file: pid_file.as_str(),
                runtime_dir: runtime_dir.as_str(),
            },
            HaltStep::ReapRecord { pid_file, runtime_dir, .. } => HaltWork::Reap {
                pid_file: pid_file.as_str(),
                runtime_dir: runtime_dir.as_str(),
            },
        }
    }
}

/// Begins to stop an instance and to prove that its process is dead. `terminal`
/// tells whether the instance shows as ended already. Where the supervisor's
/// stop is uncertain, the pid record of the epoch is the only authority for a
/// kill.
pub fn stop_and_confirm_dead(
    terminal: bool,
    record: Option<EpochRecord>,
    timeout_ms: u64,
) -> (res: Halt)
    ensures
        res@ == begin_halt(terminal, record, timeout_ms),
{
    if terminal {
        return verify(record, false);
    }
    Halt::Continue(HaltStep::StopSupervisor { record, timeout_ms })
}

/// Goes on with stopping an instance.
pub fn advance(step: HaltStep, report: HaltReport) -> (res: Halt)
    ensures
        res@ == halt_advanced(step, report),
{
    match (step, report) {
        (
            HaltStep::StopSupervisor { record, timeout_ms },
            HaltReport::SupervisorStopped(stop),
        ) => {
            let stop_error: Option<String> = match stop {
                SupervisorStop::Absent => None,
                SupervisorStop::Stopped => None,
                SupervisorStop::AlreadyExited => None,
                SupervisorStop::Failed(error) => Some(
                    text::concat("supervisor stop failed: ", error.as_str()),
                ),
                SupervisorStop::TimedOut => {
                    let shown: String = show_duration(timeout_ms);
                    Some(text::concat("supervisor stop exceeded ", shown.as_str()))
                },
            };
            Halt::Continue(HaltStep::JoinMonitor { record, timeout_ms, stop_error })
        },
        (
            HaltStep::JoinMonitor { record, stop_error, .. },
            HaltReport::MonitorJoined { confirmed, terminal },
        ) => {
            if stop_error.is_none() && (confirmed || terminal) {
                return verify(record, true);
            }
            let detail: String = match stop_error {
                Some(error) => error,
                None => "instance monitor did not confirm termination".to_owned(),
            };
            match record {
                None => Halt::Unknown(Error::StopUnconfirmed(detail)),
                Some(record) => match record.runtime_dir {
                    None => Halt::Unknown(
                        Error::StopUnconfirmed("runtime config has no parent directory".to_owned()),
                    ),
                    Some(runtime_dir) => Halt::Continue(
                        HaltStep::ReapRecord {
                            pid_file: record.pid_file,
                            runtime_dir,
                            failure: detail,
                            terminal,
                        },
                    ),
                },
            }
        },
        (
            HaltStep::FindRecord { stopped, .. },
            HaltReport::RecordFound(Err(error)),
        ) => verification_failed(stopped, &error),
        (HaltStep::FindRecord { left, stopped }, HaltReport::RecordFound(Ok(exists))) => {
            if !exists {
                return Halt::Dead { publish_stopped: false };
            }
            match left.runtime_dir {
                None => {
                    let error: Error = Error::StopUnconfirmed(
                        "runtime config has no parent directory".to_owned(),
                    );
                    verification_failed(stopped, &error)
                },
                Some(runtime_dir) => Halt::Continue(
                    HaltStep::VerifyRecord { pid_file: left.pid_file, runtime_dir, stopped },
                ),
            }
        },
        (
            HaltStep::VerifyRecord { stopped, .. },
            HaltReport::Reaped(Err(error)),
        ) => verification_failed(stopped, &error),
        (HaltStep::VerifyRecord { .. }, HaltReport::Reaped(Ok(_))) => Halt::Dead {
            publish_stopped: false,
        },
        (HaltStep::ReapRecord { failure, .. }, HaltReport::Reaped(Err(error))) => {
            let detail: String = error.message();
            Halt::Unknown(
                Error::StopUnconfirmed(
                    text::concat3(
                        failure.as_str(),
                        "; epoch identity reaper failed: ",
                        detail.as_str(),
                    ),
                ),
            )
        },
        (HaltStep::ReapRecord { failure, terminal, .. }, HaltReport::Reaped(Ok(outcome))) => {
            if outcome != ReapOutcome::NotFound || terminal {
                Halt::Dead { publish_stopped: !terminal }
            } else {
                Halt::Unknown(Error::StopUnconfirmed(failure))
            }
        },
        (step, _) => Halt::Continue(step),
    }
}

/// An instance whose death was not proven is always reported as such: stopping
/// fails with no other error.
pub proof fn a_failed_stop_is_unconfirmed(
    terminal: bool,
    record: Option<EpochRecord>,
    timeout_ms: u64,
    step: HaltStep,
    report: HaltReport,
)
    ensures
        !(begin_halt(terminal, record, timeout_ms) is Unknown),
        halt_advanced(step, report) matches HaltView::Unknown(error) ==> error is StopUnconfirmed,
{
}

/// Without a confirmed end, an instance counts as dead only after its own
/// record led to its process, or after it showed as ended.
pub proof fn death_needs_a_proof(
    record: Option<EpochRecord>,
    timeout_ms: u64,
    stop_error: Option<String>,
    confirmed: bool,
    terminal: bool,
    pid_file: String,
    runtime_dir: String,
    failure: String,
    outcome: ReapOutcome,
)
    ensures
        halt_advanced(
            HaltStep::JoinMonitor { record, timeout_ms, stop_error },
            HaltReport::MonitorJoined { confirmed, terminal },
        ) is Dead ==> stop_error is None && (confirmed || terminal) && record is None,
        halt_advanced(
            HaltStep::ReapRecord { pid_file, runtime_dir, failure, terminal },
            HaltReport::Reaped(Ok(outcome)),
        ) is Dead ==> terminal || outcome == ReapOutcome::AlreadyExited || outcome
            == ReapOutcome::Killed,
{
}

/// A halt begins with the supervisor unless the instance has ended already; then
/// only a record that is left matters.
pub proof fn a_halt_begins_with_the_supervisor(
    terminal: bool,
    record: Option<EpochRecord>,
    timeout_ms: u64,
)
    ensures
        ({
            let begun = begin_halt(terminal, record, timeout_ms);
            &&& !terminal <==> begun is Continue && begun->Continue_0 is StopSupervisor
            &&& !terminal ==> begun->Continue_0->StopSupervisor_record == record
                && begun->Continue_0->StopSupervisor_timeout_ms == timeout_ms
            &&& begun is Dead <==> terminal && record is None
            &&& begun matches HaltView::Dead { publish_stopped } ==> !publish_stopped
            &&& terminal && record is Some ==> begun->Continue_0 is FindRecord
                && begun->Continue_0->left == record->0
        }),
{
}

/// A process counts as dead only for cause: its monitor ended and no record of it
/// was kept or is left, or its record led to its end. Every failure on the way
/// leaves its death unconfirmed, and a stop is announced exactly if the record
/// was what ended an instance that still showed as alive.
pub proof fn a_death_is_never_guessed(step: HaltStep, report: HaltReport)
    ensures
        ({
            let next = halt_advanced(step, report);
            &&& next is Dead ==> match report {
                HaltReport::MonitorJoined { confirmed, terminal } => step
                    matches HaltStep::JoinMonitor { record, stop_error, .. } && record is None
                    && stop_error is None && (confirmed || terminal),
                HaltReport::RecordFound(found) => step is FindRecord && found == Ok::<bool, Error>(
                    false,
                ),
                HaltReport::Reaped(Ok(outcome)) => step is VerifyRecord || (step
                    matches HaltStep::ReapRecord { terminal, .. } && (terminal || outcome
                    != ReapOutcome::NotFound)),
                _ => false,
            }
            &&& next matches HaltView::Dead { publish_stopped } ==> (publish_stopped <==> (step
                matches HaltStep::ReapRecord { terminal, .. } && !terminal))
            &&& next matches HaltView::Unknown(error) ==> error is StopUnconfirmed
            &&& step is FindRecord && report is RecordFound && report->RecordFound_0 is Err
                ==> next is Unknown
            &&& (step is VerifyRecord || step is ReapRecord) && report is Reaped
                && report->Reaped_0 is Err ==> next is Unknown
            &&& step is ReapRecord && !step->ReapRecord_terminal && report == HaltReport::Reaped(
                Ok(ReapOutcome::NotFound),
            ) ==> next is Unknown
        }),
{
}

/// However the supervisor is stopped, the monitor is awaited next; only a clean
/// stop with a monitor that ended avoids the search for the process by its
/// record, and without a record nothing else confirms the end.
pub proof fn a_halt_goes_its_way(
    record: Option<EpochRecord>,
    timeout_ms: u64,
    stop: SupervisorStop,
    stop_error: Option<String>,
    confirmed: bool,
    terminal: bool,
)
    ensures
        ({
            let joined = halt_advanced(
                HaltStep::StopSupervisor { record, timeout_ms },
                HaltReport::SupervisorStopped(stop),
            );
            let next = halt_advanced(
                HaltStep::JoinMonitor { record, timeout_ms, stop_error },
                HaltReport::MonitorJoined { confirmed, terminal },
            );
            let clean = stop is Absent || stop is Stopped || stop is AlreadyExited;
            let ended = stop_error is None && (confirmed || terminal);
            &&& joined is Continue && joined->Continue_0 is JoinMonitor
            &&& joined->Continue_0->JoinMonitor_record == record
                && joined->Continue_0->JoinMonitor_timeout_ms == timeout_ms
            &&& joined->Continue_0->stop_error is None <==> clean
            &&& next is Dead <==> ended && record is None
            &&& next is Continue && next->Continue_0 is FindRecord <==> ended && record is Some
            &&& ended && record is Some ==> next->Continue_0->left == record->0
                && next->Continue_0->FindRecord_stopped
            &&& !ended && record is None ==> next is Unknown
            &&& !ended && record is Some && record->0.runtime_dir is None ==> next is Unknown
            &&& !ended && record is Some && record->0.runtime_dir is Some ==> {
                &&& next is Continue && next->Continue_0 is ReapRecord
                &&& next->Continue_0->ReapRecord_pid_file == record->0.pid_file@
                &&& next->Continue_0->ReapRecord_runtime_dir == record->0.runtime_dir->0@
                &&& next->Continue_0->ReapRecord_terminal == terminal
                &&& stop_error matches Some(error) ==> next->Continue_0->failure == error@
            }
        }),
{
}

/// A record that is left of an ended instance is verified where it stands, and a
/// halt never ends its process without that.
pub proof fn a_left_record_is_verified(left: EpochRecord, stopped: bool, found: Result<bool, Error>)
    ensures
        ({
            let next = halt_advanced(
                HaltStep::FindRecord { left, stopped },
                HaltReport::RecordFound(found),
            );
            &&& next is Dead <==> found == Ok::<bool, Error>(false)
            &&& next is Continue <==> found == Ok::<bool, Error>(true) && left.runtime_dir is Some
            &&& next is Continue ==> next->Continue_0 is VerifyRecord
                && next->Continue_0->VerifyRecord_pid_file == left.pid_file@
                && next->Continue_0->VerifyRecord_runtime_dir == left.runtime_dir->0@
                && next->Continue_0->VerifyRecord_stopped == stopped
        }),
{
}

/// A time is shown in whole seconds where it is one, in milliseconds below one
/// second, and with as many decimals as it has otherwise.
pub proof fn a_duration_is_shown_in_its_unit(seconds: u64, millis: u64)
    requires
        0 < seconds,
        seconds * 1000 <= u64::MAX,
        0 < millis < 1000,
        seconds * 1000 + millis <= u64::MAX,
    ensures
        shown_duration((seconds * 1000) as u64) == text::decimal(seconds as nat) + "s"@,
        shown_duration(millis) == text::decimal(millis as nat) + "ms"@,
        shown_duration((seconds * 1000 + millis) as u64) == text::decimal(seconds as nat) + decimals(
            millis as nat,
        ) + "s"@,
        millis % 100 == 0 ==> decimals(millis as nat) == "."@ + text::decimal(
            (millis / 100) as nat,
        ),
{
    reveal_strlit("");
    let whole = (seconds * 1000) as u64;
    let mixed = (seconds * 1000 + millis) as u64;
    assert(whole as nat / 1000 == seconds && whole as nat % 1000 == 0);
    assert(mixed as nat / 1000 == seconds && mixed as nat % 1000 == millis);
    assert(text::decimal(seconds as nat) + ""@ =~= text::decimal(seconds as nat));
}

} // verus!
