//! The network monitor's worker: whether it is needed, whether it runs, how it is stopped,
//! and what it does when the network changes.
//!
//! As in [`crate::control`], the procedures that alternate outside work and decisions are
//! state machines: the host performs each action and reports the outcome back.
use vstd::prelude::*;

use crate::config::Config;
use crate::control::result_view;
use crate::logger::{error_request, plain_request, LogKey, LogLevel, LogRequest, LogRequestView};
use crate::text::{copy_str, join_path, joined_path, same_text};

verus! {

/// Whether the network monitor must run: always under Wi-Fi control, otherwise while the
/// service runs outside `tun` mode.
pub open spec fn monitor_needed(config: &Config, service_running: bool) -> bool {
    config.wifi_network_control_enabled || (service_running && config.network_mode@ != "tun"@)
}

/// Whether the network monitor must run. `service_running` is only consulted without Wi-Fi
/// control.
pub fn monitor_required(config: &Config, service_running: bool) -> (r: bool)
    ensures
        r == monitor_needed(config, service_running),
{
    if config.wifi_network_control_enabled {
        return true;
    }
    service_running && !same_text(config.network_mode.as_str(), "tun")
}

/// Under Wi-Fi control the monitor always runs. Without it, the monitor runs exactly while the
/// service runs in any mode but `tun`: a running service in `tproxy`, `redirect` or any other
/// mode keeps it, a stopped service or `tun` mode does not.
pub proof fn lemma_monitor_required_outside_tun(config: &Config, service_running: bool)
    ensures
        config.wifi_network_control_enabled ==> monitor_needed(config, service_running),
        !config.wifi_network_control_enabled && service_running && config.network_mode@ != "tun"@
            ==> monitor_needed(config, service_running),
        !config.wifi_network_control_enabled && !service_running ==> !monitor_needed(
            config,
            service_running,
        ),
        !config.wifi_network_control_enabled && config.network_mode@ == "tun"@ ==> !monitor_needed(
            config,
            service_running,
        ),
{
}

/// Whether a monitor worker runs: its recorded identity matches a live process, or some
/// process holds its lock. Where it does not, the stale lock file is to be removed.
/// `lock_held` is only consulted where the identity does not match.
pub fn monitor_worker_running(identity_matches: bool, lock_held: bool) -> (r: bool)
    ensures
        r == (identity_matches || lock_held),
{
    if identity_matches {
        return true;
    }
    lock_held
}

/// The targets of a signal to the monitor. Where the platform has process groups
/// (`process_groups`), its process group, then the process itself; elsewhere the process
/// alone. A process id beyond the signed range gets no signal.
pub fn signal_monitor_process_group(pid: u32, process_groups: bool) -> (r: Vec<i32>)
    ensures
        pid <= i32::MAX && process_groups ==> r@ == seq![(-(pid as int)) as i32, pid as i32],
        pid <= i32::MAX && !process_groups ==> r@ == seq![pid as i32],
        pid > i32::MAX ==> r@.len() == 0,
{
    let mut r: Vec<i32> = Vec::new();
    if pid <= 0x7fff_ffff {
        let p = pid as i32;
        if process_groups {
            r.push(-p);
            r.push(p);
            assert(r@ =~= seq![(-(pid as int)) as i32, pid as i32]);
        } else {
            r.push(p);
            assert(r@ =~= seq![pid as i32]);
        }
    }
    r
}

/// The arguments that start a monitor worker for the rules database `db`.
pub fn monitor_worker_args(db: &str) -> (r: Vec<String>)
    ensures
        r.len() == 3,
        r[0]@ == "--db"@,
        r[1]@ == db@,
        r[2]@ == "monitor"@,
{
    let mut r: Vec<String> = Vec::new();
    r.push(copy_str("--db"));
    r.push(copy_str(db));
    r.push(copy_str("monitor"));
    r
}

/// The program that runs the monitor worker: the running executable, or `boxctl` in the
/// binary directory where that is unknown.
pub fn worker_program(current_exe: Option<&str>, config: &Config) -> (r: String)
    ensures
        r@ == match current_exe {
            Some(p) => p@,
            None => joined_path(config.bin_dir@, "boxctl"@),
        },
{
    match current_exe {
        Some(p) => copy_str(p),
        None => join_path(config.bin_dir.as_str(), "boxctl"),
    }
}

/// The configuration to go on with: the freshly loaded one, or, where loading failed, the
/// current one together with a warning to write with it.
pub fn load_live_config(current: Config, loaded: Result<Config, String>) -> (r: (
    Config,
    Option<LogRequest>,
))
    ensures
        match loaded {
            Ok(c) => r.0 == c && r.1 is None,
            Err(e) => r.0 == current && r.1 is Some && r.1->0@ == error_request(
                LogLevel::Warn,
                LogKey::RuntimeConfigReadFailed,
                e@,
            ),
        },
{
    match loaded {
        Ok(c) => (c, None),
        Err(e) => (
            current,
            Some(LogRequest::with_error(LogLevel::Warn, LogKey::RuntimeConfigReadFailed, e.as_str())),
        ),
    }
}

// ---------------------------------------------------------------------------------------------
// Stopping the worker
// ---------------------------------------------------------------------------------------------

/// Identity checks after SIGTERM before SIGKILL is considered.
pub const TERM_POLLS: u32 = 20;

/// Identity checks after SIGKILL before giving up.
pub const KILL_POLLS: u32 = 10;

/// The signals that stop the worker.
#[derive(Clone, Copy, Debug, PartialEq, Eq, Structural)]
pub enum StopSignal {
    Terminate,
    Kill,
}

/// Which identity check found the identity missing or unverifiable before the lock was looked
/// at.
#[derive(Clone, Copy, Debug, PartialEq, Eq, Structural)]
pub enum LockCheck {
    /// No valid identity was recorded.
    NoIdentity,
    /// The recorded identity did not match before any signal.
    Unverified,
    /// The identity stopped matching after SIGTERM.
    AfterTerm,
    /// The identity stopped matching after SIGKILL.
    AfterKill,
}

/// How stopping the worker ended.
#[derive(Clone, Copy, Debug, PartialEq, Eq, Structural)]
pub enum StopOutcome {
    /// The worker is gone and its lock file removed.
    Stopped,
    /// The identity could not be verified while some process still held the lock.
    LockStillHeld(LockCheck),
    /// The identity stopped matching between SIGTERM and SIGKILL.
    ChangedBeforeKill,
    /// The worker was still alive after SIGKILL.
    AliveAfterKill,
}

/// Where stopping the worker stands.
#[derive(Clone, Copy, Debug, PartialEq, Eq, Structural)]
pub enum StopWorker {
    ReadingIdentity,
    /// Checking whether the lock is still held after the identity check `check` failed.
    CheckingLock { check: LockCheck },
    RemovingLock,
    CheckingIdentity { pid: u32 },
    AnnouncingStop { pid: u32 },
    SendingTerm { pid: u32 },
    /// The `polls`-th identity check after SIGTERM (from 0).
    PollingAfterTerm { pid: u32, polls: u32 },
    WaitingAfterTerm { pid: u32, polls: u32 },
    CheckingBeforeKill { pid: u32 },
    SendingKill { pid: u32 },
    PollingAfterKill { pid: u32, polls: u32 },
    WaitingAfterKill { pid: u32, polls: u32 },
    Finished { outcome: StopOutcome },
}

/// What the host does next while stopping the worker.
pub enum StopAction {
    /// Read the worker's identity from its lock file.
    ReadIdentity,
    /// Check whether some process holds the lock.
    CheckLockHeld,
    /// Remove the lock file.
    RemoveLock,
    /// Check whether the identity read still matches a live process.
    CheckIdentity,
    Log(LogRequest),
    /// Send `signal` to the worker's process group and process.
    Signal { pid: u32, signal: StopSignal },
    /// Wait a tenth of a second.
    Sleep,
    Finish(Result<(), String>),
}

/// What a [`StopAction`] holds.
pub enum StopActionView {
    ReadIdentity,
    CheckLockHeld,
    RemoveLock,
    CheckIdentity,
    Log(LogRequestView),
    Signal { pid: u32, signal: StopSignal },
    Sleep,
    Finish(Result<(), Seq<char>>),
}

impl View for StopAction {
    type V = StopActionView;

    open spec fn view(&self) -> StopActionView {
        match self {
            StopAction::ReadIdentity => StopActionView::ReadIdentity,
            StopAction::CheckLockHeld => StopActionView::CheckLockHeld,
            StopAction::RemoveLock => StopActionView::RemoveLock,
            StopAction::CheckIdentity => StopActionView::CheckIdentity,
            StopAction::Log(r) => StopActionView::Log(r@),
            StopAction::Signal { pid, signal } => StopActionView::Signal {
                pid: *pid,
                signal: *signal,
            },
            StopAction::Sleep => StopActionView::Sleep,
            StopAction::Finish(r) => StopActionView::Finish(result_view(*r)),
        }
    }
}

/// The outcome of a [`StopAction`].
#[derive(Clone, Copy, Debug, PartialEq, Eq, Structural)]
pub enum StopEvent {
    /// The process id of the identity read, if a valid one was recorded.
    Identity(Option<u32>),
    LockHeld(bool),
    Removed,
    IdentityMatches(bool),
    Logged,
    Signalled,
    Slept,
}

/// The error message of an outcome.
pub open spec fn outcome_message(o: StopOutcome) -> Seq<char> {
    match o {
        StopOutcome::Stopped => Seq::empty(),
        StopOutcome::LockStillHeld(LockCheck::NoIdentity) =>
            "monitor lock identity is missing or invalid; refusing to signal an unverified process"@,
        StopOutcome::LockStillHeld(LockCheck::Unverified) =>
            "monitor identity cannot be verified; refusing to signal an unverified process"@,
        StopOutcome::LockStillHeld(LockCheck::AfterTerm) =>
            "monitor identity cannot be verified after SIGTERM; refusing SIGKILL"@,
        StopOutcome::LockStillHeld(LockCheck::AfterKill) =>
            "monitor identity cannot be verified after SIGKILL; retaining lock"@,
        StopOutcome::ChangedBeforeKill => "monitor identity changed before SIGKILL; refusing to signal it"@,
        StopOutcome::AliveAfterKill => "monitor remains alive after SIGKILL; retaining lock"@,
    }
}

/// The result that an outcome reports.
pub open spec fn outcome_result(o: StopOutcome) -> Result<(), Seq<char>> {
    if o == StopOutcome::Stopped {
        Ok(())
    } else {
        Err(outcome_message(o))
    }
}

/// The result that an outcome reports.
pub fn outcome_to_result(o: StopOutcome) -> (r: Result<(), String>)
    ensures
        result_view(r) == outcome_result(o),
{
    match o {
        StopOutcome::Stopped => Ok(()),
        StopOutcome::LockStillHeld(LockCheck::NoIdentity) => Err(
            copy_str(
                "monitor lock identity is missing or invalid; refusing to signal an unverified process",
            ),
        ),
        StopOutcome::LockStillHeld(LockCheck::Unverified) => Err(
            copy_str(
                "monitor identity cannot be verified; refusing to signal an unverified process",
            ),
        ),
        StopOutcome::LockStillHeld(LockCheck::AfterTerm) => Err(
            copy_str("monitor identity cannot be verified after SIGTERM; refusing SIGKILL"),
        ),
        StopOutcome::LockStillHeld(LockCheck::AfterKill) => Err(
            copy_str("monitor identity cannot be verified after SIGKILL; retaining lock"),
        ),
        StopOutcome::ChangedBeforeKill => Err(
            copy_str("monitor identity changed before SIGKILL; refusing to signal it"),
        ),
        StopOutcome::AliveAfterKill => Err(
            copy_str("monitor remains alive after SIGKILL; retaining lock"),
        ),
    }
}

/// The action that a stop state waits on.
pub open spec fn stop_pending(s: StopWorker) -> StopActionView {
    match s {
        StopWorker::ReadingIdentity => StopActionView::ReadIdentity,
        StopWorker::CheckingLock { .. } => StopActionView::CheckLockHeld,
        StopWorker::RemovingLock => StopActionView::RemoveLock,
        StopWorker::CheckingIdentity { .. } => StopActionView::CheckIdentity,
        StopWorker::AnnouncingStop { .. } => StopActionView::Log(
            plain_request(LogLevel::Info, LogKey::NetworkMonitorStopped),
        ),
        StopWorker::SendingTerm { pid } => StopActionView::Signal {
            pid,
            signal: StopSignal::Terminate,
        },
        StopWorker::PollingAfterTerm { .. } => StopActionView::CheckIdentity,
        StopWorker::WaitingAfterTerm { .. } => StopActionView::Sleep,
        StopWorker::CheckingBeforeKill { .. } => StopActionView::CheckIdentity,
        StopWorker::SendingKill { pid } => StopActionView::Signal { pid, signal: StopSignal::Kill },
        StopWorker::PollingAfterKill { .. } => StopActionView::CheckIdentity,
        StopWorker::WaitingAfterKill { .. } => StopActionView::Sleep,
        StopWorker::Finished { outcome } => StopActionView::Finish(outcome_result(outcome)),
    }
}

/// The stop state that follows `s` on `e`; an event that does not answer the pending action
/// leaves the state as it is.
pub open spec fn stop_next(s: StopWorker, e: StopEvent) -> StopWorker {
    match (s, e) {
        (StopWorker::ReadingIdentity, StopEvent::Identity(id)) => match id {
            None => StopWorker::CheckingLock { check: LockCheck::NoIdentity },
            Some(pid) => StopWorker::CheckingIdentity { pid },
        },
        (StopWorker::CheckingLock { check }, StopEvent::LockHeld(held)) => if held {
            StopWorker::Finished { outcome: StopOutcome::LockStillHeld(check) }
        } else {
            StopWorker::RemovingLock
        },
        (StopWorker::RemovingLock, StopEvent::Removed) => StopWorker::Finished {
            outcome: StopOutcome::Stopped,
        },
        (StopWorker::CheckingIdentity { pid }, StopEvent::IdentityMatches(m)) => if m {
            StopWorker::AnnouncingStop { pid }
        } else {
            StopWorker::CheckingLock { check: LockCheck::Unverified }
        },
        (StopWorker::AnnouncingStop { pid }, StopEvent::Logged) => StopWorker::SendingTerm { pid },
        (StopWorker::SendingTerm { pid }, StopEvent::Signalled) => StopWorker::PollingAfterTerm {
            pid,
            polls: 0,
        },
        (StopWorker::PollingAfterTerm { pid, polls }, StopEvent::IdentityMatches(m)) => if m {
            StopWorker::WaitingAfterTerm { pid, polls }
        } else {
            StopWorker::CheckingLock { check: LockCheck::AfterTerm }
        },
        (StopWorker::WaitingAfterTerm { pid, polls }, StopEvent::Slept) => if polls < TERM_POLLS
            - 1 {
            StopWorker::PollingAfterTerm { pid, polls: (polls + 1) as u32 }
        } else {
            StopWorker::CheckingBeforeKill { pid }
        },
        (StopWorker::CheckingBeforeKill { pid }, StopEvent::IdentityMatches(m)) => if m {
            StopWorker::SendingKill { pid }
        } else {
            StopWorker::Finished { outcome: StopOutcome::ChangedBeforeKill }
        },
        (StopWorker::SendingKill { pid }, StopEvent::Signalled) => StopWorker::PollingAfterKill {
            pid,
            polls: 0,
        },
        (StopWorker::PollingAfterKill { pid, polls }, StopEvent::IdentityMatches(m)) => if m {
            StopWorker::WaitingAfterKill { pid, polls }
        } else {
            StopWorker::CheckingLock { check: LockCheck::AfterKill }
        },
        (StopWorker::WaitingAfterKill { pid, polls }, StopEvent::Slept) => if polls < KILL_POLLS
            - 1 {
            StopWorker::PollingAfterKill { pid, polls: (polls + 1) as u32 }
        } else {
            StopWorker::Finished { outcome: StopOutcome::AliveAfterKill }
        },
        _ => s,
    }
}

/// The poll counters stay within their limits.
pub open spec fn stop_wf(s: StopWorker) -> bool {
    match s {
        StopWorker::PollingAfterTerm { polls, .. } => polls < TERM_POLLS,
        StopWorker::WaitingAfterTerm { polls, .. } => polls < TERM_POLLS,
        StopWorker::PollingAfterKill { polls, .. } => polls < KILL_POLLS,
        StopWorker::WaitingAfterKill { polls, .. } => polls < KILL_POLLS,
        _ => true,
    }
}

/// An upper bound on the steps that stopping still takes.
pub open spec fn stop_steps_left(s: StopWorker) -> int {
    match s {
        StopWorker::Finished { .. } => 0,
        StopWorker::RemovingLock => 1,
        StopWorker::CheckingLock { .. } => 2,
        StopWorker::WaitingAfterKill { polls, .. } => 20 - 2 * polls,
        StopWorker::PollingAfterKill { polls, .. } => 21 - 2 * polls,
        StopWorker::SendingKill { .. } => 22,
        StopWorker::CheckingBeforeKill { .. } => 23,
        StopWorker::WaitingAfterTerm { polls, .. } => 62 - 2 * polls,
        StopWorker::PollingAfterTerm { polls, .. } => 63 - 2 * polls,
        StopWorker::SendingTerm { .. } => 64,
        StopWorker::AnnouncingStop { .. } => 65,
        StopWorker::CheckingIdentity { .. } => 66,
        StopWorker::ReadingIdentity => 67,
    }
}

/// Whether `e` is the kind of outcome that `a` calls for.
pub open spec fn stop_answers(a: StopActionView, e: StopEvent) -> bool {
    match a {
        StopActionView::ReadIdentity => e is Identity,
        StopActionView::CheckLockHeld => e is LockHeld,
        StopActionView::RemoveLock => e is Removed,
        StopActionView::CheckIdentity => e is IdentityMatches,
        StopActionView::Log(_) => e is Logged,
        StopActionView::Signal { .. } => e is Signalled,
        StopActionView::Sleep => e is Slept,
        StopActionView::Finish(_) => false,
    }
}

impl StopWorker {
    /// The action that this state waits on.
    pub fn pending(&self) -> (a: StopAction)
        ensures
            a@ == stop_pending(*self),
    {
        match *self {
            StopWorker::ReadingIdentity => StopAction::ReadIdentity,
            StopWorker::CheckingLock { .. } => StopAction::CheckLockHeld,
            StopWorker::RemovingLock => StopAction::RemoveLock,
            StopWorker::CheckingIdentity { .. } => StopAction::CheckIdentity,
            StopWorker::AnnouncingStop { .. } => StopAction::Log(
                LogRequest::plain(LogLevel::Info, LogKey::NetworkMonitorStopped),
            ),
            StopWorker::SendingTerm { pid } => StopAction::Signal {
                pid,
                signal: StopSignal::Terminate,
            },
            StopWorker::PollingAfterTerm { .. } => StopAction::CheckIdentity,
            StopWorker::WaitingAfterTerm { .. } => StopAction::Sleep,
            StopWorker::CheckingBeforeKill { .. } => StopAction::CheckIdentity,
            StopWorker::SendingKill { pid } => StopAction::Signal { pid, signal: StopSignal::Kill },
            StopWorker::PollingAfterKill { .. } => StopAction::CheckIdentity,
            StopWorker::WaitingAfterKill { .. } => StopAction::Sleep,
            StopWorker::Finished { outcome } => StopAction::Finish(outcome_to_result(outcome)),
        }
    }

    /// Takes in the outcome of the pending action: gives the next state and its action.
    pub fn step(self, event: StopEvent) -> (r: (StopWorker, StopAction))
        ensures
            r.0 == stop_next(self, event),
            stop_wf(self) ==> stop_wf(r.0),
            r.1@ == stop_pending(r.0),
    {
        let s = match (self, event) {
            (StopWorker::ReadingIdentity, StopEvent::Identity(id)) => match id {
                None => StopWorker::CheckingLock { check: LockCheck::NoIdentity },
                Some(pid) => StopWorker::CheckingIdentity { pid },
            },
            (StopWorker::CheckingLock { check }, StopEvent::LockHeld(held)) => if held {
                StopWorker::Finished { outcome: StopOutcome::LockStillHeld(check) }
            } else {
                StopWorker::RemovingLock
            },
            (StopWorker::RemovingLock, StopEvent::Removed) => StopWorker::Finished {
                outcome: StopOutcome::Stopped,
            },
            (StopWorker::CheckingIdentity { pid }, StopEvent::IdentityMatches(m)) => if m {
                StopWorker::AnnouncingStop { pid }
            } else {
                StopWorker::CheckingLock { check: LockCheck::Unverified }
            },
            (StopWorker::AnnouncingStop { pid }, StopEvent::Logged) => StopWorker::SendingTerm {
                pid,
            },
            (StopWorker::SendingTerm { pid }, StopEvent::Signalled) => StopWorker::PollingAfterTerm {
                pid,
                polls: 0,
            },
            (StopWorker::PollingAfterTerm { pid, polls }, StopEvent::IdentityMatches(m)) => if m {
                StopWorker::WaitingAfterTerm { pid, polls }
            } else {
                StopWorker::CheckingLock { check: LockCheck::AfterTerm }
            },
            (StopWorker::WaitingAfterTerm { pid, polls }, StopEvent::Slept) => if polls
                < TERM_POLLS - 1 {
                StopWorker::PollingAfterTerm { pid, polls: polls + 1 }
            } else {
                StopWorker::CheckingBeforeKill { pid }
            },
            (StopWorker::CheckingBeforeKill { pid }, StopEvent::IdentityMatches(m)) => if m {
                StopWorker::SendingKill { pid }
            } else {
                StopWorker::Finished { outcome: StopOutcome::ChangedBeforeKill }
            },
            (StopWorker::SendingKill { pid }, StopEvent::Signalled) => StopWorker::PollingAfterKill {
                pid,
                polls: 0,
            },
            (StopWorker::PollingAfterKill { pid, polls }, StopEvent::IdentityMatches(m)) => if m {
                StopWorker::WaitingAfterKill { pid, polls }
            } else {
                StopWorker::CheckingLock { check: LockCheck::AfterKill }
            },
            (StopWorker::WaitingAfterKill { pid, polls }, StopEvent::Slept) => if polls
                < KILL_POLLS - 1 {
                StopWorker::PollingAfterKill { pid, polls: polls + 1 }
            } else {
                StopWorker::Finished { outcome: StopOutcome::AliveAfterKill }
            },
            _ => self,
        };
        let a = s.pending();
        (s, a)
    }
}

/// Stops the monitor worker: checks its recorded identity, sends SIGTERM, then SIGKILL where it
/// outlives [`TERM_POLLS`] checks, and removes the lock file once the worker is gone. It never
/// signals a process whose identity it could not verify, and never removes a lock that a
/// process holds.
pub fn stop_monitor_worker() -> (r: (StopWorker, StopAction))
    ensures
        r.0 == StopWorker::ReadingIdentity,
        r.1@ == stop_pending(r.0),
{
    let s = StopWorker::ReadingIdentity;
    let a = s.pending();
    (s, a)
}

/// Every step that answers the pending action brings stopping closer to its end; any other
/// event changes nothing; and the poll counters stay within their limits.
pub proof fn lemma_stop_terminates(s: StopWorker, e: StopEvent)
    requires
        stop_wf(s),
    ensures
        stop_wf(stop_next(s, e)),
        0 <= stop_steps_left(stop_next(s, e)),
        stop_answers(stop_pending(s), e) ==> stop_steps_left(stop_next(s, e)) < stop_steps_left(s),
        !stop_answers(stop_pending(s), e) ==> stop_next(s, e) == s,
        (s is Finished) <==> (stop_pending(s) is Finish),
{
}

/// SIGKILL is sent only right after the identity was found to match once more, after SIGTERM
/// and all the identity checks that followed it.
pub proof fn lemma_kill_only_after_verification(s: StopWorker, e: StopEvent, pid: u32)
    requires
        stop_next(s, e) != s,
        stop_pending(stop_next(s, e)) == (StopActionView::Signal { pid, signal: StopSignal::Kill }),
    ensures
        s == (StopWorker::CheckingBeforeKill { pid }),
        e == StopEvent::IdentityMatches(true),
{
}

/// SIGTERM is sent only right after the identity read was found to match a live process.
pub proof fn lemma_term_only_after_verification(s: StopWorker, e: StopEvent, pid: u32)
    requires
        stop_next(s, e) != s,
        stop_pending(stop_next(s, e)) == (StopActionView::Signal {
            pid,
            signal: StopSignal::Terminate,
        }),
    ensures
        s == (StopWorker::AnnouncingStop { pid }),
        e == StopEvent::Logged,
{
}

/// The lock file is removed only right after it was found not to be held.
pub proof fn lemma_lock_removed_only_when_free(s: StopWorker, e: StopEvent)
    requires
        stop_next(s, e) != s,
        stop_pending(stop_next(s, e)) == StopActionView::RemoveLock,
    ensures
        s is CheckingLock,
        e == StopEvent::LockHeld(false),
{
}

/// The state that stopping reaches from its start through `events`, each answered in turn.
pub open spec fn stop_trace(events: Seq<StopEvent>) -> StopWorker
    decreases events.len(),
{
    if events.len() == 0 {
        StopWorker::ReadingIdentity
    } else {
        stop_next(stop_trace(events.drop_last()), events.last())
    }
}

/// The state after the first `k` events.
pub open spec fn stop_state_at(events: Seq<StopEvent>, k: int) -> StopWorker {
    stop_trace(events.take(k))
}

/// The process id that a state carries, read from the worker's identity.
pub open spec fn carried_pid(s: StopWorker) -> Option<u32> {
    match s {
        StopWorker::CheckingIdentity { pid } => Some(pid),
        StopWorker::AnnouncingStop { pid } => Some(pid),
        StopWorker::SendingTerm { pid } => Some(pid),
        StopWorker::PollingAfterTerm { pid, .. } => Some(pid),
        StopWorker::WaitingAfterTerm { pid, .. } => Some(pid),
        StopWorker::CheckingBeforeKill { pid } => Some(pid),
        StopWorker::SendingKill { pid } => Some(pid),
        StopWorker::PollingAfterKill { pid, .. } => Some(pid),
        StopWorker::WaitingAfterKill { pid, .. } => Some(pid),
        _ => None,
    }
}

/// The `j`-th event is the reading of an identity with process id `pid`.
pub open spec fn identity_read_at(events: Seq<StopEvent>, j: int, pid: u32) -> bool {
    &&& 0 <= j < events.len()
    &&& events[j] == StopEvent::Identity(Some(pid))
    &&& stop_state_at(events, j) == StopWorker::ReadingIdentity
}

/// The `j`-th event is an identity check that found the identity matching.
pub open spec fn matched_at(events: Seq<StopEvent>, j: int) -> bool {
    &&& 0 <= j < events.len()
    &&& events[j] == StopEvent::IdentityMatches(true)
    &&& stop_pending(stop_state_at(events, j)) == StopActionView::CheckIdentity
}

/// No identity check is asked for after the `j`-th event and before the `k`-th state.
pub open spec fn no_check_between(events: Seq<StopEvent>, j: int, k: int) -> bool {
    forall|m: int|
        j < m < k ==> stop_pending(#[trigger] stop_state_at(events, m))
            != StopActionView::CheckIdentity
}

/// A state that leads to a signal: the stop announcement and the two signal states.
pub open spec fn leads_to_signal(s: StopWorker) -> bool {
    s is AnnouncingStop || s is SendingTerm || s is SendingKill
}

proof fn lemma_stop_state_step(events: Seq<StopEvent>, k: int)
    requires
        0 <= k < events.len(),
    ensures
        stop_state_at(events, k + 1) == stop_next(stop_state_at(events, k), events[k]),
{
    assert(events.take(k + 1).drop_last() =~= events.take(k));
    assert(events.take(k + 1).last() == events[k]);
}

proof fn lemma_stop_trace_invariant(events: Seq<StopEvent>, k: int)
    requires
        0 <= k <= events.len(),
    ensures
        carried_pid(stop_state_at(events, k)) matches Some(p) ==> exists|j: int|
            j < k && #[trigger] identity_read_at(events, j, p),
        leads_to_signal(stop_state_at(events, k)) ==> exists|j: int|
            j < k && #[trigger] matched_at(events, j) && no_check_between(events, j, k),
    decreases k,
{
    if k == 0 {
        assert(events.take(0) =~= Seq::<StopEvent>::empty());
    } else {
        lemma_stop_trace_invariant(events, k - 1);
        lemma_stop_state_step(events, k - 1);
        let s = stop_state_at(events, k - 1);
        let e = events[k - 1];
        let n = stop_state_at(events, k);
        if let Some(p) = carried_pid(n) {
            if s == StopWorker::ReadingIdentity {
                assert(identity_read_at(events, k - 1, p));
            } else {
                assert(carried_pid(s) == Some(p));
                let j = choose|j: int| j < k - 1 && #[trigger] identity_read_at(events, j, p);
                assert(identity_read_at(events, j, p));
            }
        }
        if leads_to_signal(n) {
            if (s is CheckingIdentity || s is CheckingBeforeKill) && n != s {
                assert(matched_at(events, k - 1));
                assert(no_check_between(events, k - 1, k));
            } else {
                assert(leads_to_signal(s));
                let j = choose|j: int|
                    j < k - 1 && #[trigger] matched_at(events, j) && no_check_between(
                        events,
                        j,
                        k - 1,
                    );
                assert forall|m: int| j < m < k implies stop_pending(
                    #[trigger] stop_state_at(events, m),
                ) != StopActionView::CheckIdentity by {
                    if m == k - 1 {
                        assert(stop_state_at(events, m) == s);
                    }
                }
                assert(matched_at(events, j) && no_check_between(events, j, k));
            }
        }
    }
}

/// Over a whole run from the start, every signal goes to the process id of the identity that
/// was read from the lock file, and the latest identity check before it found that identity
/// matching. So with no readable identity, or one that never matches, no signal is sent.
pub proof fn lemma_signals_follow_verified_identity(
    events: Seq<StopEvent>,
    k: int,
    pid: u32,
    signal: StopSignal,
)
    requires
        0 <= k <= events.len(),
        stop_pending(stop_state_at(events, k)) == (StopActionView::Signal { pid, signal }),
    ensures
        exists|j: int| j < k && #[trigger] identity_read_at(events, j, pid),
        exists|j: int| j < k && #[trigger] matched_at(events, j) && no_check_between(events, j, k),
{
    lemma_stop_trace_invariant(events, k);
}

/// Stopping reports success only where the lock file was removed.
pub proof fn lemma_stop_succeeds_only_after_removal(s: StopWorker, e: StopEvent)
    requires
        stop_next(s, e) != s,
        stop_next(s, e) == (StopWorker::Finished { outcome: StopOutcome::Stopped }),
    ensures
        s == StopWorker::RemovingLock,
        e == StopEvent::Removed,
{
}

// ---------------------------------------------------------------------------------------------
// Handling a network change
// ---------------------------------------------------------------------------------------------

/// What the host does next while handling a network change.
pub enum ChangeAction {
    /// Observe the current network (through the interface cache) and compare it with the
    /// saved Wi-Fi state.
    Observe,
    /// Apply the network control policy to the observation.
    ApplyPolicy,
    /// Save the observation that the policy returned as the Wi-Fi state.
    SaveState,
    /// Refresh the local IP rules, where the service runs.
    RefreshLocalIpRules,
    Log(LogRequest),
    Finish(Result<(), String>),
}

/// What a [`ChangeAction`] holds.
pub enum ChangeActionView {
    Observe,
    ApplyPolicy,
    SaveState,
    RefreshLocalIpRules,
    Log(LogRequestView),
    Finish(Result<(), Seq<char>>),
}

impl View for ChangeAction {
    type V = ChangeActionView;

    open spec fn view(&self) -> ChangeActionView {
        match self {
            ChangeAction::Observe => ChangeActionView::Observe,
            ChangeAction::ApplyPolicy => ChangeActionView::ApplyPolicy,
            ChangeAction::SaveState => ChangeActionView::SaveState,
            ChangeAction::RefreshLocalIpRules => ChangeActionView::RefreshLocalIpRules,
            ChangeAction::Log(r) => ChangeActionView::Log(r@),
            ChangeAction::Finish(r) => ChangeActionView::Finish(result_view(*r)),
        }
    }
}

/// The outcome of a [`ChangeAction`].
pub enum ChangeEvent {
    /// Whether the observation matches the saved Wi-Fi state.
    Observed { state_matches: bool },
    /// Whether the policy handled the observation, or why it failed.
    Applied(Result<bool, String>),
    Saved,
    Refreshed(Result<(), String>),
    Logged,
}

/// What a [`ChangeEvent`] holds.
pub enum ChangeEventView {
    Observed { state_matches: bool },
    Applied(Result<bool, Seq<char>>),
    Saved,
    Refreshed(Result<(), Seq<char>>),
    Logged,
}

impl View for ChangeEvent {
    type V = ChangeEventView;

    open spec fn view(&self) -> ChangeEventView {
        match self {
            ChangeEvent::Observed { state_matches } => ChangeEventView::Observed {
                state_matches: *state_matches,
            },
            ChangeEvent::Applied(r) => ChangeEventView::Applied(
                match r {
                    Ok(h) => Ok(*h),
                    Err(e) => Err(e@),
                },
            ),
            ChangeEvent::Saved => ChangeEventView::Saved,
            ChangeEvent::Refreshed(r) => ChangeEventView::Refreshed(result_view(*r)),
            ChangeEvent::Logged => ChangeEventView::Logged,
        }
    }
}

/// Where handling a network change stands.
pub enum NetworkChange {
    Observing,
    Applying,
    Saving,
    Refreshing,
    ReportingRefresh { error: String },
    Finished { result: Result<(), String> },
}

/// What a [`NetworkChange`] state holds.
pub enum NetworkChangeView {
    Observing,
    Applying,
    Saving,
    Refreshing,
    ReportingRefresh { error: Seq<char> },
    Finished { result: Result<(), Seq<char>> },
}

impl View for NetworkChange {
    type V = NetworkChangeView;

    open spec fn view(&self) -> NetworkChangeView {
        match self {
            NetworkChange::Observing => NetworkChangeView::Observing,
            NetworkChange::Applying => NetworkChangeView::Applying,
            NetworkChange::Saving => NetworkChangeView::Saving,
            NetworkChange::Refreshing => NetworkChangeView::Refreshing,
            NetworkChange::ReportingRefresh { error } => NetworkChangeView::ReportingRefresh {
                error: error@,
            },
            NetworkChange::Finished { result } => NetworkChangeView::Finished {
                result: result_view(*result),
            },
        }
    }
}

/// The action that a network-change state waits on.
pub open spec fn change_pending(s: NetworkChangeView) -> ChangeActionView {
    match s {
        NetworkChangeView::Observing => ChangeActionView::Observe,
        NetworkChangeView::Applying => ChangeActionView::ApplyPolicy,
        NetworkChangeView::Saving => ChangeActionView::SaveState,
        NetworkChangeView::Refreshing => ChangeActionView::RefreshLocalIpRules,
        NetworkChangeView::ReportingRefresh { error } => ChangeActionView::Log(
            error_request(LogLevel::Warn, LogKey::LocalIpLoopUpdateFailed, error),
        ),
        NetworkChangeView::Finished { result } => ChangeActionView::Finish(result),
    }
}

/// The network-change state that follows `s` on `e`; an event that does not answer the
/// pending action leaves the state as it is.
pub open spec fn change_next(s: NetworkChangeView, e: ChangeEventView) -> NetworkChangeView {
    match (s, e) {
        (NetworkChangeView::Observing, ChangeEventView::Observed { state_matches }) => if state_matches {
            NetworkChangeView::Refreshing
        } else {
            NetworkChangeView::Applying
        },
        (NetworkChangeView::Applying, ChangeEventView::Applied(r)) => match r {
            Err(e) => NetworkChangeView::Finished { result: Err(e) },
            Ok(handled) => if handled {
                NetworkChangeView::Saving
            } else {
                NetworkChangeView::Refreshing
            },
        },
        (NetworkChangeView::Saving, ChangeEventView::Saved) => NetworkChangeView::Refreshing,
        (NetworkChangeView::Refreshing, ChangeEventView::Refreshed(r)) => match r {
            Err(error) => NetworkChangeView::ReportingRefresh { error },
            Ok(_) => NetworkChangeView::Finished { result: Ok(()) },
        },
        (NetworkChangeView::ReportingRefresh { .. }, ChangeEventView::Logged) => NetworkChangeView::Finished {
            result: Ok(()),
        },
        _ => s,
    }
}

impl NetworkChange {
    /// The action that this state waits on.
    pub fn pending(&self) -> (a: ChangeAction)
        ensures
            a@ == change_pending(self@),
    {
        match self {
            NetworkChange::Observing => ChangeAction::Observe,
            NetworkChange::Applying => ChangeAction::ApplyPolicy,
            NetworkChange::Saving => ChangeAction::SaveState,
            NetworkChange::Refreshing => ChangeAction::RefreshLocalIpRules,
            NetworkChange::ReportingRefresh { error } => ChangeAction::Log(
                LogRequest::with_error(LogLevel::Warn, LogKey::LocalIpLoopUpdateFailed, error.as_str()),
            ),
            NetworkChange::Finished { result } => ChangeAction::Finish(
                match result {
                    Ok(_) => Ok(()),
                    Err(e) => Err(copy_str(e.as_str())),
                },
            ),
        }
    }

    /// Takes in the outcome of the pending action: gives the next state and its action.
    pub fn step(self, event: ChangeEvent) -> (r: (NetworkChange, ChangeAction))
        ensures
            r.0@ == change_next(self@, event@),
            r.1@ == change_pending(r.0@),
    {
        let s = match self {
            NetworkChange::Observing => match event {
                ChangeEvent::Observed { state_matches } => if state_matches {
                    NetworkChange::Refreshing
                } else {
                    NetworkChange::Applying
                },
                _ => NetworkChange::Observing,
            },
            NetworkChange::Applying => match event {
                ChangeEvent::Applied(Err(e)) => NetworkChange::Finished { result: Err(e) },
                ChangeEvent::Applied(Ok(handled)) => if handled {
                    NetworkChange::Saving
                } else {
                    NetworkChange::Refreshing
                },
                _ => NetworkChange::Applying,
            },
            NetworkChange::Saving => match event {
                ChangeEvent::Saved => NetworkChange::Refreshing,
                _ => NetworkChange::Saving,
            },
            NetworkChange::Refreshing => match event {
                ChangeEvent::Refreshed(Err(error)) => NetworkChange::ReportingRefresh { error },
                ChangeEvent::Refreshed(Ok(_)) => NetworkChange::Finished { result: Ok(()) },
                _ => NetworkChange::Refreshing,
            },
            NetworkChange::ReportingRefresh { error } => match event {
                ChangeEvent::Logged => NetworkChange::Finished { result: Ok(()) },
                _ => NetworkChange::ReportingRefresh { error },
            },
            NetworkChange::Finished { result } => NetworkChange::Finished { result },
        };
        let a = s.pending();
        (s, a)
    }
}

/// Handles a network change: where the network no longer matches the saved Wi-Fi state, the
/// network control policy is applied (and its observation saved where it handled it); then the
/// local IP rules are refreshed, a failure of which is only logged.
pub fn handle_network_change() -> (r: (NetworkChange, ChangeAction))
    ensures
        r.0@ == NetworkChangeView::Observing,
        r.1@ == change_pending(r.0@),
{
    let s = NetworkChange::Observing;
    let a = s.pending();
    (s, a)
}

/// The Wi-Fi state is saved only right after the policy reported that it handled the change.
pub proof fn lemma_state_saved_only_when_handled(s: NetworkChangeView, e: ChangeEventView)
    requires
        change_next(s, e) != s,
        change_pending(change_next(s, e)) == ChangeActionView::SaveState,
    ensures
        s == NetworkChangeView::Applying,
        e == ChangeEventView::Applied(Ok(true)),
{
}

/// A failure to refresh the local IP rules is logged and never fails the change; only a
/// failure to apply the policy does, and then nothing else is done.
pub proof fn lemma_change_fails_only_on_policy(s: NetworkChangeView, e: ChangeEventView, error: Seq<char>)
    requires
        change_next(s, e) != s,
        change_next(s, e) == (NetworkChangeView::Finished { result: Err(error) }),
    ensures
        s == NetworkChangeView::Applying,
        e == ChangeEventView::Applied(Err(error)),
{
}

// ---------------------------------------------------------------------------------------------
// The worker's loop
// ---------------------------------------------------------------------------------------------

/// What the host does next in the monitor worker.
pub enum WorkerAction {
    /// Take the monitor lock.
    AcquireLock,
    /// Tell whether the monitor is required, for the configuration given at start, or, with
    /// `reload`, for the configuration loaded afresh.
    CheckRequired { reload: bool },
    /// Run the IP monitor until it returns.
    RunOnce,
    /// Write a log line, with the configuration loaded afresh.
    Log(LogRequest),
    /// Wait two seconds.
    Sleep,
    Finish(Result<(), String>),
}

/// What a [`WorkerAction`] holds.
pub enum WorkerActionView {
    AcquireLock,
    CheckRequired { reload: bool },
    RunOnce,
    Log(LogRequestView),
    Sleep,
    Finish(Result<(), Seq<char>>),
}

impl View for WorkerAction {
    type V = WorkerActionView;

    open spec fn view(&self) -> WorkerActionView {
        match self {
            WorkerAction::AcquireLock => WorkerActionView::AcquireLock,
            WorkerAction::CheckRequired { reload } => WorkerActionView::CheckRequired {
                reload: *reload,
            },
            WorkerAction::RunOnce => WorkerActionView::RunOnce,
            WorkerAction::Log(r) => WorkerActionView::Log(r@),
            WorkerAction::Sleep => WorkerActionView::Sleep,
            WorkerAction::Finish(r) => WorkerActionView::Finish(result_view(*r)),
        }
    }
}

/// The outcome of a [`WorkerAction`].
pub enum WorkerEvent {
    /// Whether the lock was taken (another worker holds it where not), or why taking it failed.
    Locked(Result<bool, String>),
    Required(bool),
    /// How a run of the IP monitor ended.
    Ran(Result<(), String>),
    Logged,
    Slept,
}

/// What a [`WorkerEvent`] holds.
pub enum WorkerEventView {
    Locked(Result<bool, Seq<char>>),
    Required(bool),
    Ran(Result<(), Seq<char>>),
    Logged,
    Slept,
}

impl View for WorkerEvent {
    type V = WorkerEventView;

    open spec fn view(&self) -> WorkerEventView {
        match self {
            WorkerEvent::Locked(r) => WorkerEventView::Locked(
                match r {
                    Ok(b) => Ok(*b),
                    Err(e) => Err(e@),
                },
            ),
            WorkerEvent::Required(b) => WorkerEventView::Required(*b),
            WorkerEvent::Ran(r) => WorkerEventView::Ran(result_view(*r)),
            WorkerEvent::Logged => WorkerEventView::Logged,
            WorkerEvent::Slept => WorkerEventView::Slept,
        }
    }
}

/// Where the monitor worker stands.
pub enum MonitorWorker {
    Locking,
    FirstCheck,
    Running,
    ReportingRetry { error: String },
    Rechecking,
    Sleeping,
    Finished { result: Result<(), String> },
}

/// What a [`MonitorWorker`] state holds.
pub enum MonitorWorkerView {
    Locking,
    FirstCheck,
    Running,
    ReportingRetry { error: Seq<char> },
    Rechecking,
    Sleeping,
    Finished { result: Result<(), Seq<char>> },
}

impl View for MonitorWorker {
    type V = MonitorWorkerView;

    open spec fn view(&self) -> MonitorWorkerView {
        match self {
            MonitorWorker::Locking => MonitorWorkerView::Locking,
            MonitorWorker::FirstCheck => MonitorWorkerView::FirstCheck,
            MonitorWorker::Running => MonitorWorkerView::Running,
            MonitorWorker::ReportingRetry { error } => MonitorWorkerView::ReportingRetry {
                error: error@,
            },
            MonitorWorker::Rechecking => MonitorWorkerView::Rechecking,
            MonitorWorker::Sleeping => MonitorWorkerView::Sleeping,
            MonitorWorker::Finished { result } => MonitorWorkerView::Finished {
                result: result_view(*result),
            },
        }
    }
}

/// The action that a worker state waits on.
pub open spec fn worker_pending(s: MonitorWorkerView) -> WorkerActionView {
    match s {
        MonitorWorkerView::Locking => WorkerActionView::AcquireLock,
        MonitorWorkerView::FirstCheck => WorkerActionView::CheckRequired { reload: false },
        MonitorWorkerView::Running => WorkerActionView::RunOnce,
        MonitorWorkerView::ReportingRetry { error } => WorkerActionView::Log(
            error_request(LogLevel::Warn, LogKey::NetworkMonitorRetrying, error),
        ),
        MonitorWorkerView::Rechecking => WorkerActionView::CheckRequired { reload: true },
        MonitorWorkerView::Sleeping => WorkerActionView::Sleep,
        MonitorWorkerView::Finished { result } => WorkerActionView::Finish(result),
    }
}

/// The worker state that follows `s` on `e`; an event that does not answer the pending action
/// leaves the state as it is.
pub open spec fn worker_next(s: MonitorWorkerView, e: WorkerEventView) -> MonitorWorkerView {
    match (s, e) {
        (MonitorWorkerView::Locking, WorkerEventView::Locked(r)) => match r {
            Err(e) => MonitorWorkerView::Finished { result: Err(e) },
            Ok(taken) => if taken {
                MonitorWorkerView::FirstCheck
            } else {
                MonitorWorkerView::Finished { result: Ok(()) }
            },
        },
        (MonitorWorkerView::FirstCheck, WorkerEventView::Required(req)) => if req {
            MonitorWorkerView::Running
        } else {
            MonitorWorkerView::Finished { result: Ok(()) }
        },
        (MonitorWorkerView::Running, WorkerEventView::Ran(r)) => match r {
            Ok(_) => MonitorWorkerView::Rechecking,
            Err(error) => MonitorWorkerView::ReportingRetry { error },
        },
        (MonitorWorkerView::ReportingRetry { .. }, WorkerEventView::Logged) => MonitorWorkerView::Rechecking,
        (MonitorWorkerView::Rechecking, WorkerEventView::Required(req)) => if req {
            MonitorWorkerView::Sleeping
        } else {
            MonitorWorkerView::Finished { result: Ok(()) }
        },
        (MonitorWorkerView::Sleeping, WorkerEventView::Slept) => MonitorWorkerView::Running,
        _ => s,
    }
}

impl MonitorWorker {
    /// The action that this state waits on.
    pub fn pending(&self) -> (a: WorkerAction)
        ensures
            a@ == worker_pending(self@),
    {
        match self {
            MonitorWorker::Locking => WorkerAction::AcquireLock,
            MonitorWorker::FirstCheck => WorkerAction::CheckRequired { reload: false },
            MonitorWorker::Running => WorkerAction::RunOnce,
            MonitorWorker::ReportingRetry { error } => WorkerAction::Log(
                LogRequest::with_error(LogLevel::Warn, LogKey::NetworkMonitorRetrying, error.as_str()),
            ),
            MonitorWorker::Rechecking => WorkerAction::CheckRequired { reload: true },
            MonitorWorker::Sleeping => WorkerAction::Sleep,
            MonitorWorker::Finished { result } => WorkerAction::Finish(
                match result {
                    Ok(_) => Ok(()),
                    Err(e) => Err(copy_str(e.as_str())),
                },
            ),
        }
    }

    /// Takes in the outcome of the pending action: gives the next state and its action.
    pub fn step(self, event: WorkerEvent) -> (r: (MonitorWorker, WorkerAction))
        ensures
            r.0@ == worker_next(self@, event@),
            r.1@ == worker_pending(r.0@),
    {
        let s = match self {
            MonitorWorker::Locking => match event {
                WorkerEvent::Locked(Err(e)) => MonitorWorker::Finished { result: Err(e) },
                WorkerEvent::Locked(Ok(taken)) => if taken {
                    MonitorWorker::FirstCheck
                } else {
                    MonitorWorker::Finished { result: Ok(()) }
                },
                _ => MonitorWorker::Locking,
            },
            MonitorWorker::FirstCheck => match event {
                WorkerEvent::Required(req) => if req {
                    MonitorWorker::Running
                } else {
                    MonitorWorker::Finished { result: Ok(()) }
                },
                _ => MonitorWorker::FirstCheck,
            },
            MonitorWorker::Running => match event {
                WorkerEvent::Ran(Ok(_)) => MonitorWorker::Rechecking,
                WorkerEvent::Ran(Err(error)) => MonitorWorker::ReportingRetry { error },
                _ => MonitorWorker::Running,
            },
            MonitorWorker::ReportingRetry { error } => match event {
                WorkerEvent::Logged => MonitorWorker::Rechecking,
                _ => MonitorWorker::ReportingRetry { error },
            },
            MonitorWorker::Rechecking => match event {
                WorkerEvent::Required(req) => if req {
                    MonitorWorker::Sleeping
                } else {
                    MonitorWorker::Finished { result: Ok(()) }
                },
                _ => MonitorWorker::Rechecking,
            },
            MonitorWorker::Sleeping => match event {
                WorkerEvent::Slept => MonitorWorker::Running,
                _ => MonitorWorker::Sleeping,
            },
            MonitorWorker::Finished { result } => MonitorWorker::Finished { result },
        };
        let a = s.pending();
        (s, a)
    }
}

/// Runs the monitor worker: takes the monitor lock, then runs the IP monitor round after round
/// for as long as the monitor is required, logging failed rounds and pausing between rounds.
pub fn monitor_worker() -> (r: (MonitorWorker, WorkerAction))
    ensures
        r.0@ == MonitorWorkerView::Locking,
        r.1@ == worker_pending(r.0@),
{
    let s = MonitorWorker::Locking;
    let a = s.pending();
    (s, a)
}

/// A round of the IP monitor starts only after a check found the monitor required (directly,
/// or followed by the pause between rounds); a failed round never ends the worker.
pub proof fn lemma_rounds_only_while_required(s: MonitorWorkerView, e: WorkerEventView)
    requires
        worker_next(s, e) != s,
    ensures
        worker_next(s, e) == MonitorWorkerView::Running ==> (s == MonitorWorkerView::FirstCheck
            && e == WorkerEventView::Required(true)) || (s == MonitorWorkerView::Sleeping && e
            == WorkerEventView::Slept),
        worker_next(s, e) == MonitorWorkerView::Sleeping ==> s == MonitorWorkerView::Rechecking
            && e == WorkerEventView::Required(true),
        s == MonitorWorkerView::Running ==> !(worker_next(s, e) is Finished),
        worker_next(s, e) matches MonitorWorkerView::Finished { result } && result is Err
            ==> s == MonitorWorkerView::Locking,
{
}

} // verus!
