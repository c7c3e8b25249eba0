//! The service lifecycle: bringing the core and its inbound rules up, taking them down,
//! restarting, booting and reporting status.
//!
//! Each command is a state machine. A command's constructor ([`up`], [`down`], [`restart`],
//! [`boot`], [`status`]) gives the first state and the first action; the host performs each
//! action (a log line, or outside work such as starting the core) and feeds the outcome back
//! through [`Lifecycle::step`], until the action is [`Action::Finish`].
use vstd::prelude::*;

use crate::config::Config;
use crate::logger::{
    arg, arg_views, error_request, plain_request, ConfigArgs, LogArg, LogArgView, LogKey,
    LogLevel, LogRequest, LogRequestView,
};
use crate::text::{
    concat2, concat3, copy_str, join, join_exec, lemma_join_contains_parts,
    lemma_occurs_at_start, lemma_occurs_within, occurs_in, views,
};

verus! {

/// Outside work that a lifecycle asks its host to carry out.
#[derive(Clone, Copy, Debug, PartialEq, Eq, Structural)]
pub enum Work {
    /// Bring the core's configuration in line with the box settings.
    SyncCoreConfig,
    /// Start the core and apply the inbound rules, side by side.
    StartCoreAndApplyRules,
    /// Stop the core and clear the inbound rules, side by side.
    StopCoreAndClearRules,
    /// Undo a failed startup: stop the core and clear the inbound rules, side by side.
    RollBackStartup,
    /// Start or stop the network monitor as the settings require.
    RunMonitor,
    /// Apply the Wi-Fi network policy.
    ApplyWifiPolicy,
    /// Report the service's status.
    QueryServiceStatus,
}

/// What the host does next.
pub enum Action {
    Log(LogRequest),
    Perform(Work),
    /// The command is over, with this outcome.
    Finish(Result<(), String>),
}

/// What an [`Action`] holds.
pub enum ActionView {
    Log(LogRequestView),
    Perform(Work),
    Finish(Result<(), Seq<char>>),
}

/// The outcome of an action, reported back by the host.
pub enum Event {
    /// A log line was written.
    Logged,
    /// A single piece of work finished.
    Done(Result<(), String>),
    /// Work on the core and on the rules finished (thread failures reported as errors).
    BothDone { core: Result<(), String>, rules: Result<(), String> },
}

/// What an [`Event`] holds.
pub enum EventView {
    Logged,
    Done(Result<(), Seq<char>>),
    BothDone { core: Result<(), Seq<char>>, rules: Result<(), Seq<char>> },
}

/// Where a command stands: each state waits for the outcome of the action it asked for.
pub enum Lifecycle {
    /// Startup was announced.
    UpAnnounced { manage_monitor: bool },
    /// The core's configuration is being brought in line.
    Syncing { manage_monitor: bool },
    /// The core is starting and the rules are being applied.
    Starting { manage_monitor: bool },
    /// The network monitor is starting after a successful start.
    StartingMonitor,
    /// A failed startup is being undone; `primary` says what failed.
    RollingBack { primary: String },
    /// Startup failed and the failure is being reported.
    ReportingFailure { error: String },
    /// Startup completed and that is being reported.
    ReportingStarted,
    /// Stopping was announced.
    DownAnnounced { manage_monitor: bool, then_up: bool },
    /// The core is stopping and the rules are being cleared.
    Stopping { manage_monitor: bool, then_up: bool },
    /// The network monitor is being updated after stopping.
    StopMonitor { then_up: bool },
    /// Stopping completed and that is being reported.
    ReportingStopped { then_up: bool },
    /// A restart was announced.
    RestartAnnounced,
    /// Booting with Wi-Fi control: the Wi-Fi policy is being applied.
    ApplyingWifi,
    /// Booting with Wi-Fi control: the network monitor is starting.
    BootMonitor,
    /// The status summary was written.
    StatusSummarized,
    /// The core configuration summary was written.
    StatusConfigShown,
    /// The service is reporting its status.
    QueryingStatus,
    /// The command is over.
    Finished { result: Result<(), String> },
}

/// What a [`Lifecycle`] state holds.
pub enum LifecycleView {
    UpAnnounced { manage_monitor: bool },
    Syncing { manage_monitor: bool },
    Starting { manage_monitor: bool },
    StartingMonitor,
    RollingBack { primary: Seq<char> },
    ReportingFailure { error: Seq<char> },
    ReportingStarted,
    DownAnnounced { manage_monitor: bool, then_up: bool },
    Stopping { manage_monitor: bool, then_up: bool },
    StopMonitor { then_up: bool },
    ReportingStopped { then_up: bool },
    RestartAnnounced,
    ApplyingWifi,
    BootMonitor,
    StatusSummarized,
    StatusConfigShown,
    QueryingStatus,
    Finished { result: Result<(), Seq<char>> },
}

/// The view of an outcome.
pub open spec fn result_view(r: Result<(), String>) -> Result<(), Seq<char>> {
    match r {
        Ok(_) => Ok(()),
        Err(e) => Err(e@),
    }
}

impl View for Action {
    type V = ActionView;

    open spec fn view(&self) -> ActionView {
        match self {
            Action::Log(r) => ActionView::Log(r@),
            Action::Perform(w) => ActionView::Perform(*w),
            Action::Finish(r) => ActionView::Finish(result_view(*r)),
        }
    }
}

impl View for Event {
    type V = EventView;

    open spec fn view(&self) -> EventView {
        match self {
            Event::Logged => EventView::Logged,
            Event::Done(r) => EventView::Done(result_view(*r)),
            Event::BothDone { core, rules } => EventView::BothDone {
                core: result_view(*core),
                rules: result_view(*rules),
            },
        }
    }
}

impl View for Lifecycle {
    type V = LifecycleView;

    open spec fn view(&self) -> LifecycleView {
        match self {
            Lifecycle::UpAnnounced { manage_monitor } => LifecycleView::UpAnnounced {
                manage_monitor: *manage_monitor,
            },
            Lifecycle::Syncing { manage_monitor } => LifecycleView::Syncing {
                manage_monitor: *manage_monitor,
            },
            Lifecycle::Starting { manage_monitor } => LifecycleView::Starting {
                manage_monitor: *manage_monitor,
            },
            Lifecycle::StartingMonitor => LifecycleView::StartingMonitor,
            Lifecycle::RollingBack { primary } => LifecycleView::RollingBack { primary: primary@ },
            Lifecycle::ReportingFailure { error } => LifecycleView::ReportingFailure {
                error: error@,
            },
            Lifecycle::ReportingStarted => LifecycleView::ReportingStarted,
            Lifecycle::DownAnnounced { manage_monitor, then_up } => LifecycleView::DownAnnounced {
                manage_monitor: *manage_monitor,
                then_up: *then_up,
            },
            Lifecycle::Stopping { manage_monitor, then_up } => LifecycleView::Stopping {
                manage_monitor: *manage_monitor,
                then_up: *then_up,
            },
            Lifecycle::StopMonitor { then_up } => LifecycleView::StopMonitor { then_up: *then_up },
            Lifecycle::ReportingStopped { then_up } => LifecycleView::ReportingStopped {
                then_up: *then_up,
            },
            Lifecycle::RestartAnnounced => LifecycleView::RestartAnnounced,
            Lifecycle::ApplyingWifi => LifecycleView::ApplyingWifi,
            Lifecycle::BootMonitor => LifecycleView::BootMonitor,
            Lifecycle::StatusSummarized => LifecycleView::StatusSummarized,
            Lifecycle::StatusConfigShown => LifecycleView::StatusConfigShown,
            Lifecycle::QueryingStatus => LifecycleView::QueryingStatus,
            Lifecycle::Finished { result } => LifecycleView::Finished {
                result: result_view(*result),
            },
        }
    }
}

/// An argument with the same value in both languages.
pub open spec fn same_arg(key: Seq<char>, value: Seq<char>) -> LogArgView {
    LogArgView { key, en: value, zh: value }
}

/// The `core` and `mode` arguments.
pub open spec fn core_mode_args(config: &Config) -> Seq<LogArgView> {
    seq![same_arg("core"@, config.bin_name@), same_arg("mode"@, config.network_mode@)]
}

/// The arguments of the status summary, before the `performance` one.
pub open spec fn status_args(config: &Config) -> Seq<LogArgView> {
    seq![
        same_arg("core"@, config.bin_name@),
        same_arg("mode"@, config.network_mode@),
        same_arg("tun"@, config.tun_device@),
        same_arg("tproxy"@, config.tproxy_port@),
        same_arg("redir"@, config.redir_port@),
        same_arg("dns"@, config.dns_hijack_mode@ + ":"@ + config.mihomo_dns_port@),
    ]
}

/// The action that a state waits on.
pub open spec fn pending_action(s: LifecycleView, config: &Config) -> ActionView {
    match s {
        LifecycleView::UpAnnounced { .. } => ActionView::Log(
            LogRequestView {
                level: LogLevel::Info,
                key: LogKey::StartupBegin,
                args: Seq::empty(),
                config_args: ConfigArgs::Startup,
            },
        ),
        LifecycleView::Syncing { .. } => ActionView::Perform(Work::SyncCoreConfig),
        LifecycleView::Starting { .. } => ActionView::Perform(Work::StartCoreAndApplyRules),
        LifecycleView::StartingMonitor => ActionView::Perform(Work::RunMonitor),
        LifecycleView::RollingBack { .. } => ActionView::Perform(Work::RollBackStartup),
        LifecycleView::ReportingFailure { error } => ActionView::Log(
            error_request(LogLevel::Error, LogKey::StartupFailed, error),
        ),
        LifecycleView::ReportingStarted => ActionView::Log(
            plain_request(LogLevel::Info, LogKey::StartupCompleted),
        ),
        LifecycleView::DownAnnounced { .. } => ActionView::Log(
            LogRequestView {
                level: LogLevel::Warn,
                key: LogKey::StopBegin,
                args: core_mode_args(config),
                config_args: ConfigArgs::Nothing,
            },
        ),
        LifecycleView::Stopping { .. } => ActionView::Perform(Work::StopCoreAndClearRules),
        LifecycleView::StopMonitor { .. } => ActionView::Perform(Work::RunMonitor),
        LifecycleView::ReportingStopped { .. } => ActionView::Log(
            plain_request(LogLevel::Warn, LogKey::StopCompleted),
        ),
        LifecycleView::RestartAnnounced => ActionView::Log(
            LogRequestView {
                level: LogLevel::Warn,
                key: LogKey::RestartBegin,
                args: core_mode_args(config),
                config_args: ConfigArgs::Nothing,
            },
        ),
        LifecycleView::ApplyingWifi => ActionView::Perform(Work::ApplyWifiPolicy),
        LifecycleView::BootMonitor => ActionView::Perform(Work::RunMonitor),
        LifecycleView::StatusSummarized => ActionView::Log(
            LogRequestView {
                level: LogLevel::Info,
                key: LogKey::StatusSummary,
                args: status_args(config),
                config_args: ConfigArgs::PerformanceEnabled(config.performance_mode),
            },
        ),
        LifecycleView::StatusConfigShown => ActionView::Log(
            LogRequestView {
                level: LogLevel::Info,
                key: LogKey::CoreConfigRead,
                args: Seq::empty(),
                config_args: ConfigArgs::CoreConfig,
            },
        ),
        LifecycleView::QueryingStatus => ActionView::Perform(Work::QueryServiceStatus),
        LifecycleView::Finished { result } => ActionView::Finish(result),
    }
}

/// The messages of the failed ones of two outcomes, each behind its prefix, in order.
pub open spec fn failure_messages(
    first: Result<(), Seq<char>>,
    second: Result<(), Seq<char>>,
    first_prefix: Seq<char>,
    second_prefix: Seq<char>,
) -> Seq<Seq<char>> {
    (match first {
        Ok(_) => Seq::empty(),
        Err(e) => seq![first_prefix + e],
    }) + (match second {
        Ok(_) => Seq::empty(),
        Err(e) => seq![second_prefix + e],
    })
}

/// What failed when starting the core and applying the rules.
pub open spec fn start_failure(core: Result<(), Seq<char>>, rules: Result<(), Seq<char>>) -> Seq<
    char,
> {
    join(failure_messages(core, rules, "start core failed: "@, "apply rules failed: "@), "; "@)
}

/// A startup failure, followed by what failed while undoing it, if anything did.
pub open spec fn failure_with_rollback(primary: Seq<char>, rollback: Seq<Seq<char>>) -> Seq<char> {
    if rollback.len() == 0 {
        primary
    } else {
        primary + "; rollback failed: "@ + join(rollback, "; "@)
    }
}

/// The failure reported at the end of a rollback.
pub open spec fn rollback_error(
    primary: Seq<char>,
    core: Result<(), Seq<char>>,
    rules: Result<(), Seq<char>>,
) -> Seq<char> {
    failure_with_rollback(
        primary,
        failure_messages(core, rules, "stop core: "@, "clear rules: "@),
    )
}

/// The state that follows `s` on `e`; an event that does not answer the pending action
/// leaves the state as it is.
pub open spec fn next_state(s: LifecycleView, e: EventView) -> LifecycleView {
    match (s, e) {
        (LifecycleView::UpAnnounced { manage_monitor }, EventView::Logged) => LifecycleView::Syncing {
            manage_monitor,
        },
        (LifecycleView::Syncing { manage_monitor }, EventView::Done(r)) => match r {
            Ok(_) => LifecycleView::Starting { manage_monitor },
            Err(error) => LifecycleView::ReportingFailure { error },
        },
        (LifecycleView::Starting { manage_monitor }, EventView::BothDone { core, rules }) => {
            if core is Ok && rules is Ok {
                if manage_monitor {
                    LifecycleView::StartingMonitor
                } else {
                    LifecycleView::ReportingStarted
                }
            } else {
                LifecycleView::RollingBack { primary: start_failure(core, rules) }
            }
        },
        (LifecycleView::StartingMonitor, EventView::Done(r)) => match r {
            Ok(_) => LifecycleView::ReportingStarted,
            Err(e) => LifecycleView::RollingBack { primary: "start monitor failed: "@ + e },
        },
        (LifecycleView::RollingBack { primary }, EventView::BothDone { core, rules }) => {
            LifecycleView::ReportingFailure { error: rollback_error(primary, core, rules) }
        },
        (LifecycleView::ReportingFailure { error }, EventView::Logged) => LifecycleView::Finished {
            result: Err(error),
        },
        (LifecycleView::ReportingStarted, EventView::Logged) => LifecycleView::Finished {
            result: Ok(()),
        },
        (
            LifecycleView::DownAnnounced { manage_monitor, then_up },
            EventView::Logged,
        ) => LifecycleView::Stopping { manage_monitor, then_up },
        (
            LifecycleView::Stopping { manage_monitor, then_up },
            EventView::BothDone { core, rules },
        ) => match rules {
            Err(e) => LifecycleView::Finished { result: Err(e) },
            Ok(_) => match core {
                Err(e) => LifecycleView::Finished { result: Err(e) },
                Ok(_) => if manage_monitor {
                    LifecycleView::StopMonitor { then_up }
                } else {
                    LifecycleView::ReportingStopped { then_up }
                },
            },
        },
        (LifecycleView::StopMonitor { then_up }, EventView::Done(r)) => match r {
            Ok(_) => LifecycleView::ReportingStopped { then_up },
            Err(e) => LifecycleView::Finished { result: Err(e) },
        },
        (LifecycleView::ReportingStopped { then_up }, EventView::Logged) => if then_up {
            LifecycleView::UpAnnounced { manage_monitor: true }
        } else {
            LifecycleView::Finished { result: Ok(()) }
        },
        (LifecycleView::RestartAnnounced, EventView::Logged) => LifecycleView::DownAnnounced {
            manage_monitor: false,
            then_up: true,
        },
        (LifecycleView::ApplyingWifi, EventView::Done(r)) => match r {
            Ok(_) => LifecycleView::BootMonitor,
            Err(e) => LifecycleView::Finished { result: Err(e) },
        },
        (LifecycleView::BootMonitor, EventView::Done(r)) => LifecycleView::Finished { result: r },
        (LifecycleView::StatusSummarized, EventView::Logged) => LifecycleView::StatusConfigShown,
        (LifecycleView::StatusConfigShown, EventView::Logged) => LifecycleView::QueryingStatus,
        (LifecycleView::QueryingStatus, EventView::Done(r)) => LifecycleView::Finished {
            result: r,
        },
        _ => s,
    }
}

/// Whether `e` is the kind of outcome that `a` calls for.
pub open spec fn answers(a: ActionView, e: EventView) -> bool {
    match a {
        ActionView::Log(_) => e is Logged,
        ActionView::Perform(w) => if w == Work::StartCoreAndApplyRules || w
            == Work::StopCoreAndClearRules || w == Work::RollBackStartup {
            e is BothDone
        } else {
            e is Done
        },
        ActionView::Finish(_) => false,
    }
}

/// An upper bound on the steps a command still takes before it finishes.
pub open spec fn steps_left(s: LifecycleView) -> nat {
    match s {
        LifecycleView::Finished { .. } => 0,
        LifecycleView::ReportingFailure { .. } => 1,
        LifecycleView::ReportingStarted => 1,
        LifecycleView::RollingBack { .. } => 2,
        LifecycleView::StartingMonitor => 3,
        LifecycleView::Starting { .. } => 4,
        LifecycleView::Syncing { .. } => 5,
        LifecycleView::UpAnnounced { .. } => 6,
        LifecycleView::ReportingStopped { then_up } => if then_up {
            7
        } else {
            1
        },
        LifecycleView::StopMonitor { then_up } => if then_up {
            8
        } else {
            2
        },
        LifecycleView::Stopping { .. } => 9,
        LifecycleView::DownAnnounced { .. } => 10,
        LifecycleView::RestartAnnounced => 11,
        LifecycleView::BootMonitor => 1,
        LifecycleView::ApplyingWifi => 2,
        LifecycleView::QueryingStatus => 1,
        LifecycleView::StatusConfigShown => 2,
        LifecycleView::StatusSummarized => 3,
    }
}

/// The message that stands for the outcome of the work run on a second thread, where that
/// thread panicked: applying the rules on start, clearing them on rollback, and stopping the
/// core on the way down. Single pieces of work run on no second thread.
pub fn panicked_thread_message(work: Work) -> (r: Option<&'static str>)
    ensures
        match work {
            Work::StartCoreAndApplyRules => r is Some && r->0@ == "inbound rules thread panicked"@,
            Work::RollBackStartup => r is Some && r->0@ == "rules rollback thread panicked"@,
            Work::StopCoreAndClearRules => r is Some && r->0@ == "service stop thread panicked"@,
            _ => r is None,
        },
{
    match work {
        Work::StartCoreAndApplyRules => Some("inbound rules thread panicked"),
        Work::RollBackStartup => Some("rules rollback thread panicked"),
        Work::StopCoreAndClearRules => Some("service stop thread panicked"),
        _ => None,
    }
}

/// The outcome of a thread's work: what it returned, or `message` where it panicked.
pub fn join_result(joined: Result<Result<(), String>, ()>, message: &str) -> (r: Result<(), String>)
    ensures
        result_view(r) == match joined {
            Ok(inner) => result_view(inner),
            Err(_) => Err(message@),
        },
{
    match joined {
        Ok(result) => result,
        Err(_) => Err(copy_str(message)),
    }
}

/// A startup failure, followed by what failed while undoing it, if anything did.
pub fn startup_failure_with_rollback(primary: &str, rollback_failures: &[String]) -> (r: String)
    ensures
        r@ == failure_with_rollback(primary@, views(rollback_failures@)),
{
    if rollback_failures.len() == 0 {
        copy_str(primary)
    } else {
        let joined = join_exec(rollback_failures, "; ");
        concat3(primary, "; rollback failed: ", joined.as_str())
    }
}

/// The error line that reports a failed startup.
pub fn log_startup_failed(error: &str) -> (r: LogRequest)
    ensures
        r@ == error_request(LogLevel::Error, LogKey::StartupFailed, error@),
{
    LogRequest::with_error(LogLevel::Error, LogKey::StartupFailed, error)
}

/// The messages of the failed ones of two outcomes, each behind its prefix.
fn failure_list(
    first: &Result<(), String>,
    second: &Result<(), String>,
    first_prefix: &str,
    second_prefix: &str,
) -> (r: Vec<String>)
    ensures
        views(r@) == failure_messages(
            result_view(*first),
            result_view(*second),
            first_prefix@,
            second_prefix@,
        ),
{
    let mut r: Vec<String> = Vec::new();
    if let Err(e) = first {
        r.push(concat2(first_prefix, e.as_str()));
    }
    if let Err(e) = second {
        r.push(concat2(second_prefix, e.as_str()));
    }
    proof {
        assert(views(r@) =~= failure_messages(
            result_view(*first),
            result_view(*second),
            first_prefix@,
            second_prefix@,
        ));
    }
    r
}

fn copy_result(r: &Result<(), String>) -> (c: Result<(), String>)
    ensures
        result_view(c) == result_view(*r),
{
    match r {
        Ok(_) => Ok(()),
        Err(e) => Err(copy_str(e.as_str())),
    }
}

fn core_mode_log_args(config: &Config) -> (r: Vec<LogArg>)
    ensures
        arg_views(r@) == core_mode_args(config),
{
    let mut r: Vec<LogArg> = Vec::new();
    r.push(arg("core", config.bin_name.as_str()));
    r.push(arg("mode", config.network_mode.as_str()));
    assert(arg_views(r@) =~= core_mode_args(config));
    r
}

fn status_log_args(config: &Config) -> (r: Vec<LogArg>)
    ensures
        arg_views(r@) == status_args(config),
{
    let mut r: Vec<LogArg> = Vec::new();
    r.push(arg("core", config.bin_name.as_str()));
    r.push(arg("mode", config.network_mode.as_str()));
    r.push(arg("tun", config.tun_device.as_str()));
    r.push(arg("tproxy", config.tproxy_port.as_str()));
    r.push(arg("redir", config.redir_port.as_str()));
    let dns = concat3(config.dns_hijack_mode.as_str(), ":", config.mihomo_dns_port.as_str());
    r.push(arg("dns", dns.as_str()));
    assert(arg_views(r@) =~= status_args(config));
    r
}

impl Lifecycle {
    /// The action that this state waits on.
    pub fn pending(&self, config: &Config) -> (a: Action)
        ensures
            a@ == pending_action(self@, config),
    {
        match self {
            Lifecycle::UpAnnounced { .. } => {
                let r = LogRequest {
                    level: LogLevel::Info,
                    key: LogKey::StartupBegin,
                    args: Vec::new(),
                    config_args: ConfigArgs::Startup,
                };
                assert(r@.args =~= Seq::<LogArgView>::empty());
                Action::Log(r)
            },
            Lifecycle::Syncing { .. } => Action::Perform(Work::SyncCoreConfig),
            Lifecycle::Starting { .. } => Action::Perform(Work::StartCoreAndApplyRules),
            Lifecycle::StartingMonitor => Action::Perform(Work::RunMonitor),
            Lifecycle::RollingBack { .. } => Action::Perform(Work::RollBackStartup),
            Lifecycle::ReportingFailure { error } => Action::Log(log_startup_failed(error.as_str())),
            Lifecycle::ReportingStarted => Action::Log(
                LogRequest::plain(LogLevel::Info, LogKey::StartupCompleted),
            ),
            Lifecycle::DownAnnounced { .. } => Action::Log(
                LogRequest {
                    level: LogLevel::Warn,
                    key: LogKey::StopBegin,
                    args: core_mode_log_args(config),
                    config_args: ConfigArgs::Nothing,
                },
            ),
            Lifecycle::Stopping { .. } => Action::Perform(Work::StopCoreAndClearRules),
            Lifecycle::StopMonitor { .. } => Action::Perform(Work::RunMonitor),
            Lifecycle::ReportingStopped { .. } => Action::Log(
                LogRequest::plain(LogLevel::Warn, LogKey::StopCompleted),
            ),
            Lifecycle::RestartAnnounced => Action::Log(
                LogRequest {
                    level: LogLevel::Warn,
                    key: LogKey::RestartBegin,
                    args: core_mode_log_args(config),
                    config_args: ConfigArgs::Nothing,
                },
            ),
            Lifecycle::ApplyingWifi => Action::Perform(Work::ApplyWifiPolicy),
            Lifecycle::BootMonitor => Action::Perform(Work::RunMonitor),
            Lifecycle::StatusSummarized => Action::Log(
                LogRequest {
                    level: LogLevel::Info,
                    key: LogKey::StatusSummary,
                    args: status_log_args(config),
                    config_args: ConfigArgs::PerformanceEnabled(config.performance_mode),
                },
            ),
            Lifecycle::StatusConfigShown => {
                let r = LogRequest {
                    level: LogLevel::Info,
                    key: LogKey::CoreConfigRead,
                    args: Vec::new(),
                    config_args: ConfigArgs::CoreConfig,
                };
                assert(r@.args =~= Seq::<LogArgView>::empty());
                Action::Log(r)
            },
            Lifecycle::QueryingStatus => Action::Perform(Work::QueryServiceStatus),
            Lifecycle::Finished { result } => Action::Finish(copy_result(result)),
        }
    }

    /// The state that follows this one on `event`.
    fn advance(self, event: Event) -> (r: Lifecycle)
        ensures
            r@ == next_state(self@, event@),
    {
        match self {
            Lifecycle::UpAnnounced { manage_monitor } => match event {
                Event::Logged => Lifecycle::Syncing { manage_monitor },
                _ => Lifecycle::UpAnnounced { manage_monitor },
            },
            Lifecycle::Syncing { manage_monitor } => match event {
                Event::Done(Ok(_)) => Lifecycle::Starting { manage_monitor },
                Event::Done(Err(error)) => Lifecycle::ReportingFailure { error },
                _ => Lifecycle::Syncing { manage_monitor },
            },
            Lifecycle::Starting { manage_monitor } => match event {
                Event::BothDone { core, rules } => {
                    if core.is_ok() && rules.is_ok() {
                        if manage_monitor {
                            Lifecycle::StartingMonitor
                        } else {
                            Lifecycle::ReportingStarted
                        }
                    } else {
                        let failures = failure_list(
                            &core,
                            &rules,
                            "start core failed: ",
                            "apply rules failed: ",
                        );
                        let primary = join_exec(failures.as_slice(), "; ");
                        Lifecycle::RollingBack { primary }
                    }
                },
                _ => Lifecycle::Starting { manage_monitor },
            },
            Lifecycle::StartingMonitor => match event {
                Event::Done(Ok(_)) => Lifecycle::ReportingStarted,
                Event::Done(Err(e)) => Lifecycle::RollingBack {
                    primary: concat2("start monitor failed: ", e.as_str()),
                },
                _ => Lifecycle::StartingMonitor,
            },
            Lifecycle::RollingBack { primary } => match event {
                Event::BothDone { core, rules } => {
                    let failures = failure_list(&core, &rules, "stop core: ", "clear rules: ");
                    let error = startup_failure_with_rollback(
                        primary.as_str(),
                        failures.as_slice(),
                    );
                    Lifecycle::ReportingFailure { error }
                },
                _ => Lifecycle::RollingBack { primary },
            },
            Lifecycle::ReportingFailure { error } => match event {
                Event::Logged => Lifecycle::Finished { result: Err(error) },
                _ => Lifecycle::ReportingFailure { error },
            },
            Lifecycle::ReportingStarted => match event {
                Event::Logged => Lifecycle::Finished { result: Ok(()) },
                _ => Lifecycle::ReportingStarted,
            },
            Lifecycle::DownAnnounced { manage_monitor, then_up } => match event {
                Event::Logged => Lifecycle::Stopping { manage_monitor, then_up },
                _ => Lifecycle::DownAnnounced { manage_monitor, then_up },
            },
            Lifecycle::Stopping { manage_monitor, then_up } => match event {
                Event::BothDone { core, rules } => match rules {
                    Err(e) => Lifecycle::Finished { result: Err(e) },
                    Ok(_) => match core {
                        Err(e) => Lifecycle::Finished { result: Err(e) },
                        Ok(_) => if manage_monitor {
                            Lifecycle::StopMonitor { then_up }
                        } else {
                            Lifecycle::ReportingStopped { then_up }
                        },
                    },
                },
                _ => Lifecycle::Stopping { manage_monitor, then_up },
            },
            Lifecycle::StopMonitor { then_up } => match event {
                Event::Done(Ok(_)) => Lifecycle::ReportingStopped { then_up },
                Event::Done(Err(e)) => Lifecycle::Finished { result: Err(e) },
                _ => Lifecycle::StopMonitor { then_up },
            },
            Lifecycle::ReportingStopped { then_up } => match event {
                Event::Logged => if then_up {
                    Lifecycle::UpAnnounced { manage_monitor: true }
                } else {
                    Lifecycle::Finished { result: Ok(()) }
                },
                _ => Lifecycle::ReportingStopped { then_up },
            },
            Lifecycle::RestartAnnounced => match event {
                Event::Logged => Lifecycle::DownAnnounced { manage_monitor: false, then_up: true },
                _ => Lifecycle::RestartAnnounced,
            },
            Lifecycle::ApplyingWifi => match event {
                Event::Done(Ok(_)) => Lifecycle::BootMonitor,
                Event::Done(Err(e)) => Lifecycle::Finished { result: Err(e) },
                _ => Lifecycle::ApplyingWifi,
            },
            Lifecycle::BootMonitor => match event {
                Event::Done(result) => Lifecycle::Finished { result },
                _ => Lifecycle::BootMonitor,
            },
            Lifecycle::StatusSummarized => match event {
                Event::Logged => Lifecycle::StatusConfigShown,
                _ => Lifecycle::StatusSummarized,
            },
            Lifecycle::StatusConfigShown => match event {
                Event::Logged => Lifecycle::QueryingStatus,
                _ => Lifecycle::StatusConfigShown,
            },
            Lifecycle::QueryingStatus => match event {
                Event::Done(result) => Lifecycle::Finished { result },
                _ => Lifecycle::QueryingStatus,
            },
            Lifecycle::Finished { result } => Lifecycle::Finished { result },
        }
    }

    /// Takes in the outcome of the pending action: gives the next state and its action.
    pub fn step(self, config: &Config, event: Event) -> (r: (Lifecycle, Action))
        ensures
            r.0@ == next_state(self@, event@),
            r.1@ == pending_action(r.0@, config),
    {
        let s = self.advance(event);
        let a = s.pending(config);
        (s, a)
    }

    /// Whether the command is over.
    pub fn is_finished(&self) -> (r: bool)
        ensures
            r == (self@ is Finished),
    {
        match self {
            Lifecycle::Finished { .. } => true,
            _ => false,
        }
    }
}

/// Starts the core and applies the inbound rules, then starts the network monitor; rolls
/// everything back where a step fails.
pub fn up(config: &Config) -> (r: (Lifecycle, Action))
    ensures
        r.0@ == (LifecycleView::UpAnnounced { manage_monitor: true }),
        r.1@ == pending_action(r.0@, config),
{
    let s = Lifecycle::UpAnnounced { manage_monitor: true };
    let a = s.pending(config);
    (s, a)
}

/// [`up`] as the network monitor runs it: the monitor is left alone.
pub fn up_from_monitor(config: &Config) -> (r: (Lifecycle, Action))
    ensures
        r.0@ == (LifecycleView::UpAnnounced { manage_monitor: false }),
        r.1@ == pending_action(r.0@, config),
{
    let s = Lifecycle::UpAnnounced { manage_monitor: false };
    let a = s.pending(config);
    (s, a)
}

/// Boots: with Wi-Fi control, applies the Wi-Fi policy and starts the monitor; otherwise
/// brings the service [`up`].
pub fn boot(config: &Config) -> (r: (Lifecycle, Action))
    ensures
        r.0@ == if config.wifi_network_control_enabled {
            LifecycleView::ApplyingWifi
        } else {
            LifecycleView::UpAnnounced { manage_monitor: true }
        },
        r.1@ == pending_action(r.0@, config),
{
    if config.wifi_network_control_enabled {
        let s = Lifecycle::ApplyingWifi;
        let a = s.pending(config);
        (s, a)
    } else {
        up(config)
    }
}

/// Stops the core and clears the inbound rules, then updates the network monitor.
pub fn down(config: &Config) -> (r: (Lifecycle, Action))
    ensures
        r.0@ == (LifecycleView::DownAnnounced { manage_monitor: true, then_up: false }),
        r.1@ == pending_action(r.0@, config),
{
    let s = Lifecycle::DownAnnounced { manage_monitor: true, then_up: false };
    let a = s.pending(config);
    (s, a)
}

/// [`down`] as the network monitor runs it: the monitor is left alone.
pub fn down_from_monitor(config: &Config) -> (r: (Lifecycle, Action))
    ensures
        r.0@ == (LifecycleView::DownAnnounced { manage_monitor: false, then_up: false }),
        r.1@ == pending_action(r.0@, config),
{
    let s = Lifecycle::DownAnnounced { manage_monitor: false, then_up: false };
    let a = s.pending(config);
    (s, a)
}

/// Stops the service (leaving the monitor alone) and brings it [`up`] again.
pub fn restart(config: &Config) -> (r: (Lifecycle, Action))
    ensures
        r.0@ == LifecycleView::RestartAnnounced,
        r.1@ == pending_action(r.0@, config),
{
    let s = Lifecycle::RestartAnnounced;
    let a = s.pending(config);
    (s, a)
}

/// Writes the status summary and the core configuration summary, then asks the service for
/// its status.
pub fn status(config: &Config) -> (r: (Lifecycle, Action))
    ensures
        r.0@ == LifecycleView::StatusSummarized,
        r.1@ == pending_action(r.0@, config),
{
    let s = Lifecycle::StatusSummarized;
    let a = s.pending(config);
    (s, a)
}

/// Every step that answers the pending action brings a command closer to its end, and the
/// command ends within [`steps_left`] such steps; any other event changes nothing.
pub proof fn lemma_commands_terminate(s: LifecycleView, config: &Config, e: EventView)
    ensures
        answers(pending_action(s, config), e) ==> steps_left(next_state(s, e)) < steps_left(s),
        !answers(pending_action(s, config), e) ==> next_state(s, e) == s,
        (s is Finished) <==> (pending_action(s, config) is Finish),
{
}

/// A finished command stays finished, with the same outcome.
pub proof fn lemma_finished_is_final(result: Result<(), Seq<char>>, config: &Config, e: EventView)
    ensures
        next_state(LifecycleView::Finished { result }, e) == (LifecycleView::Finished { result }),
        pending_action(LifecycleView::Finished { result }, config) == ActionView::Finish(result),
{
}

/// Where starting the core or applying the rules fails, startup rolls back: it stops the core
/// and clears the rules, and the reason it keeps names each failure.
pub proof fn lemma_failed_start_rolls_back(
    manage_monitor: bool,
    core: Result<(), Seq<char>>,
    rules: Result<(), Seq<char>>,
    config: &Config,
)
    requires
        core is Err || rules is Err,
    ensures
        ({
            let n = next_state(
                LifecycleView::Starting { manage_monitor },
                EventView::BothDone { core, rules },
            );
            &&& n is RollingBack
            &&& pending_action(n, config) == ActionView::Perform(Work::RollBackStartup)
            &&& core is Err ==> occurs_in("start core failed: "@ + core->Err_0, n->primary)
            &&& rules is Err ==> occurs_in("apply rules failed: "@ + rules->Err_0, n->primary)
        }),
{
    let msgs = failure_messages(core, rules, "start core failed: "@, "apply rules failed: "@);
    if core is Err {
        lemma_join_contains_parts(msgs, "; "@, 0);
    }
    if rules is Err {
        lemma_join_contains_parts(msgs, "; "@, msgs.len() - 1);
    }
}

/// Where the monitor fails to start after the core did, startup rolls back as well.
pub proof fn lemma_failed_monitor_rolls_back(error: Seq<char>, config: &Config)
    ensures
        ({
            let n = next_state(LifecycleView::StartingMonitor, EventView::Done(Err(error)));
            &&& n == (LifecycleView::RollingBack { primary: "start monitor failed: "@ + error })
            &&& pending_action(n, config) == ActionView::Perform(Work::RollBackStartup)
        }),
{
}

/// The failure that a rollback reports keeps the startup failure and names each failure of
/// the rollback itself.
pub proof fn lemma_failure_with_rollback_keeps_everything(
    primary: Seq<char>,
    rollback: Seq<Seq<char>>,
    k: int,
)
    requires
        0 <= k < rollback.len(),
    ensures
        occurs_in(primary, failure_with_rollback(primary, rollback)),
        occurs_in(rollback[k], failure_with_rollback(primary, rollback)),
{
    let tail = "; rollback failed: "@ + join(rollback, "; "@);
    lemma_occurs_at_start(primary, tail);
    assert(primary + tail =~= failure_with_rollback(primary, rollback));
    lemma_join_contains_parts(rollback, "; "@, k);
    lemma_occurs_within(
        rollback[k],
        primary + "; rollback failed: "@,
        join(rollback, "; "@),
        Seq::empty(),
    );
    assert(primary + "; rollback failed: "@ + join(rollback, "; "@) + Seq::<char>::empty()
        =~= failure_with_rollback(primary, rollback));
}

/// A rollback ends by reporting a failure that keeps the startup failure and names what failed
/// while stopping the core or clearing the rules; the command then finishes with it.
pub proof fn lemma_rollback_reports_failure(
    primary: Seq<char>,
    core: Result<(), Seq<char>>,
    rules: Result<(), Seq<char>>,
    config: &Config,
)
    ensures
        ({
            let n = next_state(
                LifecycleView::RollingBack { primary },
                EventView::BothDone { core, rules },
            );
            let error = rollback_error(primary, core, rules);
            &&& n == (LifecycleView::ReportingFailure { error })
            &&& occurs_in(primary, error)
            &&& core is Err ==> occurs_in("stop core: "@ + core->Err_0, error)
            &&& rules is Err ==> occurs_in("clear rules: "@ + rules->Err_0, error)
            &&& next_state(n, EventView::Logged) == (LifecycleView::Finished { result: Err(error) })
        }),
{
    let msgs = failure_messages(core, rules, "stop core: "@, "clear rules: "@);
    if msgs.len() == 0 {
        lemma_occurs_at_start(primary, Seq::empty());
        assert(primary + Seq::<char>::empty() =~= primary);
    } else {
        lemma_failure_with_rollback_keeps_everything(primary, msgs, 0);
        lemma_failure_with_rollback_keeps_everything(primary, msgs, msgs.len() - 1);
    }
}

/// Startup is reported complete only after the core started, the rules were applied and,
/// where the monitor is managed, the monitor started.
pub proof fn lemma_started_only_on_success(s: LifecycleView, e: EventView)
    requires
        !(s is ReportingStarted),
        next_state(s, e) is ReportingStarted,
    ensures
        s is Starting ==> !s->Starting_manage_monitor && (e matches EventView::BothDone {
            core,
            rules,
        } && core is Ok && rules is Ok),
        s is StartingMonitor ==> (e matches EventView::Done(r) && r is Ok),
        s is Starting || s is StartingMonitor,
{
}

/// A restart takes the service down without touching the monitor and, once that succeeded,
/// brings it up again as [`up`] does.
pub proof fn lemma_restart_is_down_then_up(config: &Config)
    ensures
        next_state(LifecycleView::RestartAnnounced, EventView::Logged) == (
        LifecycleView::DownAnnounced { manage_monitor: false, then_up: true }),
        next_state(LifecycleView::ReportingStopped { then_up: true }, EventView::Logged) == (
        LifecycleView::UpAnnounced { manage_monitor: true }),
        pending_action(LifecycleView::DownAnnounced { manage_monitor: false, then_up: true }, config)
            == pending_action(LifecycleView::DownAnnounced { manage_monitor: true, then_up: false }, config),
{
}

/// The status summary passes the configured performance mode on: its performance argument is
/// enabled exactly when performance mode is on.
pub proof fn lemma_status_reports_performance_mode(config: &Config)
    ensures
        pending_action(LifecycleView::StatusSummarized, config) matches ActionView::Log(r)
            && r.config_args == ConfigArgs::PerformanceEnabled(config.performance_mode),
        pending_action(LifecycleView::StatusSummarized, config) matches ActionView::Log(r)
            && (r.config_args == ConfigArgs::PerformanceEnabled(true) <==> config.performance_mode),
{
}

/// A failed sync of the core configuration ends startup with that very error, whether or not
/// the monitor is managed: the failure is reported, the command finishes with it, and the core
/// is never started.
pub proof fn lemma_failed_sync_ends_startup(manage_monitor: bool, error: Seq<char>, config: &Config)
    ensures
        ({
            let n = next_state(LifecycleView::Syncing { manage_monitor }, EventView::Done(Err(error)));
            &&& n == (LifecycleView::ReportingFailure { error })
            &&& pending_action(n, config) matches ActionView::Log(r) && r.key == LogKey::StartupFailed
                && r.args.len() == 1 && r.args[0].en == error
            &&& pending_action(n, config) != ActionView::Perform(Work::StartCoreAndApplyRules)
            &&& next_state(n, EventView::Logged) == (LifecycleView::Finished { result: Err(error) })
        }),
{
}

/// Each argument of the status summary reads the same in both languages and carries the
/// configured value that its key names: `core` the core's name, `mode` the network mode, `tun`
/// the device, `tproxy` and `redir` their ports, and `dns` the hijack mode and DNS port.
pub proof fn lemma_status_args_carry_the_configuration(config: &Config, k: int)
    requires
        0 <= k < status_args(config).len(),
    ensures
        status_args(config)[k].en == status_args(config)[k].zh,
        status_args(config)[k].key == "core"@ ==> status_args(config)[k].en == config.bin_name@,
        status_args(config)[k].key == "mode"@ ==> status_args(config)[k].en == config.network_mode@,
        status_args(config)[k].key == "tun"@ ==> status_args(config)[k].en == config.tun_device@,
        status_args(config)[k].key == "tproxy"@ ==> status_args(config)[k].en == config.tproxy_port@,
        status_args(config)[k].key == "redir"@ ==> status_args(config)[k].en == config.redir_port@,
        status_args(config)[k].key == "dns"@ ==> status_args(config)[k].en == config.dns_hijack_mode@
            + ":"@ + config.mihomo_dns_port@,
{
    reveal_strlit("core");
    reveal_strlit("mode");
    reveal_strlit("tun");
    reveal_strlit("tproxy");
    reveal_strlit("redir");
    reveal_strlit("dns");
    assert("core"@ != "mode"@) by {
        assert("core"@[0] != "mode"@[0]);
    }
    assert("tun"@ != "dns"@) by {
        assert("tun"@[0] != "dns"@[0]);
    }
    let a = status_args(config);
    assert(a[0].key == "core"@ && a[1].key == "mode"@ && a[2].key == "tun"@);
    assert(a[3].key == "tproxy"@ && a[4].key == "redir"@ && a[5].key == "dns"@);
}

/// Taking the service down reports a failure to clear the rules before a failure to stop the
/// core, and finishes at once on either.
pub proof fn lemma_down_failure_order(
    manage_monitor: bool,
    then_up: bool,
    core: Result<(), Seq<char>>,
    rules: Result<(), Seq<char>>,
)
    requires
        core is Err || rules is Err,
    ensures
        next_state(
            LifecycleView::Stopping { manage_monitor, then_up },
            EventView::BothDone { core, rules },
        ) == (LifecycleView::Finished {
            result: Err(if rules is Err {
                rules->Err_0
            } else {
                core->Err_0
            }),
        }),
{
}

} // verus!
