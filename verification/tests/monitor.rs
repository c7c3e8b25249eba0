use boxctl::config::Config;
use boxctl::logger::{LogKey, LogLevel};
use boxctl::monitor::{
    handle_network_change, load_live_config, monitor_required, monitor_worker,
    monitor_worker_args, monitor_worker_running, signal_monitor_process_group,
    stop_monitor_worker, worker_program, ChangeAction, ChangeEvent, NetworkChange, StopAction,
    StopEvent, StopSignal, StopWorker, WorkerAction, WorkerEvent, MonitorWorker, KILL_POLLS,
    TERM_POLLS,
};

fn config(mode: &str, wifi: bool) -> Config {
    Config {
        bin_name: "mihomo".to_string(),
        network_mode: mode.to_string(),
        tun_device: "Meta".to_string(),
        tproxy_port: "9898".to_string(),
        redir_port: "9797".to_string(),
        dns_hijack_mode: "tproxy".to_string(),
        mihomo_dns_port: "1053".to_string(),
        performance_mode: false,
        wifi_network_control_enabled: wifi,
        log_language: "en".to_string(),
        box_log: "/data/adb/box/run/runs.log".to_string(),
        run_dir: "/data/adb/box/run".to_string(),
        bin_dir: "/data/adb/box/bin".to_string(),
        db_path: "/data/adb/box/box.db".to_string(),
    }
}

fn stop_describe(a: &StopAction) -> String {
    match a {
        StopAction::ReadIdentity => "read".to_string(),
        StopAction::CheckLockHeld => "lock?".to_string(),
        StopAction::RemoveLock => "remove".to_string(),
        StopAction::CheckIdentity => "match?".to_string(),
        StopAction::Log(r) => format!("log {:?}", r.key),
        StopAction::Signal { pid, signal } => format!("signal {} {:?}", pid, signal),
        StopAction::Sleep => "sleep".to_string(),
        StopAction::Finish(Ok(())) => "ok".to_string(),
        StopAction::Finish(Err(e)) => format!("err {}", e),
    }
}

fn stop_run(events: Vec<StopEvent>) -> Vec<String> {
    let (mut s, a) = stop_monitor_worker();
    let mut seen = vec![stop_describe(&a)];
    for e in events {
        let (s2, a2) = s.step(e);
        s = s2;
        seen.push(stop_describe(&a2));
    }
    seen
}

#[test]
fn monitor_required_cases() {
    assert!(monitor_required(&config("tun", true), false));
    assert!(monitor_required(&config("tproxy", false), true));
    assert!(!monitor_required(&config("tproxy", false), false));
    assert!(!monitor_required(&config("tun", false), true));
}

#[test]
fn worker_running_cases() {
    assert!(monitor_worker_running(true, false));
    assert!(monitor_worker_running(false, true));
    assert!(!monitor_worker_running(false, false));
}

#[test]
fn signal_targets_group_then_process() {
    assert_eq!(signal_monitor_process_group(1234, true), vec![-1234, 1234]);
    assert_eq!(signal_monitor_process_group(0x7fff_ffff, true), vec![-0x7fff_ffff, 0x7fff_ffff]);
    assert_eq!(signal_monitor_process_group(0x8000_0000, true), Vec::<i32>::new());
    assert_eq!(signal_monitor_process_group(u32::MAX, true), Vec::<i32>::new());
    assert_eq!(signal_monitor_process_group(1234, false), vec![1234]);
    assert_eq!(signal_monitor_process_group(u32::MAX, false), Vec::<i32>::new());
}

#[test]
fn worker_command_line() {
    assert_eq!(monitor_worker_args("/data/box.db"), vec!["--db", "/data/box.db", "monitor"]);
    let c = config("tun", false);
    assert_eq!(worker_program(Some("/system/bin/boxctl"), &c), "/system/bin/boxctl");
    assert_eq!(worker_program(None, &c), "/data/adb/box/bin/boxctl");
}

#[test]
fn live_config_falls_back_with_a_warning() {
    let (c, w) = load_live_config(config("tun", false), Ok(config("tproxy", true)));
    assert_eq!(c.network_mode, "tproxy");
    assert!(w.is_none());
    let (c, w) = load_live_config(config("tun", false), Err("parse error".to_string()));
    assert_eq!(c.network_mode, "tun");
    let w = w.unwrap();
    assert_eq!(w.level, LogLevel::Warn);
    assert_eq!(w.key, LogKey::RuntimeConfigReadFailed);
    assert_eq!(w.args[0].key(), "error");
    assert_eq!(w.args[0].en_value(), "parse error");
}

#[test]
fn stop_terminates_verified_worker() {
    let seen = stop_run(vec![
        StopEvent::Identity(Some(42)),
        StopEvent::IdentityMatches(true),
        StopEvent::Logged,
        StopEvent::Signalled,
        StopEvent::IdentityMatches(false),
        StopEvent::LockHeld(false),
        StopEvent::Removed,
    ]);
    assert_eq!(
        seen,
        vec![
            "read", "match?", "log NetworkMonitorStopped", "signal 42 Terminate", "match?",
            "lock?", "remove", "ok",
        ]
    );
}

#[test]
fn stop_without_identity() {
    let seen = stop_run(vec![StopEvent::Identity(None), StopEvent::LockHeld(true)]);
    assert_eq!(
        seen[2],
        "err monitor lock identity is missing or invalid; refusing to signal an unverified process"
    );
    let seen = stop_run(vec![StopEvent::Identity(None), StopEvent::LockHeld(false), StopEvent::Removed]);
    assert_eq!(seen, vec!["read", "lock?", "remove", "ok"]);
}

#[test]
fn stop_refuses_unverified_identity() {
    let seen = stop_run(vec![
        StopEvent::Identity(Some(7)),
        StopEvent::IdentityMatches(false),
        StopEvent::LockHeld(true),
    ]);
    assert_eq!(
        seen[3],
        "err monitor identity cannot be verified; refusing to signal an unverified process"
    );
    let seen = stop_run(vec![
        StopEvent::Identity(Some(7)),
        StopEvent::IdentityMatches(false),
        StopEvent::LockHeld(false),
        StopEvent::Removed,
    ]);
    assert_eq!(seen[4], "ok");
}

#[test]
fn stop_refuses_kill_when_lock_held_after_term() {
    let seen = stop_run(vec![
        StopEvent::Identity(Some(7)),
        StopEvent::IdentityMatches(true),
        StopEvent::Logged,
        StopEvent::Signalled,
        StopEvent::IdentityMatches(true),
        StopEvent::Slept,
        StopEvent::IdentityMatches(false),
        StopEvent::LockHeld(true),
    ]);
    assert_eq!(
        seen.last().unwrap(),
        "err monitor identity cannot be verified after SIGTERM; refusing SIGKILL"
    );
}

fn through_term_polls() -> Vec<StopEvent> {
    let mut events = vec![
        StopEvent::Identity(Some(9)),
        StopEvent::IdentityMatches(true),
        StopEvent::Logged,
        StopEvent::Signalled,
    ];
    for _ in 0..TERM_POLLS {
        events.push(StopEvent::IdentityMatches(true));
        events.push(StopEvent::Slept);
    }
    events
}

#[test]
fn stop_kills_after_twenty_checks() {
    let mut events = through_term_polls();
    events.push(StopEvent::IdentityMatches(true));
    events.push(StopEvent::Signalled);
    events.push(StopEvent::IdentityMatches(false));
    events.push(StopEvent::LockHeld(false));
    events.push(StopEvent::Removed);
    let seen = stop_run(events);
    let checks = seen.iter().filter(|s| *s == "match?").count();
    let sleeps = seen.iter().filter(|s| *s == "sleep").count();
    assert_eq!(sleeps, 20);
    assert_eq!(checks, 1 + 20 + 1 + 1);
    assert!(seen.contains(&"signal 9 Kill".to_string()));
    assert_eq!(seen.last().unwrap(), "ok");
}

#[test]
fn stop_refuses_kill_when_identity_changed() {
    let mut events = through_term_polls();
    events.push(StopEvent::IdentityMatches(false));
    let seen = stop_run(events);
    assert!(!seen.contains(&"signal 9 Kill".to_string()));
    assert_eq!(
        seen.last().unwrap(),
        "err monitor identity changed before SIGKILL; refusing to signal it"
    );
}

#[test]
fn stop_gives_up_after_kill() {
    let mut events = through_term_polls();
    events.push(StopEvent::IdentityMatches(true));
    events.push(StopEvent::Signalled);
    for _ in 0..KILL_POLLS {
        events.push(StopEvent::IdentityMatches(true));
        events.push(StopEvent::Slept);
    }
    let seen = stop_run(events);
    assert_eq!(seen.last().unwrap(), "err monitor remains alive after SIGKILL; retaining lock");
    let mut events = through_term_polls();
    events.push(StopEvent::IdentityMatches(true));
    events.push(StopEvent::Signalled);
    events.push(StopEvent::IdentityMatches(false));
    events.push(StopEvent::LockHeld(true));
    let seen = stop_run(events);
    assert_eq!(
        seen.last().unwrap(),
        "err monitor identity cannot be verified after SIGKILL; retaining lock"
    );
}

#[test]
fn stop_ignores_unexpected_events() {
    let (s, _) = stop_monitor_worker();
    let (s2, a) = s.step(StopEvent::Slept);
    assert_eq!(s2, StopWorker::ReadingIdentity);
    assert_eq!(stop_describe(&a), "read");
    let _ = StopSignal::Kill;
}

fn change_describe(a: &ChangeAction) -> String {
    match a {
        ChangeAction::Observe => "observe".to_string(),
        ChangeAction::ApplyPolicy => "apply".to_string(),
        ChangeAction::SaveState => "save".to_string(),
        ChangeAction::RefreshLocalIpRules => "refresh".to_string(),
        ChangeAction::Log(r) => format!("log {:?} {}", r.key, r.args[0].en_value()),
        ChangeAction::Finish(Ok(())) => "ok".to_string(),
        ChangeAction::Finish(Err(e)) => format!("err {}", e),
    }
}

fn change_run(events: Vec<ChangeEvent>) -> Vec<String> {
    let (mut s, a): (NetworkChange, ChangeAction) = handle_network_change();
    let mut seen = vec![change_describe(&a)];
    for e in events {
        let (s2, a2) = s.step(e);
        s = s2;
        seen.push(change_describe(&a2));
    }
    seen
}

#[test]
fn network_change_unchanged_state_only_refreshes() {
    let seen = change_run(vec![ChangeEvent::Observed { state_matches: true }, ChangeEvent::Refreshed(Ok(()))]);
    assert_eq!(seen, vec!["observe", "refresh", "ok"]);
}

#[test]
fn network_change_applies_and_saves() {
    let seen = change_run(vec![
        ChangeEvent::Observed { state_matches: false },
        ChangeEvent::Applied(Ok(true)),
        ChangeEvent::Saved,
        ChangeEvent::Refreshed(Err("ip rule failed".to_string())),
        ChangeEvent::Logged,
    ]);
    assert_eq!(
        seen,
        vec!["observe", "apply", "save", "refresh", "log LocalIpLoopUpdateFailed ip rule failed", "ok"]
    );
}

#[test]
fn network_change_unhandled_is_not_saved() {
    let seen = change_run(vec![
        ChangeEvent::Observed { state_matches: false },
        ChangeEvent::Applied(Ok(false)),
        ChangeEvent::Refreshed(Ok(())),
    ]);
    assert_eq!(seen, vec!["observe", "apply", "refresh", "ok"]);
}

#[test]
fn network_change_fails_on_policy_error() {
    let seen = change_run(vec![
        ChangeEvent::Observed { state_matches: false },
        ChangeEvent::Applied(Err("policy".to_string())),
    ]);
    assert_eq!(seen, vec!["observe", "apply", "err policy"]);
}

fn worker_describe(a: &WorkerAction) -> String {
    match a {
        WorkerAction::AcquireLock => "lock".to_string(),
        WorkerAction::CheckRequired { reload } => format!("required? {}", reload),
        WorkerAction::RunOnce => "run".to_string(),
        WorkerAction::Log(r) => format!("log {:?} {}", r.key, r.args[0].en_value()),
        WorkerAction::Sleep => "sleep".to_string(),
        WorkerAction::Finish(Ok(())) => "ok".to_string(),
        WorkerAction::Finish(Err(e)) => format!("err {}", e),
    }
}

fn worker_run(events: Vec<WorkerEvent>) -> Vec<String> {
    let (mut s, a): (MonitorWorker, WorkerAction) = monitor_worker();
    let mut seen = vec![worker_describe(&a)];
    for e in events {
        let (s2, a2) = s.step(e);
        s = s2;
        seen.push(worker_describe(&a2));
    }
    seen
}

#[test]
fn worker_exits_without_lock_or_need() {
    assert_eq!(worker_run(vec![WorkerEvent::Locked(Ok(false))]), vec!["lock", "ok"]);
    assert_eq!(worker_run(vec![WorkerEvent::Locked(Err("eperm".to_string()))]), vec!["lock", "err eperm"]);
    assert_eq!(
        worker_run(vec![WorkerEvent::Locked(Ok(true)), WorkerEvent::Required(false)]),
        vec!["lock", "required? false", "ok"]
    );
}

#[test]
fn worker_retries_failed_rounds() {
    let seen = worker_run(vec![
        WorkerEvent::Locked(Ok(true)),
        WorkerEvent::Required(true),
        WorkerEvent::Ran(Err("ip monitor died".to_string())),
        WorkerEvent::Logged,
        WorkerEvent::Required(true),
        WorkerEvent::Slept,
        WorkerEvent::Ran(Ok(())),
        WorkerEvent::Required(false),
    ]);
    assert_eq!(
        seen,
        vec![
            "lock",
            "required? false",
            "run",
            "log NetworkMonitorRetrying ip monitor died",
            "required? true",
            "sleep",
            "run",
            "required? true",
            "ok",
        ]
    );
}
