use boxctl::config::Config;
use boxctl::control::{
    boot, down, down_from_monitor, join_result, log_startup_failed, panicked_thread_message,
    restart, status,
    startup_failure_with_rollback, up, up_from_monitor, Action, Event, Lifecycle, Work,
};
use boxctl::logger::{ConfigArgs, LogKey, LogLevel};

fn config() -> Config {
    Config {
        bin_name: "mihomo".to_string(),
        network_mode: "tproxy".to_string(),
        tun_device: "Meta".to_string(),
        tproxy_port: "9898".to_string(),
        redir_port: "9797".to_string(),
        dns_hijack_mode: "redir-host".to_string(),
        mihomo_dns_port: "1053".to_string(),
        performance_mode: true,
        wifi_network_control_enabled: false,
        log_language: "en".to_string(),
        box_log: "/data/adb/box/run/runs.log".to_string(),
        run_dir: "/data/adb/box/run".to_string(),
        bin_dir: "/data/adb/box/bin".to_string(),
        db_path: "/data/adb/box/box.db".to_string(),
    }
}

fn ok() -> Result<(), String> {
    Ok(())
}

fn err(s: &str) -> Result<(), String> {
    Err(s.to_string())
}

/// A short description of an action, for comparing runs.
fn describe(a: &Action) -> String {
    match a {
        Action::Log(r) => {
            let args: Vec<String> = r
                .args
                .iter()
                .map(|x| format!("{}={}", x.key(), x.en_value()))
                .collect();
            format!("log {:?} {:?} [{}] {:?}", r.level, r.key, args.join(","), r.config_args)
        }
        Action::Perform(w) => format!("do {:?}", w),
        Action::Finish(Ok(())) => "finish ok".to_string(),
        Action::Finish(Err(e)) => format!("finish err {}", e),
    }
}

/// Runs a command, answering each action with the next event, and lists the actions.
fn run(start: (Lifecycle, Action), c: &Config, events: Vec<Event>) -> Vec<String> {
    let (mut s, mut a) = start;
    let mut seen = vec![describe(&a)];
    for e in events {
        let (s2, a2) = s.step(c, e);
        s = s2;
        a = a2;
        seen.push(describe(&a));
    }
    seen
}

fn both(core: Result<(), String>, rules: Result<(), String>) -> Event {
    Event::BothDone { core, rules }
}

#[test]
fn rollback_error_keeps_the_startup_failure() {
    let error = startup_failure_with_rollback(
        "apply rules failed: iptables failed",
        &[
            "stop core: process remains".to_string(),
            "clear rules: restore failed".to_string(),
        ],
    );

    assert!(error.contains("apply rules failed: iptables failed"));
    assert!(error.contains("stop core: process remains"));
    assert!(error.contains("clear rules: restore failed"));
}

#[test]
fn rollback_error_exact_text() {
    assert_eq!(
        startup_failure_with_rollback("p", &["a".to_string(), "b".to_string()]),
        "p; rollback failed: a; b"
    );
    assert_eq!(startup_failure_with_rollback("p", &[]), "p");
}

#[test]
fn up_succeeds_with_monitor() {
    let c = config();
    let seen = run(
        up(&c),
        &c,
        vec![Event::Logged, Event::Done(ok()), both(ok(), ok()), Event::Done(ok()), Event::Logged],
    );
    assert_eq!(
        seen,
        vec![
            "log Info StartupBegin [] Startup",
            "do SyncCoreConfig",
            "do StartCoreAndApplyRules",
            "do RunMonitor",
            "log Info StartupCompleted [] Nothing",
            "finish ok",
        ]
    );
}

#[test]
fn up_from_monitor_leaves_the_monitor() {
    let c = config();
    let seen = run(
        up_from_monitor(&c),
        &c,
        vec![Event::Logged, Event::Done(ok()), both(ok(), ok()), Event::Logged],
    );
    assert_eq!(seen[3], "log Info StartupCompleted [] Nothing");
    assert_eq!(seen[4], "finish ok");
}

#[test]
fn up_stops_when_sync_fails() {
    let c = config();
    let seen = run(up(&c), &c, vec![Event::Logged, Event::Done(err("bad yaml")), Event::Logged]);
    assert_eq!(seen[2], "log Error StartupFailed [error=bad yaml] Nothing");
    assert_eq!(seen[3], "finish err bad yaml");
}

#[test]
fn up_rolls_back_failed_rules() {
    let c = config();
    let seen = run(
        up(&c),
        &c,
        vec![
            Event::Logged,
            Event::Done(ok()),
            both(ok(), err("iptables failed")),
            both(ok(), ok()),
            Event::Logged,
        ],
    );
    assert_eq!(seen[3], "do RollBackStartup");
    assert_eq!(
        seen[4],
        "log Error StartupFailed [error=apply rules failed: iptables failed] Nothing"
    );
    assert_eq!(seen[5], "finish err apply rules failed: iptables failed");
}

#[test]
fn up_reports_every_failure_of_start_and_rollback() {
    let c = config();
    let seen = run(
        up(&c),
        &c,
        vec![
            Event::Logged,
            Event::Done(ok()),
            both(err("exit 1"), err("iptables failed")),
            both(err("process remains"), err("restore failed")),
            Event::Logged,
        ],
    );
    assert_eq!(
        seen[5],
        "finish err start core failed: exit 1; apply rules failed: iptables failed; \
         rollback failed: stop core: process remains; clear rules: restore failed"
    );
}

#[test]
fn up_rolls_back_when_monitor_fails() {
    let c = config();
    let seen = run(
        up(&c),
        &c,
        vec![
            Event::Logged,
            Event::Done(ok()),
            both(ok(), ok()),
            Event::Done(err("spawn failed")),
            both(ok(), err("restore failed")),
            Event::Logged,
        ],
    );
    assert_eq!(seen[4], "do RollBackStartup");
    assert_eq!(
        seen[6],
        "finish err start monitor failed: spawn failed; rollback failed: clear rules: restore failed"
    );
}

#[test]
fn down_stops_and_updates_monitor() {
    let c = config();
    let seen = run(down(&c), &c, vec![Event::Logged, both(ok(), ok()), Event::Done(ok()), Event::Logged]);
    assert_eq!(
        seen,
        vec![
            "log Warn StopBegin [core=mihomo,mode=tproxy] Nothing",
            "do StopCoreAndClearRules",
            "do RunMonitor",
            "log Warn StopCompleted [] Nothing",
            "finish ok",
        ]
    );
}

#[test]
fn down_reports_rules_failure_first() {
    let c = config();
    let seen = run(down(&c), &c, vec![Event::Logged, both(err("core stuck"), err("rules stuck"))]);
    assert_eq!(seen[2], "finish err rules stuck");
    let seen = run(down(&c), &c, vec![Event::Logged, both(err("core stuck"), ok())]);
    assert_eq!(seen[2], "finish err core stuck");
}

#[test]
fn down_reports_monitor_failure() {
    let c = config();
    let seen = run(down(&c), &c, vec![Event::Logged, both(ok(), ok()), Event::Done(err("m"))]);
    assert_eq!(seen[3], "finish err m");
}

#[test]
fn down_from_monitor_leaves_the_monitor() {
    let c = config();
    let seen = run(down_from_monitor(&c), &c, vec![Event::Logged, both(ok(), ok()), Event::Logged]);
    assert_eq!(seen[2], "log Warn StopCompleted [] Nothing");
    assert_eq!(seen[3], "finish ok");
}

#[test]
fn restart_goes_down_then_up() {
    let c = config();
    let seen = run(
        restart(&c),
        &c,
        vec![
            Event::Logged,
            Event::Logged,
            both(ok(), ok()),
            Event::Logged,
            Event::Logged,
            Event::Done(ok()),
            both(ok(), ok()),
            Event::Done(ok()),
            Event::Logged,
        ],
    );
    assert_eq!(
        seen,
        vec![
            "log Warn RestartBegin [core=mihomo,mode=tproxy] Nothing",
            "log Warn StopBegin [core=mihomo,mode=tproxy] Nothing",
            "do StopCoreAndClearRules",
            "log Warn StopCompleted [] Nothing",
            "log Info StartupBegin [] Startup",
            "do SyncCoreConfig",
            "do StartCoreAndApplyRules",
            "do RunMonitor",
            "log Info StartupCompleted [] Nothing",
            "finish ok",
        ]
    );
}

#[test]
fn restart_stops_when_down_fails() {
    let c = config();
    let seen = run(restart(&c), &c, vec![Event::Logged, Event::Logged, both(err("x"), ok())]);
    assert_eq!(seen[3], "finish err x");
}

#[test]
fn boot_with_wifi_control_applies_policy() {
    let mut c = config();
    c.wifi_network_control_enabled = true;
    let seen = run(boot(&c), &c, vec![Event::Done(ok()), Event::Done(ok())]);
    assert_eq!(seen, vec!["do ApplyWifiPolicy", "do RunMonitor", "finish ok"]);
    let seen = run(boot(&c), &c, vec![Event::Done(err("no wifi"))]);
    assert_eq!(seen[1], "finish err no wifi");
    let seen = run(boot(&c), &c, vec![Event::Done(ok()), Event::Done(err("m"))]);
    assert_eq!(seen[2], "finish err m");
}

#[test]
fn boot_without_wifi_control_is_up() {
    let c = config();
    let seen = run(boot(&c), &c, vec![]);
    assert_eq!(seen, vec!["log Info StartupBegin [] Startup"]);
}

#[test]
fn status_summarizes_then_asks_the_service() {
    let c = config();
    let seen = run(status(&c), &c, vec![Event::Logged, Event::Logged, Event::Done(err("not running"))]);
    assert_eq!(
        seen,
        vec![
            "log Info StatusSummary [core=mihomo,mode=tproxy,tun=Meta,tproxy=9898,redir=9797,dns=redir-host:1053] PerformanceEnabled(true)",
            "log Info CoreConfigRead [] CoreConfig",
            "do QueryServiceStatus",
            "finish err not running",
        ]
    );
}

#[test]
fn unexpected_events_repeat_the_pending_action() {
    let c = config();
    let seen = run(up(&c), &c, vec![Event::Done(ok()), both(ok(), ok()), Event::Logged]);
    assert_eq!(seen[0], seen[1]);
    assert_eq!(seen[1], seen[2]);
    assert_eq!(seen[3], "do SyncCoreConfig");
}

#[test]
fn finished_commands_stay_finished() {
    let c = config();
    let (s, _) = status(&c);
    let (s, _) = s.step(&c, Event::Logged);
    let (s, _) = s.step(&c, Event::Logged);
    let (s, a) = s.step(&c, Event::Done(ok()));
    assert!(s.is_finished());
    assert_eq!(describe(&a), "finish ok");
    let (s, a) = s.step(&c, Event::Done(err("late")));
    assert!(s.is_finished());
    assert_eq!(describe(&a), "finish ok");
    assert_eq!(describe(&s.pending(&c)), "finish ok");
}

#[test]
fn join_result_reports_panics() {
    assert_eq!(join_result(Ok(Ok(())), "panicked"), Ok(()));
    assert_eq!(join_result(Ok(Err("e".to_string())), "panicked"), Err("e".to_string()));
    assert_eq!(join_result(Err(()), "rules thread panicked"), Err("rules thread panicked".to_string()));
}

#[test]
fn startup_failure_line() {
    let r = log_startup_failed("boom");
    assert_eq!(r.level, LogLevel::Error);
    assert_eq!(r.key, LogKey::StartupFailed);
    assert_eq!(r.args.len(), 1);
    assert_eq!(r.args[0].key(), "error");
    assert_eq!(r.args[0].en_value(), "boom");
    assert_eq!(r.config_args, ConfigArgs::Nothing);
    let _ = Work::RunMonitor;
}

#[test]
fn thread_panic_messages() {
    assert_eq!(
        panicked_thread_message(Work::StartCoreAndApplyRules),
        Some("inbound rules thread panicked")
    );
    assert_eq!(
        panicked_thread_message(Work::RollBackStartup),
        Some("rules rollback thread panicked")
    );
    assert_eq!(
        panicked_thread_message(Work::StopCoreAndClearRules),
        Some("service stop thread panicked")
    );
    assert_eq!(panicked_thread_message(Work::SyncCoreConfig), None);
    assert_eq!(panicked_thread_message(Work::RunMonitor), None);
}
