use boxctl::config::Config;
use boxctl::logger::{
    arg, arg_i18n, console_error, debug_key, display_value, error_key, info_key,
    lang_from_config, log_paths, net_info_key, net_log_path, performance_reason_list_en,
    performance_reason_list_zh, render, uid_fallback_en, uid_fallback_zh, warn_key, Lang,
    LogLevel, PerformanceFallbackReason, PerformanceUidFallback,
};

fn config(language: &str) -> Config {
    Config {
        bin_name: "mihomo".to_string(),
        network_mode: "tproxy".to_string(),
        tun_device: "Meta".to_string(),
        tproxy_port: "9898".to_string(),
        redir_port: "9797".to_string(),
        dns_hijack_mode: "tproxy".to_string(),
        mihomo_dns_port: "1053".to_string(),
        performance_mode: false,
        wifi_network_control_enabled: false,
        log_language: language.to_string(),
        box_log: "/data/adb/box/run/runs.log".to_string(),
        run_dir: "/data/adb/box/run".to_string(),
        bin_dir: "/data/adb/box/bin".to_string(),
        db_path: "/data/adb/box/box.db".to_string(),
    }
}

#[test]
fn arg_uses_one_value_for_both_languages() {
    let a = arg("core", "mihomo");
    assert_eq!(a.key(), "core");
    assert_eq!(a.en_value(), "mihomo");
    assert_eq!(a.zh_value(), "mihomo");
    assert_eq!(a.value(Lang::En), "mihomo");
    assert_eq!(a.value(Lang::ZhCn), "mihomo");
}

#[test]
fn arg_i18n_keeps_each_language() {
    let a = arg_i18n("state", "enabled", "已启用");
    assert_eq!(a.key(), "state");
    assert_eq!(a.value(Lang::En), "enabled");
    assert_eq!(a.value(Lang::ZhCn), "已启用");
}

#[test]
fn render_fills_placeholders_in_order() {
    let args = [arg("core", "mihomo"), arg("mode", "tproxy")];
    assert_eq!(
        render("core {core} in {mode} mode ({core})", &args, Lang::En),
        "core mihomo in tproxy mode (mihomo)"
    );
}

#[test]
fn render_picks_the_language() {
    let args = [arg_i18n("state", "enabled", "已启用")];
    assert_eq!(render("performance {state}", &args, Lang::En), "performance enabled");
    assert_eq!(render("性能模式 {state}", &args, Lang::ZhCn), "性能模式 已启用");
}

#[test]
fn render_leaves_unknown_placeholders() {
    let args = [arg("core", "mihomo")];
    assert_eq!(render("{mode}: {core}", &args, Lang::En), "{mode}: mihomo");
}

#[test]
fn render_later_arguments_see_earlier_values() {
    let args = [arg("a", "{b}"), arg("b", "x")];
    assert_eq!(render("[{a}]", &args, Lang::En), "[x]");
}

#[test]
fn render_without_braces_is_unchanged() {
    let args = [arg("core", "mihomo")];
    assert_eq!(render("startup completed", &args, Lang::ZhCn), "startup completed");
}

#[test]
fn render_same_values_same_text_in_both_languages() {
    let args = [arg("core", "sing-box"), arg("mode", "tun")];
    let t = "{core}/{mode}";
    assert_eq!(render(t, &args, Lang::En), render(t, &args, Lang::ZhCn));
}

#[test]
fn lang_from_config_reads_en_only() {
    assert_eq!(lang_from_config(&config("en")), Lang::En);
    assert_eq!(lang_from_config(&config("zh-CN")), Lang::ZhCn);
    assert_eq!(lang_from_config(&config("EN")), Lang::ZhCn);
    assert_eq!(lang_from_config(&config("")), Lang::ZhCn);
}

#[test]
fn display_value_trims_or_dashes() {
    assert_eq!(display_value("  wlan0 \n"), "wlan0");
    assert_eq!(display_value("a b"), "a b");
    assert_eq!(display_value("   "), "-");
    assert_eq!(display_value(""), "-");
    assert_eq!(display_value("\u{3000}x\u{a0}"), "x");
}

#[test]
fn performance_reasons_are_listed() {
    assert_eq!(performance_reason_list_en(&[]), "");
    assert_eq!(
        performance_reason_list_en(&[
            PerformanceFallbackReason::MissingConntrack,
            PerformanceFallbackReason::UdpNotEnabled,
            PerformanceFallbackReason::ConditionsNotMet,
        ]),
        "missing conntrack, UDP not enabled, conditions not met"
    );
    assert_eq!(
        performance_reason_list_en(&[
            PerformanceFallbackReason::MissingConnmark,
            PerformanceFallbackReason::MissingConnmarkTarget,
            PerformanceFallbackReason::MissingSocketTransparent,
        ]),
        "missing connmark, missing CONNMARK, missing socket transparent"
    );
    assert_eq!(
        performance_reason_list_zh(&[
            PerformanceFallbackReason::MissingConntrack,
            PerformanceFallbackReason::UdpNotEnabled,
        ]),
        "缺少 conntrack, UDP 未启用"
    );
    assert_eq!(
        performance_reason_list_zh(&[PerformanceFallbackReason::ConditionsNotMet]),
        "条件未满足"
    );
}

#[test]
fn uid_fallbacks_are_worded() {
    assert_eq!(
        uid_fallback_en(PerformanceUidFallback::BpfMatchUnavailable),
        "iptables bpf match unavailable"
    );
    assert_eq!(uid_fallback_en(PerformanceUidFallback::BoxbpfMissing), "boxbpf not found");
    assert_eq!(
        uid_fallback_en(PerformanceUidFallback::Ipv4ProgramMissing),
        "IPv4 program not loaded"
    );
    assert_eq!(
        uid_fallback_en(PerformanceUidFallback::Ipv6ProgramMissing),
        "IPv6 program not loaded"
    );
    assert_eq!(
        uid_fallback_zh(PerformanceUidFallback::BpfMatchUnavailable),
        "iptables bpf 匹配不可用"
    );
    assert_eq!(uid_fallback_zh(PerformanceUidFallback::BoxbpfMissing), "boxbpf 不存在");
    assert_eq!(uid_fallback_zh(PerformanceUidFallback::Ipv4ProgramMissing), "IPv4 程序未加载");
    assert_eq!(uid_fallback_zh(PerformanceUidFallback::Ipv6ProgramMissing), "IPv6 程序未加载");
}

#[test]
fn key_records_carry_level_path_and_line() {
    let c = config("en");
    let args = [arg("core", "mihomo")];
    let r = info_key(&c, "started {core}", &args, "2024-05-01 10:00:00");
    assert_eq!(r.level, LogLevel::Info);
    assert_eq!(r.path, "/data/adb/box/run/runs.log");
    assert_eq!(r.message, "started mihomo");
    assert_eq!(r.line, "2024-05-01 10:00:00 [Info] started mihomo");
    assert_eq!(r.file_record(), "2024-05-01 10:00:00 [Info] started mihomo\n");

    let d = debug_key(&c, "d", &[], "T");
    assert_eq!(d.level, LogLevel::Debug);
    assert_eq!(d.line, "T [Debug] d");
    let w = warn_key(&c, "w", &[], "T");
    assert_eq!(w.line, "T [Warn] w");
    let e = error_key(&c, "e", &[], "T");
    assert_eq!(e.line, "T [Error] e");
    assert_eq!(e.path, "/data/adb/box/run/runs.log");
}

#[test]
fn key_records_use_the_configured_language() {
    let c = config("zh-CN");
    let args = [arg_i18n("state", "on", "开")];
    let r = warn_key(&c, "state={state}", &args, "T");
    assert_eq!(r.message, "state=开");
}

#[test]
fn net_info_goes_to_net_log() {
    let c = config("en");
    let r = net_info_key(&c, "net", &[], "T");
    assert_eq!(r.level, LogLevel::Info);
    assert_eq!(r.path, "/data/adb/box/run/net.log");
    assert_eq!(net_log_path(&c), "/data/adb/box/run/net.log");
    let mut slash = config("en");
    slash.run_dir = "/tmp/run/".to_string();
    assert_eq!(net_log_path(&slash), "/tmp/run/net.log");
    let mut empty = config("en");
    empty.run_dir = String::new();
    assert_eq!(net_log_path(&empty), "net.log");
}

#[test]
fn console_shows_line_or_message_on_the_right_stream() {
    let c = config("en");
    let r = error_key(&c, "boom", &[], "T");
    assert_eq!(r.console_text(true), "T [Error] boom");
    assert_eq!(r.console_text(false), "boom");
    assert!(r.to_stderr());
    let i = info_key(&c, "fine", &[], "T");
    assert!(!i.to_stderr());
}

#[test]
fn console_error_trims_and_stamps() {
    assert_eq!(console_error("  disk full\n", "T", false), "Error: disk full");
    assert_eq!(console_error("  disk full\n", "T", true), "T [Error] disk full");
}

#[test]
fn log_paths_is_the_base() {
    assert_eq!(log_paths("/data/runs.log"), vec!["/data/runs.log".to_string()]);
}

#[test]
fn level_names() {
    assert_eq!(LogLevel::Debug.name(), "Debug");
    assert_eq!(LogLevel::Info.name(), "Info");
    assert_eq!(LogLevel::Warn.name(), "Warn");
    assert_eq!(LogLevel::Error.name(), "Error");
}
