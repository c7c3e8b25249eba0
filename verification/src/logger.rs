//! Log lines: their arguments, the rendering of a message template in the configured
//! language, and the record that is written to the console and to a log file.
use vstd::prelude::*;
use vstd::string::StringExecFns;

use crate::config::Config;
use crate::text::{
    concat2, concat3, copy_str, join, join_exec, join_path, joined_path, lemma_replace_absent,
    replace_all, replace_all_exec, same_text, trim, trimmed, views, is_white_space,
    lemma_trimmed_shape,
};

verus! {

/// The language of log lines.
#[derive(Clone, Copy, Debug, PartialEq, Eq, Structural)]
pub enum Lang {
    En,
    ZhCn,
}

/// A named value that fills the placeholder `{key}` of a message template, in English and in
/// Chinese.
#[derive(Clone, Debug)]
pub struct LogArg {
    key: &'static str,
    en: String,
    zh: String,
}

/// What a [`LogArg`] holds.
pub struct LogArgView {
    pub key: Seq<char>,
    pub en: Seq<char>,
    pub zh: Seq<char>,
}

impl View for LogArg {
    type V = LogArgView;

    closed spec fn view(&self) -> LogArgView {
        LogArgView { key: self.key@, en: self.en@, zh: self.zh@ }
    }
}

/// The message keys of the log catalog.
#[derive(Clone, Copy, Debug, PartialEq, Eq)]
pub enum LogKey {
    StartupBegin,
    StartupCompleted,
    StartupFailed,
    StopBegin,
    StopCompleted,
    RestartBegin,
    StatusSummary,
    CoreConfigRead,
    CoreConfigSyncDisabled,
    CoreConfigSyncUnsupported,
    CoreConfigSyncBegin,
    CoreConfigSyncUpdated,
    CoreConfigSyncNoChange,
    ServiceStart,
    ServiceStartFailed,
    ServiceExitedAfterStart,
    ServiceAlreadyRunningStopOld,
    ServiceCommand,
    ServiceStarted,
    ServiceStop,
    ServiceNotRunning,
    ServiceStatus,
    ServiceRunning,
    ServiceNotRunningPlain,
    ServicePreviewNotStarted,
    ServiceSendSigterm,
    ServiceStopped,
    ServiceForceStopAfterSigterm,
    DirectoryChecked,
    CoreCheck,
    CorePermissionsUpToDate,
    CorePermissionsChecked,
    CorePermissionsFailed,
    ConfigCheck,
    ConfigCheckNoCheck,
    ConfigCheckCacheHit,
    ConfigCheckPassed,
    ConfigCheckFailed,
    NetworkMonitorStopped,
    NetworkMonitorRetrying,
    WifiPending,
    WifiPolicyApplied,
    WifiPolicyFailed,
    RuntimeConfigReadFailed,
    LocalIpLoopUpdateFailed,
    NetworkRecalcFailed,
    LocalIpLoopRefreshed,
    Ipv6SystemModeRefreshed,
    ResourceDisabled,
    ResourceApplied,
    ResourcePartiallyFailed,
    InboundRulesApplied,
    InboundRulesClearing,
    InboundRulesCleared,
    RuleModeCreating,
    RuleTunCreating,
    FamilyRulesCreated,
    FamilyRuleFailed,
    FamilyRulesSkipped,
    Ip6NatUnavailable,
    CoreBypassFallback,
    PerformanceAddrtypeFallback,
    DnsCoreBypassFailed,
    ProxyModeInvalid,
    HotspotWhitelistEmpty,
    QuicBlockRuleFailed,
    TunCoreBypassFailed,
    RuleContext,
    PerformanceModeDisabled,
    PerformanceModeEnabled,
    VendorFirewallCleanup,
    CnipSkipDisabled,
    CnipSkipEbpf,
    CnipModeSkipIpset,
    CnipIpsetUnavailable,
    CnipIpsetRefreshed,
    CnipEbpfRefreshed,
    CnipFileMissing,
    CnipUnchanged,
    CnipImported,
    CnipKeepIpset,
    CnipEbpfLoaded,
    EbpfUnsupported,
    EbpfMapHotUpdated,
    EbpfMapHotUpdateFailed,
    TunDeviceDetected,
    TunDeviceMissing,
    IptablesInsertRuleFailed,
    CommandFailure,
}

/// The value of an argument in a language.
pub open spec fn arg_value(a: LogArgView, lang: Lang) -> Seq<char> {
    match lang {
        Lang::En => a.en,
        Lang::ZhCn => a.zh,
    }
}

/// The views of a list of arguments.
pub open spec fn arg_views(args: Seq<LogArg>) -> Seq<LogArgView> {
    args.map_values(|a: LogArg| a@)
}

/// The placeholder that an argument fills: its key in braces.
pub open spec fn placeholder(key: Seq<char>) -> Seq<char> {
    seq!['{'] + key + seq!['}']
}

/// A template with the placeholder of each argument replaced by the argument's value, the
/// arguments taken in order.
pub open spec fn rendered(template: Seq<char>, args: Seq<LogArgView>, lang: Lang) -> Seq<char>
    decreases args.len(),
{
    if args.len() == 0 {
        template
    } else {
        rendered(
            replace_all(template, placeholder(args[0].key), arg_value(args[0], lang)),
            args.drop_first(),
            lang,
        )
    }
}

/// The language that a configuration selects.
pub open spec fn config_lang(config: &Config) -> Lang {
    if config.log_language@ == "en"@ {
        Lang::En
    } else {
        Lang::ZhCn
    }
}

/// An argument whose value reads the same in both languages.
pub fn arg(key: &'static str, value: &str) -> (r: LogArg)
    ensures
        r@ == (LogArgView { key: key@, en: value@, zh: value@ }),
{
    LogArg { key, en: copy_str(value), zh: copy_str(value) }
}

/// An argument with an English and a Chinese value.
pub fn arg_i18n(key: &'static str, en: &str, zh: &str) -> (r: LogArg)
    ensures
        r@ == (LogArgView { key: key@, en: en@, zh: zh@ }),
{
    LogArg { key, en: copy_str(en), zh: copy_str(zh) }
}

impl LogArg {
    /// The value in `lang`.
    pub fn value(&self, lang: Lang) -> (r: &str)
        ensures
            r@ == arg_value(self@, lang),
    {
        match lang {
            Lang::En => self.en.as_str(),
            Lang::ZhCn => self.zh.as_str(),
        }
    }

    /// The English value.
    pub fn en_value(&self) -> (r: &str)
        ensures
            r@ == self@.en,
    {
        self.en.as_str()
    }

    /// The Chinese value.
    pub fn zh_value(&self) -> (r: &str)
        ensures
            r@ == self@.zh,
    {
        self.zh.as_str()
    }

    /// The key, whose placeholder `{key}` the argument fills.
    pub fn key(&self) -> (r: &'static str)
        ensures
            r@ == self@.key,
    {
        self.key
    }
}

/// `{key}`.
fn placeholder_of(key: &str) -> (r: String)
    ensures
        r@ == placeholder(key@),
{
    let r = concat3("{", key, "}");
    proof {
        reveal_strlit("{");
        reveal_strlit("}");
        assert(r@ =~= placeholder(key@));
    }
    r
}

/// Fills the template of a message with its arguments in `lang`: each placeholder `{key}` is
/// replaced by the value of the argument with that key, the arguments taken in order.
pub fn render(template: &str, args: &[LogArg], lang: Lang) -> (r: String)
    ensures
        r@ == rendered(template@, arg_views(args@), lang),
{
    let ghost av = arg_views(args@);
    let mut text = copy_str(template);
    let mut i: usize = 0;
    assert(av.skip(0) =~= av);
    while i < args.len()
        invariant
            av == arg_views(args@),
            i <= args.len(),
            rendered(text@, av.skip(i as int), lang) == rendered(template@, av, lang),
        decreases args.len() - i,
    {
        let a = &args[i];
        let ph = placeholder_of(a.key());
        proof {
            reveal_strlit("{");
            assert(ph@.len() > 0);
            assert(av.skip(i as int).drop_first() =~= av.skip(i + 1));
            assert(av.skip(i as int)[0] == a@);
        }
        text = replace_all_exec(text.as_str(), ph.as_str(), a.value(lang));
        i = i + 1;
    }
    assert(av.skip(args.len() as int) =~= Seq::<LogArgView>::empty());
    text
}

/// The language that the configuration selects: `en` gives English, anything else Chinese.
pub fn lang_from_config(config: &Config) -> (r: Lang)
    ensures
        r == config_lang(config),
{
    if same_text(config.log_language.as_str(), "en") {
        Lang::En
    } else {
        Lang::ZhCn
    }
}

/// A value as it is displayed: trimmed, or `-` where nothing is left.
pub open spec fn displayed(value: Seq<char>) -> Seq<char> {
    if trimmed(value).len() == 0 {
        "-"@
    } else {
        trimmed(value)
    }
}

/// A value for display: trimmed, or `-` where nothing is left.
pub fn display_value(value: &str) -> (r: String)
    ensures
        r@ == displayed(value@),
{
    let t = trim(value);
    if t.as_str().unicode_len() == 0 {
        copy_str("-")
    } else {
        t
    }
}

/// Why performance mode fell back to the ordinary rules.
#[derive(Clone, Copy, Debug, PartialEq, Eq, Structural)]
pub enum PerformanceFallbackReason {
    MissingConntrack,
    MissingConnmark,
    MissingConnmarkTarget,
    MissingSocketTransparent,
    UdpNotEnabled,
    ConditionsNotMet,
}

/// Why performance mode could not match by UID.
#[derive(Clone, Copy, Debug, PartialEq, Eq, Structural)]
pub enum PerformanceUidFallback {
    BpfMatchUnavailable,
    BoxbpfMissing,
    Ipv4ProgramMissing,
    Ipv6ProgramMissing,
}

/// The English wording of a fallback reason.
pub open spec fn reason_text_en(r: PerformanceFallbackReason) -> Seq<char> {
    match r {
        PerformanceFallbackReason::MissingConntrack => "missing conntrack"@,
        PerformanceFallbackReason::MissingConnmark => "missing connmark"@,
        PerformanceFallbackReason::MissingConnmarkTarget => "missing CONNMARK"@,
        PerformanceFallbackReason::MissingSocketTransparent => "missing socket transparent"@,
        PerformanceFallbackReason::UdpNotEnabled => "UDP not enabled"@,
        PerformanceFallbackReason::ConditionsNotMet => "conditions not met"@,
    }
}

/// The Chinese wording of a fallback reason.
pub open spec fn reason_text_zh(r: PerformanceFallbackReason) -> Seq<char> {
    match r {
        PerformanceFallbackReason::MissingConntrack => "缺少 conntrack"@,
        PerformanceFallbackReason::MissingConnmark => "缺少 connmark"@,
        PerformanceFallbackReason::MissingConnmarkTarget => "缺少 CONNMARK"@,
        PerformanceFallbackReason::MissingSocketTransparent => "缺少 socket transparent"@,
        PerformanceFallbackReason::UdpNotEnabled => "UDP 未启用"@,
        PerformanceFallbackReason::ConditionsNotMet => "条件未满足"@,
    }
}

fn reason_en(r: PerformanceFallbackReason) -> (s: &'static str)
    ensures
        s@ == reason_text_en(r),
{
    match r {
        PerformanceFallbackReason::MissingConntrack => "missing conntrack",
        PerformanceFallbackReason::MissingConnmark => "missing connmark",
        PerformanceFallbackReason::MissingConnmarkTarget => "missing CONNMARK",
        PerformanceFallbackReason::MissingSocketTransparent => "missing socket transparent",
        PerformanceFallbackReason::UdpNotEnabled => "UDP not enabled",
        PerformanceFallbackReason::ConditionsNotMet => "conditions not met",
    }
}

fn reason_zh(r: PerformanceFallbackReason) -> (s: &'static str)
    ensures
        s@ == reason_text_zh(r),
{
    match r {
        PerformanceFallbackReason::MissingConntrack => "缺少 conntrack",
        PerformanceFallbackReason::MissingConnmark => "缺少 connmark",
        PerformanceFallbackReason::MissingConnmarkTarget => "缺少 CONNMARK",
        PerformanceFallbackReason::MissingSocketTransparent => "缺少 socket transparent",
        PerformanceFallbackReason::UdpNotEnabled => "UDP 未启用",
        PerformanceFallbackReason::ConditionsNotMet => "条件未满足",
    }
}

/// The English wordings of the reasons, separated by `, `.
pub fn performance_reason_list_en(reasons: &[PerformanceFallbackReason]) -> (r: String)
    ensures
        r@ == join(reasons@.map_values(|x: PerformanceFallbackReason| reason_text_en(x)), ", "@),
{
    let mut parts: Vec<String> = Vec::new();
    let mut i: usize = 0;
    while i < reasons.len()
        invariant
            i <= reasons.len(),
            views(parts@) =~= reasons@.take(i as int).map_values(
                |x: PerformanceFallbackReason| reason_text_en(x),
            ),
        decreases reasons.len() - i,
    {
        let ghost before = parts@;
        parts.push(copy_str(reason_en(reasons[i])));
        proof {
            assert(parts@ == before.push(parts@.last()));
            assert(reasons@.take(i + 1) =~= reasons@.take(i as int).push(reasons@[i as int]));
            assert(views(parts@) =~= views(before).push(parts@.last()@));
        }
        i = i + 1;
    }
    assert(reasons@.take(reasons.len() as int) =~= reasons@);
    join_exec(parts.as_slice(), ", ")
}

/// The Chinese wordings of the reasons, separated by `, `.
pub fn performance_reason_list_zh(reasons: &[PerformanceFallbackReason]) -> (r: String)
    ensures
        r@ == join(reasons@.map_values(|x: PerformanceFallbackReason| reason_text_zh(x)), ", "@),
{
    let mut parts: Vec<String> = Vec::new();
    let mut i: usize = 0;
    while i < reasons.len()
        invariant
            i <= reasons.len(),
            views(parts@) =~= reasons@.take(i as int).map_values(
                |x: PerformanceFallbackReason| reason_text_zh(x),
            ),
        decreases reasons.len() - i,
    {
        let ghost before = parts@;
        parts.push(copy_str(reason_zh(reasons[i])));
        proof {
            assert(parts@ == before.push(parts@.last()));
            assert(reasons@.take(i + 1) =~= reasons@.take(i as int).push(reasons@[i as int]));
            assert(views(parts@) =~= views(before).push(parts@.last()@));
        }
        i = i + 1;
    }
    assert(reasons@.take(reasons.len() as int) =~= reasons@);
    join_exec(parts.as_slice(), ", ")
}

/// The English wording of a UID fallback.
pub fn uid_fallback_en(fallback: PerformanceUidFallback) -> (s: &'static str)
    ensures
        s@ == match fallback {
            PerformanceUidFallback::BpfMatchUnavailable => "iptables bpf match unavailable"@,
            PerformanceUidFallback::BoxbpfMissing => "boxbpf not found"@,
            PerformanceUidFallback::Ipv4ProgramMissing => "IPv4 program not loaded"@,
            PerformanceUidFallback::Ipv6ProgramMissing => "IPv6 program not loaded"@,
        },
{
    match fallback {
        PerformanceUidFallback::BpfMatchUnavailable => "iptables bpf match unavailable",
        PerformanceUidFallback::BoxbpfMissing => "boxbpf not found",
        PerformanceUidFallback::Ipv4ProgramMissing => "IPv4 program not loaded",
        PerformanceUidFallback::Ipv6ProgramMissing => "IPv6 program not loaded",
    }
}

/// The Chinese wording of a UID fallback.
pub fn uid_fallback_zh(fallback: PerformanceUidFallback) -> (s: &'static str)
    ensures
        s@ == match fallback {
            PerformanceUidFallback::BpfMatchUnavailable => "iptables bpf 匹配不可用"@,
            PerformanceUidFallback::BoxbpfMissing => "boxbpf 不存在"@,
            PerformanceUidFallback::Ipv4ProgramMissing => "IPv4 程序未加载"@,
            PerformanceUidFallback::Ipv6ProgramMissing => "IPv6 程序未加载"@,
        },
{
    match fallback {
        PerformanceUidFallback::BpfMatchUnavailable => "iptables bpf 匹配不可用",
        PerformanceUidFallback::BoxbpfMissing => "boxbpf 不存在",
        PerformanceUidFallback::Ipv4ProgramMissing => "IPv4 程序未加载",
        PerformanceUidFallback::Ipv6ProgramMissing => "IPv6 程序未加载",
    }
}

/// The severity of a log line.
#[derive(Clone, Copy, Debug, PartialEq, Eq, Structural)]
pub enum LogLevel {
    Debug,
    Info,
    Warn,
    Error,
}

/// The name of a level as it stands in a log line.
pub open spec fn level_name(level: LogLevel) -> Seq<char> {
    match level {
        LogLevel::Debug => "Debug"@,
        LogLevel::Info => "Info"@,
        LogLevel::Warn => "Warn"@,
        LogLevel::Error => "Error"@,
    }
}

impl LogLevel {
    /// The name of the level as it stands in a log line.
    pub fn name(&self) -> (r: &'static str)
        ensures
            r@ == level_name(*self),
    {
        match self {
            LogLevel::Debug => "Debug",
            LogLevel::Info => "Info",
            LogLevel::Warn => "Warn",
            LogLevel::Error => "Error",
        }
    }
}

/// A log line: `<time> [<level>] <message>`.
pub open spec fn log_line(now: Seq<char>, level: LogLevel, message: Seq<char>) -> Seq<char> {
    now + " ["@ + level_name(level) + "] "@ + message
}

/// A log line ready to be written: to the console, and appended to the file at `path`.
pub struct LogRecord {
    pub level: LogLevel,
    /// The log file that the line is appended to.
    pub path: String,
    /// The rendered message.
    pub message: String,
    /// The message with its time and level in front.
    pub line: String,
}

impl LogRecord {
    /// What the console shows: the whole line where line output is enabled, else the message.
    pub fn console_text(&self, line_enabled: bool) -> (r: &str)
        ensures
            r@ == if line_enabled {
                self.line@
            } else {
                self.message@
            },
    {
        if line_enabled {
            self.line.as_str()
        } else {
            self.message.as_str()
        }
    }

    /// Error lines go to standard error, all others to standard output.
    pub fn to_stderr(&self) -> (r: bool)
        ensures
            r == (self.level == LogLevel::Error),
    {
        match self.level {
            LogLevel::Error => true,
            _ => false,
        }
    }

    /// What is appended to the log file: the line and a line break.
    pub fn file_record(&self) -> (r: String)
        ensures
            r@ == self.line@.push('\n'),
    {
        let mut r = copy_str(self.line.as_str());
        crate::text::push_char(&mut r, '\n');
        r
    }
}

/// Builds the record of a message: rendered from its template in the configured language,
/// stamped with `now` and `level`, bound for the log file `base`.
fn key_record(
    config: &Config,
    level: LogLevel,
    template: &str,
    args: &[LogArg],
    base: &str,
    now: &str,
) -> (r: LogRecord)
    ensures
        r.level == level,
        r.path@ == base@,
        r.message@ == rendered(template@, arg_views(args@), config_lang(config)),
        r.line@ == log_line(now@, level, r.message@),
{
    let message = render(template, args, lang_from_config(config));
    let mut line = concat3(now, " [", level.name());
    line.append("] ");
    line.append(message.as_str());
    LogRecord { level, path: copy_str(base), message, line }
}

/// A debug line for the main log.
pub fn debug_key(config: &Config, template: &str, args: &[LogArg], now: &str) -> (r: LogRecord)
    ensures
        r.level == LogLevel::Debug,
        r.path@ == config.box_log@,
        r.message@ == rendered(template@, arg_views(args@), config_lang(config)),
        r.line@ == log_line(now@, LogLevel::Debug, r.message@),
{
    key_record(config, LogLevel::Debug, template, args, config.box_log.as_str(), now)
}

/// An info line for the main log.
pub fn info_key(config: &Config, template: &str, args: &[LogArg], now: &str) -> (r: LogRecord)
    ensures
        r.level == LogLevel::Info,
        r.path@ == config.box_log@,
        r.message@ == rendered(template@, arg_views(args@), config_lang(config)),
        r.line@ == log_line(now@, LogLevel::Info, r.message@),
{
    key_record(config, LogLevel::Info, template, args, config.box_log.as_str(), now)
}

/// A warning line for the main log.
pub fn warn_key(config: &Config, template: &str, args: &[LogArg], now: &str) -> (r: LogRecord)
    ensures
        r.level == LogLevel::Warn,
        r.path@ == config.box_log@,
        r.message@ == rendered(template@, arg_views(args@), config_lang(config)),
        r.line@ == log_line(now@, LogLevel::Warn, r.message@),
{
    key_record(config, LogLevel::Warn, template, args, config.box_log.as_str(), now)
}

/// An error line for the main log.
pub fn error_key(config: &Config, template: &str, args: &[LogArg], now: &str) -> (r: LogRecord)
    ensures
        r.level == LogLevel::Error,
        r.path@ == config.box_log@,
        r.message@ == rendered(template@, arg_views(args@), config_lang(config)),
        r.line@ == log_line(now@, LogLevel::Error, r.message@),
{
    key_record(config, LogLevel::Error, template, args, config.box_log.as_str(), now)
}

/// An info line for the network log, `net.log` in the runtime directory.
pub fn net_info_key(config: &Config, template: &str, args: &[LogArg], now: &str) -> (r: LogRecord)
    ensures
        r.level == LogLevel::Info,
        r.path@ == joined_path(config.run_dir@, "net.log"@),
        r.message@ == rendered(template@, arg_views(args@), config_lang(config)),
        r.line@ == log_line(now@, LogLevel::Info, r.message@),
{
    let path = net_log_path(config);
    key_record(config, LogLevel::Info, template, args, path.as_str(), now)
}

/// The log files behind a base path: the base itself.
pub fn log_paths(base: &str) -> (r: Vec<String>)
    ensures
        r.len() == 1,
        r[0]@ == base@,
{
    let mut r: Vec<String> = Vec::new();
    r.push(copy_str(base));
    r
}

/// The network log: `net.log` in the runtime directory.
pub fn net_log_path(config: &Config) -> (r: String)
    ensures
        r@ == joined_path(config.run_dir@, "net.log"@),
{
    join_path(config.run_dir.as_str(), "net.log")
}

/// The text of an error reported on the console: trimmed, and either as a log line stamped
/// with `now` or behind `Error: `.
pub fn console_error(message: &str, now: &str, line_enabled: bool) -> (r: String)
    ensures
        r@ == if line_enabled {
            log_line(now@, LogLevel::Error, trimmed(message@))
        } else {
            "Error: "@ + trimmed(message@)
        },
{
    let m = trim(message);
    if line_enabled {
        let mut line = concat3(now, " [", "Error");
        line.append("] ");
        line.append(m.as_str());
        line
    } else {
        concat2("Error: ", m.as_str())
    }
}

/// Arguments that the host builds from the configuration with its argument helpers and
/// appends after the arguments of a [`LogRequest`].
#[derive(Clone, Copy, Debug, PartialEq, Eq, Structural)]
pub enum ConfigArgs {
    Nothing,
    /// The arguments that describe a startup.
    Startup,
    /// The arguments that describe the core's configuration.
    CoreConfig,
    /// The `performance` argument, enabled or not.
    PerformanceEnabled(bool),
}

/// A log line that the control logic asks its host to write.
pub struct LogRequest {
    pub level: LogLevel,
    pub key: LogKey,
    pub args: Vec<LogArg>,
    pub config_args: ConfigArgs,
}

/// What a [`LogRequest`] holds.
pub struct LogRequestView {
    pub level: LogLevel,
    pub key: LogKey,
    pub args: Seq<LogArgView>,
    pub config_args: ConfigArgs,
}

impl View for LogRequest {
    type V = LogRequestView;

    open spec fn view(&self) -> LogRequestView {
        LogRequestView {
            level: self.level,
            key: self.key,
            args: arg_views(self.args@),
            config_args: self.config_args,
        }
    }
}

/// A request without arguments.
pub open spec fn plain_request(level: LogLevel, key: LogKey) -> LogRequestView {
    LogRequestView { level, key, args: Seq::empty(), config_args: ConfigArgs::Nothing }
}

/// A request with the one argument `error`.
pub open spec fn error_request(level: LogLevel, key: LogKey, error: Seq<char>) -> LogRequestView {
    LogRequestView {
        level,
        key,
        args: seq![LogArgView { key: "error"@, en: error, zh: error }],
        config_args: ConfigArgs::Nothing,
    }
}

impl LogRequest {
    /// A request without arguments.
    pub fn plain(level: LogLevel, key: LogKey) -> (r: LogRequest)
        ensures
            r@ == plain_request(level, key),
    {
        let r = LogRequest { level, key, args: Vec::new(), config_args: ConfigArgs::Nothing };
        assert(r@.args =~= Seq::<LogArgView>::empty());
        r
    }

    /// A request with the one argument `error`.
    pub fn with_error(level: LogLevel, key: LogKey, error: &str) -> (r: LogRequest)
        ensures
            r@ == error_request(level, key, error@),
    {
        let mut args: Vec<LogArg> = Vec::new();
        args.push(arg("error", error));
        let r = LogRequest { level, key, args, config_args: ConfigArgs::Nothing };
        assert(r@.args =~= seq![LogArgView { key: "error"@, en: error@, zh: error@ }]);
        r
    }
}

/// A displayed value is never empty and neither starts nor ends with white space.
pub proof fn lemma_displayed_is_never_blank(value: Seq<char>)
    ensures
        displayed(value).len() > 0,
        !is_white_space(displayed(value)[0]),
        !is_white_space(displayed(value).last()),
{
    lemma_trimmed_shape(value);
    reveal_strlit("-");
}

/// The Chinese wording of a reason that something is missing names the same thing as the
/// English one: "missing <thing>" is worded "缺少 <thing>".
pub proof fn lemma_missing_reasons_name_the_same_thing(r: PerformanceFallbackReason)
    ensures
        reason_text_en(r).len() >= 8 && reason_text_en(r).take(8) == "missing "@ ==> reason_text_zh(r)
            == "缺少 "@ + reason_text_en(r).skip(8),
{
    reveal_strlit("missing ");
    reveal_strlit("缺少 ");
    match r {
        PerformanceFallbackReason::MissingConntrack => {
            reveal_strlit("missing conntrack");
            reveal_strlit("缺少 conntrack");
            assert(reason_text_zh(r) =~= "缺少 "@ + reason_text_en(r).skip(8));
        },
        PerformanceFallbackReason::MissingConnmark => {
            reveal_strlit("missing connmark");
            reveal_strlit("缺少 connmark");
            assert(reason_text_zh(r) =~= "缺少 "@ + reason_text_en(r).skip(8));
        },
        PerformanceFallbackReason::MissingConnmarkTarget => {
            reveal_strlit("missing CONNMARK");
            reveal_strlit("缺少 CONNMARK");
            assert(reason_text_zh(r) =~= "缺少 "@ + reason_text_en(r).skip(8));
        },
        PerformanceFallbackReason::MissingSocketTransparent => {
            reveal_strlit("missing socket transparent");
            reveal_strlit("缺少 socket transparent");
            assert(reason_text_zh(r) =~= "缺少 "@ + reason_text_en(r).skip(8));
        },
        PerformanceFallbackReason::UdpNotEnabled => {
            reveal_strlit("UDP not enabled");
            assert(reason_text_en(r).take(8)[0] != "missing "@[0]);
        },
        PerformanceFallbackReason::ConditionsNotMet => {
            reveal_strlit("conditions not met");
            assert(reason_text_en(r).take(8)[0] != "missing "@[0]);
        },
    }
}

/// Distinct fallback reasons are worded distinctly, in English and in Chinese.
pub proof fn lemma_reason_wordings_are_distinct(a: PerformanceFallbackReason, b: PerformanceFallbackReason)
    ensures
        reason_text_en(a) == reason_text_en(b) ==> a == b,
        reason_text_zh(a) == reason_text_zh(b) ==> a == b,
{
    reveal_strlit("missing conntrack");
    reveal_strlit("missing connmark");
    reveal_strlit("missing CONNMARK");
    reveal_strlit("missing socket transparent");
    reveal_strlit("UDP not enabled");
    reveal_strlit("conditions not met");
    reveal_strlit("缺少 conntrack");
    reveal_strlit("缺少 connmark");
    reveal_strlit("缺少 CONNMARK");
    reveal_strlit("缺少 socket transparent");
    reveal_strlit("UDP 未启用");
    reveal_strlit("条件未满足");
    if a != b {
        let ea = reason_text_en(a);
        let eb = reason_text_en(b);
        let za = reason_text_zh(a);
        let zb = reason_text_zh(b);
        if ea.len() == eb.len() {
            assert(ea[8] != eb[8] || ea[11] != eb[11] || ea[0] != eb[0]);
        }
        if za.len() == zb.len() {
            assert(za[3] != zb[3] || za[6] != zb[6] || za[0] != zb[0]);
        }
    }
}

/// Arguments rendered with both languages agree when every argument reads the same in both.
pub proof fn lemma_render_same_in_both_languages(template: Seq<char>, args: Seq<LogArgView>)
    requires
        forall|k: int| 0 <= k < args.len() ==> #[trigger] args[k].en == args[k].zh,
    ensures
        rendered(template, args, Lang::En) == rendered(template, args, Lang::ZhCn),
    decreases args.len(),
{
    if args.len() > 0 {
        assert(args[0].en == args[0].zh);
        let next = replace_all(template, placeholder(args[0].key), args[0].en);
        assert forall|k: int| 0 <= k < args.drop_first().len() implies #[trigger] args.drop_first()[k].en
            == args.drop_first()[k].zh by {
            assert(args.drop_first()[k] == args[k + 1]);
        }
        lemma_render_same_in_both_languages(next, args.drop_first());
    }
}

/// A template without braces comes out of rendering unchanged, whatever the arguments.
pub proof fn lemma_render_without_placeholders(template: Seq<char>, args: Seq<LogArgView>, lang: Lang)
    requires
        forall|k: int| 0 <= k < template.len() ==> template[k] != '{',
    ensures
        rendered(template, args, lang) == template,
    decreases args.len(),
{
    if args.len() > 0 {
        lemma_replace_absent(template, placeholder(args[0].key), arg_value(args[0], lang));
        lemma_render_without_placeholders(template, args.drop_first(), lang);
    }
}

} // verus!
