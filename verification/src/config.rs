//! The settings that the control logic reads.
use vstd::prelude::*;

verus! {

/// The values of the box configuration that the lifecycle, the monitor and the logger read.
#[derive(Clone)]
pub struct Config {
    /// Name of the core binary (for example `mihomo` or `sing-box`).
    pub bin_name: String,
    /// Routing mode of the proxy (`tun`, `tproxy`, `redirect`, ...).
    pub network_mode: String,
    pub tun_device: String,
    pub tproxy_port: String,
    pub redir_port: String,
    pub dns_hijack_mode: String,
    pub mihomo_dns_port: String,
    pub performance_mode: bool,
    /// Whether the proxy follows the Wi-Fi network policy.
    pub wifi_network_control_enabled: bool,
    /// `en` selects English log lines; anything else selects Chinese.
    pub log_language: String,
    /// Path of the main log file.
    pub box_log: String,
    /// Directory for runtime files.
    pub run_dir: String,
    /// Directory of the box binaries.
    pub bin_dir: String,
    /// Path of the rules database.
    pub db_path: String,
}

} // verus!
