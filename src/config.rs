//! Settings of the bridge.
use vstd::prelude::*;

verus! {

pub struct LoggingConfig {
    pub directory: String,
    pub debug_file: String,
    pub info_file: String,
    pub warn_file: String,
    pub error_file: String,
    pub console_level: String,
}

/// Account and channel of the alarm vendor.
pub struct OlarmConfig {
    pub api_token: String,
    pub username: String,
    pub password: String,
    pub broker_url: String,
    pub broker_port: u16,
}

/// Broker of the automation bus.
pub struct HomeAssistantConfig {
    pub mqtt_host: String,
    pub mqtt_port: u16,
    pub mqtt_username: String,
    pub mqtt_password: String,
    pub client_id: String,
}

pub struct IntervalConfig {
    pub status_tick_seconds: u64,
    pub reconnect_delay_seconds: u64,
    pub mqtt_keep_alive_seconds: u64,
}

pub struct LimitsConfig {
    pub mqtt_queue_size: usize,
    pub command_channel_size: usize,
    pub max_concurrent_commands: usize,
}

pub struct Config {
    pub logging: LoggingConfig,
    pub olarm: OlarmConfig,
    pub home_assistant: HomeAssistantConfig,
    pub intervals: IntervalConfig,
    pub limits: LimitsConfig,
}

} // verus!
