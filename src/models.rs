//! Data returned by the alarm vendor's HTTP API and pushed on its channel.
use vstd::prelude::*;

verus! {

/// An action recorded against a device.
pub struct Action {
    pub action_id: String,
    pub action_cmd: String,
    pub action_num: i64,
    pub action_created: i64,
    pub action_status: String,
    pub action_msg: String,
    pub device_id: String,
    pub device_name: String,
    pub user_id: String,
    pub user_fullname: String,
    pub user_email: String,
}

/// Mains and battery state of a panel.
pub struct Power {
    pub ac: String,
    pub batt: String,
}

/// What a panel is configured with: its areas, zones and outputs.
pub struct DeviceProfile {
    pub areas_limit: i64,
    pub areas_labels: Vec<String>,
    pub zones_limit: i64,
    pub zones_labels: Vec<String>,
    pub zones_types: Vec<i64>,
    pub pgm_limit: i64,
    pub pgm_labels: Vec<String>,
    pub pgm_control: Vec<String>,
    pub ukeys_limit: i64,
    pub ukeys_labels: Vec<String>,
    pub ukeys_control: Vec<i64>,
    pub pgm_ob_limit: i64,
    pub pgm_ob_labels: Vec<String>,
    pub pgm_ob_control: Vec<String>,
    pub doors_limit: i64,
    pub doors_labels: Vec<String>,
    pub ver: i64,
}

/// The live state of a panel: one entry per area and per zone.
pub struct DeviceState {
    pub timestamp: u64,
    pub cmd_recv: i64,
    pub kind: String,
    pub areas: Vec<String>,
    pub areas_detail: Vec<String>,
    pub areas_stamp: Vec<u64>,
    pub zones: Vec<String>,
    pub zones_stamp: Vec<Option<u64>>,
    pub pgm: Vec<String>,
    pub pgm_ob: Vec<String>,
    pub power: Power,
}

/// Reminder and watch settings of a panel.
pub struct DeviceTriggers {
    pub ver: i64,
    pub last_check: i64,
    pub areas_remind: Vec<Vec<i64>>,
    pub zones_idle: Vec<i64>,
    pub zones_watch: Vec<Vec<i64>>,
}

/// A device as the device list returns it.
pub struct Device {
    pub device_id: String,
    pub device_name: String,
    pub device_serial: String,
    pub device_alarm_type: String,
    pub device_timestamp: i64,
    pub device_status: String,
    pub device_state: DeviceState,
    pub device_profile: DeviceProfile,
}

/// An event in a device's history.
pub struct Event {
    pub device_id: String,
    pub event_time: u64,
    pub event_action: String,
    pub event_state: String,
    pub event_num: i64,
    pub event_msg: String,
    pub user_fullname: String,
}

/// One device in full.
pub struct DeviceResponse {
    pub device_id: String,
    pub device_name: String,
    pub device_serial: String,
    pub device_type: String,
    pub device_alarm_type: String,
    pub device_timestamp: i64,
    pub device_status: String,
    pub device_state: DeviceState,
    pub device_profile: DeviceProfile,
    pub device_triggers: DeviceTriggers,
    pub device_timezone: String,
    pub device_firmware: String,
    pub device_api_access: i64,
}

/// One page of the device list.
pub struct DevicesResponse {
    pub page: i64,
    pub page_length: i64,
    pub page_count: i64,
    pub search: String,
    pub data: Vec<Device>,
}

/// A device's recent actions.
pub struct GetActionsResponse {
    pub actions: Vec<Action>,
}

/// A telemetry message of the vendor channel.
pub struct MqttDeviceResponse {
    pub status: String,
    pub kind: String,
    pub data: DeviceState,
    pub gsm_stamp: Option<u64>,
    pub wifi_stamp: Option<u64>,
    pub ethernet_stamp: Option<u64>,
    pub bypass_redis: Option<bool>,
}

/// Wi-Fi details of a network status message.
pub struct WifiData {
    pub wifi_status: String,
    pub wifi_connected: u8,
    pub wifi_ssid: String,
    pub wifi_rssi: isize,
}

/// A network status message of the vendor channel.
pub struct MqttWifiResponse {
    pub status: String,
    pub kind: String,
    pub data: WifiData,
}

/// A device of the user's account.
pub struct UserDevice {
    pub id: String,
    pub imei: String,
    pub name: String,
    pub alarm_type: String,
    pub profile: DeviceProfile,
}

/// The user's account with its devices.
pub struct UserResponse {
    pub devices: Vec<UserDevice>,
}

} // verus!
