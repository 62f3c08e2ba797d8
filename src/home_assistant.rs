//! What the automation bus is told: entity states, availability, and the
//! discovery documents that announce entities.
use vstd::prelude::*;

verus! {

/// State of an alarm panel entity.
#[derive(Clone, Copy, Debug, PartialEq, Eq, Structural)]
pub enum AlarmState {
    ArmedAway,
    ArmedCustomBypass,
    ArmedHome,
    ArmedNight,
    ArmedVacation,
    Arming,
    Disarmed,
    Disarming,
    Pending,
    Triggered,
}

/// The name of each alarm state on the bus.
pub open spec fn alarm_state_name(s: AlarmState) -> Seq<char> {
    match s {
        AlarmState::ArmedAway => "armed_away"@,
        AlarmState::ArmedCustomBypass => "armed_custom_bypass"@,
        AlarmState::ArmedHome => "armed_home"@,
        AlarmState::ArmedNight => "armed_night"@,
        AlarmState::ArmedVacation => "armed_vacation"@,
        AlarmState::Arming => "arming"@,
        AlarmState::Disarmed => "disarmed"@,
        AlarmState::Disarming => "disarming"@,
        AlarmState::Pending => "pending"@,
        AlarmState::Triggered => "triggered"@,
    }
}

impl AlarmState {
    /// The state's name on the bus.
    pub fn to_serde_value(&self) -> (r: String)
        ensures
            r@ == alarm_state_name(*self),
    {
        let s = match self {
            AlarmState::ArmedAway => "armed_away",
            AlarmState::ArmedCustomBypass => "armed_custom_bypass",
            AlarmState::ArmedHome => "armed_home",
            AlarmState::ArmedNight => "armed_night",
            AlarmState::ArmedVacation => "armed_vacation",
            AlarmState::Arming => "arming",
            AlarmState::Disarmed => "disarmed",
            AlarmState::Disarming => "disarming",
            AlarmState::Pending => "pending",
            AlarmState::Triggered => "triggered",
        };
        s.to_owned()
    }
}

/// A feature an alarm panel entity offers.
#[derive(Clone, Copy, Debug, PartialEq, Eq, Structural)]
pub enum AlarmFeature {
    ArmAway,
    ArmCustomBypass,
    ArmHome,
    ArmNight,
    ArmVacation,
    Trigger,
}

/// Whether an entity is reachable.
#[derive(Clone, Copy, Debug, PartialEq, Eq, Structural)]
pub enum AvailabilityState {
    Online,
    Offline,
}

/// The name of each availability state on the bus.
pub open spec fn availability_name(s: AvailabilityState) -> Seq<char> {
    match s {
        AvailabilityState::Online => "online"@,
        AvailabilityState::Offline => "Offline"@,
    }
}

impl AvailabilityState {
    /// The state's name on the bus.
    pub fn to_serde_value(&self) -> (r: String)
        ensures
            r@ == availability_name(*self),
    {
        match self {
            AvailabilityState::Online => "online".to_owned(),
            AvailabilityState::Offline => "Offline".to_owned(),
        }
    }
}

/// How several availability topics combine.
#[derive(Clone, Copy, Debug, PartialEq, Eq, Structural)]
pub enum AvailabilityMode {
    All,
    Any,
    Latest,
}

/// A topic that tells whether an entity is reachable.
pub struct Availability {
    pub payload_available: Option<String>,
    pub payload_not_available: Option<String>,
    pub topic: String,
    pub value_template: Option<String>,
}

/// The device that entities belong to.
pub struct Device {
    pub identifiers: Vec<String>,
    pub manufacturer: String,
    pub model: String,
    pub name: String,
}

/// Discovery document of an alarm panel entity (one per area).
pub struct AlarmControlPanelDiscoveryPayload {
    pub name: String,
    pub unique_id: String,
    pub state_topic: String,
    pub command_topic: String,
    pub payload_arm_away: String,
    pub payload_arm_home: String,
    pub payload_arm_night: String,
    pub payload_disarm: String,
    pub code: Option<String>,
    pub code_arm_required: Option<bool>,
    pub code_disarm_required: Option<bool>,
    pub code_trigger_required: Option<bool>,
    pub command_template: Option<String>,
    pub json_attributes_topic: Option<String>,
    pub availability: Option<Vec<Availability>>,
    pub availability_mode: Option<AvailabilityMode>,
    pub supported_features: Option<Vec<AlarmFeature>>,
}

/// Discovery document of a binary sensor entity (one per zone).
pub struct BinarySensorDiscoveryPayload {
    pub device: Device,
    pub device_class: String,
    pub name: String,
    pub payload_off: String,
    pub payload_on: String,
    pub state_topic: String,
    pub unique_id: String,
    pub off_delay: Option<u64>,
    pub json_attributes_topic: Option<String>,
    pub availability: Option<Vec<Availability>>,
    pub availability_mode: Option<AvailabilityMode>,
}

/// Discovery document of a switch entity (one bypass switch per zone).
pub struct SwitchDiscoveryPayload {
    pub device: Device,
    pub name: String,
    pub payload_off: Option<String>,
    pub payload_on: Option<String>,
    pub state_off: Option<String>,
    pub state_on: Option<String>,
    pub state_topic: String,
    pub unique_id: String,
    pub json_attributes_topic: Option<String>,
    pub command_topic: String,
    pub availability: Option<Vec<Availability>>,
    pub availability_mode: Option<AvailabilityMode>,
    pub optimistic: Option<bool>,
}

} // verus!
