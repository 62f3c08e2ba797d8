use olarm_bridge::home_assistant::{AlarmState, AvailabilityState};
use olarm_bridge::models::{Action, DeviceProfile, DeviceState, MqttDeviceResponse, Power, UserDevice};
use olarm_bridge::panel::{get_areas, last_area_action};
use olarm_bridge::zones::{build_binary_sensor_unique_id, build_bypass_switch_unique_id, find_device_profile, get_zones};

fn strings(v: &[&str]) -> Vec<String> {
    v.iter().map(|s| s.to_string()).collect()
}

fn profile(areas_limit: i64, area_labels: &[&str], zones_limit: i64, zone_labels: &[&str], zone_types: Vec<i64>) -> DeviceProfile {
    DeviceProfile {
        areas_limit,
        areas_labels: strings(area_labels),
        zones_limit,
        zones_labels: strings(zone_labels),
        zones_types: zone_types,
        pgm_limit: 0,
        pgm_labels: vec![],
        pgm_control: vec![],
        ukeys_limit: 0,
        ukeys_labels: vec![],
        ukeys_control: vec![],
        pgm_ob_limit: 0,
        pgm_ob_labels: vec![],
        pgm_ob_control: vec![],
        doors_limit: 0,
        doors_labels: vec![],
        ver: 1,
    }
}

fn message(areas: &[&str], zones: &[&str], stamps: Vec<Option<u64>>) -> MqttDeviceResponse {
    MqttDeviceResponse {
        status: "ok".to_string(),
        kind: "alarmPayload".to_string(),
        data: DeviceState {
            timestamp: 0,
            cmd_recv: 0,
            kind: "t".to_string(),
            areas: strings(areas),
            areas_detail: vec![],
            areas_stamp: vec![],
            zones: strings(zones),
            zones_stamp: stamps,
            pgm: vec![],
            pgm_ob: vec![],
            power: Power { ac: "ok".to_string(), batt: "ok".to_string() },
        },
        gsm_stamp: None,
        wifi_stamp: None,
        ethernet_stamp: None,
        bypass_redis: None,
    }
}

fn action(cmd: &str, num: i64, created: i64, user: &str) -> Action {
    Action {
        action_id: "id".to_string(),
        action_cmd: cmd.to_string(),
        action_num: num,
        action_created: created,
        action_status: "done".to_string(),
        action_msg: String::new(),
        device_id: "d".to_string(),
        device_name: "n".to_string(),
        user_id: "u".to_string(),
        user_fullname: user.to_string(),
        user_email: "e".to_string(),
    }
}

#[test]
fn areas_with_labels_and_states() {
    let p = profile(3, &["House", "", "Garage"], 0, &[], vec![]);
    let m = message(&["arm", "notready", "weird"], &[], vec![]);
    let areas = get_areas(&m, &p);
    assert_eq!(areas.len(), 3);
    assert_eq!(areas[0].name, "House");
    assert_eq!(areas[0].state.as_deref(), Some("armed_away"));
    assert_eq!(areas[0].area_number, 1);
    assert_eq!(areas[1].name, "Area 2");
    assert_eq!(areas[1].state.as_deref(), Some("disarmed"));
    assert_eq!(areas[2].state, None);
    assert_eq!(areas[2].area_number, 3);
}

#[test]
fn areas_capped_by_limit_labels_and_states() {
    let p = profile(1, &["A", "B"], 0, &[], vec![]);
    assert_eq!(get_areas(&message(&["stay", "sleep"], &[], vec![]), &p).len(), 1);
    let p = profile(5, &["A", "B"], 0, &[], vec![]);
    assert_eq!(get_areas(&message(&["stay", "sleep", "arm"], &[], vec![]), &p).len(), 2);
    let p = profile(5, &["A", "B", "C"], 0, &[], vec![]);
    let a = get_areas(&message(&["countdown"], &[], vec![]), &p);
    assert_eq!(a.len(), 1);
    assert_eq!(a[0].state.as_deref(), Some("arming"));
    let p = profile(-1, &["A", "B"], 0, &[], vec![]);
    let a = get_areas(&message(&["alarm", "fire"], &[], vec![]), &p);
    assert_eq!(a.len(), 2);
    assert_eq!(a[1].state.as_deref(), Some("triggered"));
}

#[test]
fn zones_states_types_and_attributes() {
    let p = profile(0, &[], 4, &["Front", "Back", "Panic", "Plug"], vec![10, 0, 50, 1000]);
    let m = message(&[], &["a", "B", "c", "A"], vec![Some(1_700_000_000_000), None, Some(0), None]);
    let z = get_zones(&m, &p);
    assert_eq!(z.len(), 4);
    assert_eq!(z[0].name, "Front");
    assert_eq!(z[0].state, "on");
    assert_eq!(z[0].bypass_state, "off");
    assert_eq!(z[0].zone_type, "door");
    assert_eq!(z[0].zone_number, 1);
    assert_eq!(z[0].last_changed, Some(1_700_000_000_000));
    assert_eq!(
        z[0].attributes,
        vec![
            ("zone_number".to_string(), "0".to_string()),
            ("last_tripped_time".to_string(), "2023-11-14T22:13:20+00:00".to_string()),
            ("zone_type".to_string(), "Door Sensor".to_string()),
        ]
    );
    assert_eq!(z[1].state, "off");
    assert_eq!(z[1].bypass_state, "on");
    assert_eq!(z[1].zone_type, "motion");
    assert_eq!(z[1].last_changed, None);
    assert_eq!(z[1].attributes.len(), 2);
    assert_eq!(z[2].zone_type, "safety");
    assert_eq!(z[2].state, "off");
    assert_eq!(z[2].bypass_state, "off");
    assert_eq!(z[2].attributes[1].1, "1970-01-01T00:00:00+00:00");
    assert_eq!(z[3].zone_type, "plug");
    assert_eq!(z[3].state, "on");
    assert_eq!(z[3].attributes[1].1, "Device Power Plug Status");
}

#[test]
fn zones_capped_by_shortest_list() {
    let p = profile(0, &[], 10, &["a", "b", "c"], vec![0, 0, 0]);
    assert_eq!(get_zones(&message(&[], &["a", "a"], vec![None, None, None]), &p).len(), 2);
    let p = profile(0, &[], 1, &["a", "b", "c"], vec![0, 0, 0]);
    assert_eq!(get_zones(&message(&[], &["a", "a", "a"], vec![None, None, None]), &p).len(), 1);
    let p = profile(0, &[], -3, &["a", "b"], vec![0, 0]);
    assert_eq!(get_zones(&message(&[], &["a", "a"], vec![None, None]), &p).len(), 2);
}

#[test]
fn zone_stamp_out_of_range() {
    let p = profile(0, &[], 1, &["z"], vec![0]);
    let z = get_zones(&message(&[], &["a"], vec![Some(u64::MAX / 2)]), &p);
    assert_eq!(z[0].last_changed, None);
    assert_eq!(z[0].attributes.len(), 2);
}

#[test]
fn unique_ids() {
    assert_eq!(build_binary_sensor_unique_id("dev", 3), "dev_3_binary");
    assert_eq!(build_bypass_switch_unique_id("dev", 12), "dev_12_bypass");
}

#[test]
fn profile_found_by_device_id() {
    let devices = vec![
        UserDevice { id: "a".to_string(), imei: "1".to_string(), name: "A".to_string(), alarm_type: "x".to_string(), profile: profile(1, &["first"], 0, &[], vec![]) },
        UserDevice { id: "b".to_string(), imei: "2".to_string(), name: "B".to_string(), alarm_type: "x".to_string(), profile: profile(1, &["second"], 0, &[], vec![]) },
    ];
    assert_eq!(find_device_profile(&devices, "b").unwrap().areas_labels[0], "second");
    assert!(find_device_profile(&devices, "c").is_none());
}

#[test]
fn latest_action_per_area() {
    let acts = vec![
        action("area-arm", 1, 100, "Ann"),
        action("zone-bypass", 1, 500, "Zed"),
        action("area-disarm", 1, 300, "Bob"),
        action("area-stay", 2, 900, "Cid"),
        action("area-sleep", 1, 300, "Dee"),
    ];
    assert_eq!(last_area_action(&acts, 1), Some(2));
    assert_eq!(last_area_action(&acts, 2), Some(3));
    assert_eq!(last_area_action(&acts, 3), None);
    assert_eq!(last_area_action(&vec![action("area-arm", 1, 0, "Z")], 1), None);
}

#[test]
fn bus_state_names() {
    assert_eq!(AlarmState::ArmedNight.to_serde_value(), "armed_night");
    assert_eq!(AlarmState::ArmedCustomBypass.to_serde_value(), "armed_custom_bypass");
    assert_eq!(AvailabilityState::Online.to_serde_value(), "online");
    assert_eq!(AvailabilityState::Offline.to_serde_value(), "Offline");
}
