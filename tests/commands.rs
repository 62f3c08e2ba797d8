use olarm_bridge::actions::{ActionCmd, ActionsRequest, MqttRequest, MqttRequestMethod};
use olarm_bridge::commands::{plan_command, CommandPlan};
use olarm_bridge::router::{Route, SenderTable};
use olarm_bridge::text::{parse_usize, split_text, text_eq};
use olarm_bridge::topic::{
    command_from_decoded, command_topic_parser, decode_action, decode_bypass, MqttCommand,
    ZoneBypassRequest,
};

#[test]
fn area_topic_yields_set_area() {
    let r = command_topic_parser("olarm/device/ABC/area/2/set", "\"area-arm\"").unwrap();
    assert_eq!(r.device_id, "ABC");
    match r.command {
        MqttCommand::SetArea { device_id, area_number, action_cmd } => {
            assert_eq!(device_id, "ABC");
            assert_eq!(area_number, 2);
            assert_eq!(action_cmd, ActionCmd::AreaArm);
        }
        _ => panic!("expected an area command"),
    }
}

#[test]
fn zone_topic_yields_set_zone_bypass() {
    let r = command_topic_parser("olarm/device/ABC/zone/3/bypass/set", "{\"bypass\": true}").unwrap();
    assert_eq!(r.device_id, "ABC");
    match r.command {
        MqttCommand::SetZoneBypass { device_id, zone_number, payload, action_cmd } => {
            assert_eq!(device_id, "ABC");
            assert_eq!(zone_number, 3);
            assert!(payload.bypass);
            assert_eq!(action_cmd, ActionCmd::ZoneBypass);
        }
        _ => panic!("expected a zone command"),
    }
}

#[test]
fn zone_bypass_false_is_kept() {
    let r = command_topic_parser("olarm/device/X/zone/7/bypass/set", "{\"bypass\":false}").unwrap();
    match r.command {
        MqttCommand::SetZoneBypass { payload, zone_number, .. } => {
            assert!(!payload.bypass);
            assert_eq!(zone_number, 7);
        }
        _ => panic!("expected a zone command"),
    }
}

#[test]
fn non_numeric_segment_yields_nothing() {
    assert!(command_topic_parser("olarm/device/ABC/area/two/set", "\"area-arm\"").is_none());
    assert!(command_topic_parser("olarm/device/ABC/zone/x3/bypass/set", "{\"bypass\": true}").is_none());
    assert!(command_topic_parser("olarm/device/ABC/area/-1/set", "\"area-arm\"").is_none());
}

#[test]
fn empty_payload_yields_nothing() {
    assert!(command_topic_parser("olarm/device/ABC/area/2/set", "").is_none());
    assert!(command_topic_parser("olarm/device/ABC/zone/3/bypass/set", "").is_none());
}

#[test]
fn undecodable_payload_yields_nothing() {
    assert!(command_topic_parser("olarm/device/ABC/area/2/set", "\"area-launch\"").is_none());
    assert!(command_topic_parser("olarm/device/ABC/area/2/set", "area-arm").is_none());
    assert!(command_topic_parser("olarm/device/ABC/zone/3/bypass/set", "{\"bypass\": 1}").is_none());
    assert!(command_topic_parser("olarm/device/ABC/zone/3/bypass/set", "{}").is_none());
}

#[test]
fn other_topic_shapes_yield_nothing() {
    assert!(command_topic_parser("olarm/device/ABC/area/2/state", "\"area-arm\"").is_none());
    assert!(command_topic_parser("olarm/dev/ABC/area/2/set", "\"area-arm\"").is_none());
    assert!(command_topic_parser("olarm/device/ABC/zone/3/set", "{\"bypass\": true}").is_none());
    assert!(command_topic_parser("", "\"area-arm\"").is_none());
}

#[test]
fn trailing_segments_are_ignored() {
    let r = command_topic_parser("olarm/device/D1/area/4/set/extra/more", "\"area-disarm\"").unwrap();
    match r.command {
        MqttCommand::SetArea { area_number, action_cmd, .. } => {
            assert_eq!(area_number, 4);
            assert_eq!(action_cmd, ActionCmd::AreaDisarm);
        }
        _ => panic!("expected an area command"),
    }
}

#[test]
fn decoded_parts_build_the_command() {
    let r = command_from_decoded("olarm/device/Q/area/12/set", Some(ActionCmd::AreaStay), None).unwrap();
    assert_eq!(r.device_id, "Q");
    assert!(command_from_decoded("olarm/device/Q/area/12/set", None, Some(true)).is_none());
    let z = command_from_decoded("olarm/device/Q/zone/1/bypass/set", None, Some(false)).unwrap();
    assert_eq!(z.device_id, "Q");
}

#[test]
fn payload_decoders() {
    assert_eq!(decode_action("\"zone-unbypass\""), Some(ActionCmd::ZoneUnBypass));
    assert_eq!(decode_action("\"ukey-activate\""), Some(ActionCmd::UkeyActivate));
    assert_eq!(decode_action("42"), None);
    assert_eq!(decode_bypass("{\"bypass\": true, \"other\": 1}"), Some(true));
    assert_eq!(decode_bypass("[true]"), None);
}

#[test]
fn action_names_round_trip() {
    let all = [
        ActionCmd::ZoneBypass,
        ActionCmd::ZoneUnBypass,
        ActionCmd::AreaArm,
        ActionCmd::AreaSleep,
        ActionCmd::AreaStay,
        ActionCmd::AreaDisarm,
        ActionCmd::PgmClose,
        ActionCmd::PgmOpen,
        ActionCmd::PgmPulse,
        ActionCmd::UkeyActivate,
    ];
    for a in all {
        assert_eq!(ActionCmd::from_tag(a.tag()), Some(a));
    }
    assert_eq!(ActionCmd::AreaArm.to_string(), "\"area-arm\"");
    assert_eq!(ActionCmd::AreaStay.to_string(), "\"area-stay\"");
}

#[test]
fn channel_request_forms() {
    let g = MqttRequest::get();
    assert_eq!(g.method, MqttRequestMethod::GET);
    assert!(g.data.is_none());
    let m = MqttRequest::from(ActionsRequest { action_cmd: ActionCmd::ZoneBypass, action_num: "5".to_string() }).unwrap();
    assert_eq!(m.method, MqttRequestMethod::POST);
    assert_eq!(m.data.unwrap(), vec!["bypass".to_string(), "5".to_string()]);
    let s = MqttRequest::from(ActionsRequest { action_cmd: ActionCmd::AreaSleep, action_num: "1".to_string() }).unwrap();
    assert_eq!(s.data.unwrap()[0], "sleep");
    assert!(MqttRequest::from(ActionsRequest { action_cmd: ActionCmd::PgmOpen, action_num: "1".to_string() }).is_none());
    assert!(MqttRequest::from(ActionsRequest { action_cmd: ActionCmd::ZoneUnBypass, action_num: "1".to_string() }).is_none());
}

#[test]
fn bypass_request_payload() {
    assert_eq!(ZoneBypassRequest::new(true).to_payload(), "{\"bypass\":true}");
    assert_eq!(ZoneBypassRequest::new(false).to_payload(), "{\"bypass\":false}");
    assert_eq!(decode_bypass(&ZoneBypassRequest::new(true).to_payload()), Some(true));
}

#[test]
fn bypass_command_goes_on_the_channel() {
    let cmd = MqttCommand::SetZoneBypass {
        device_id: "dev".to_string(),
        zone_number: 9,
        payload: ZoneBypassRequest::new(true),
        action_cmd: ActionCmd::ZoneBypass,
    };
    match plan_command(cmd, "IMEI1") {
        CommandPlan::Channel { control_topic, request } => {
            assert_eq!(control_topic, "si/app/v2/IMEI1/control");
            assert_eq!(request.method, MqttRequestMethod::POST);
            assert_eq!(request.data.unwrap(), vec!["bypass".to_string(), "9".to_string()]);
        }
        _ => panic!("expected the channel"),
    }
}

#[test]
fn area_command_goes_over_http() {
    let cmd = MqttCommand::SetArea { device_id: "dev".to_string(), area_number: 2, action_cmd: ActionCmd::AreaArm };
    match plan_command(cmd, "IMEI1") {
        CommandPlan::Http { device_id, request } => {
            assert_eq!(device_id, "dev");
            assert_eq!(request.action_cmd, ActionCmd::AreaArm);
            assert_eq!(request.action_num, "2");
        }
        _ => panic!("expected http"),
    }
}

#[test]
fn routing_to_known_and_unknown_devices() {
    let mut t: SenderTable<u32> = SenderTable::new();
    t.register("ABC".to_string(), 1);
    t.register("DEF".to_string(), 2);
    t.register("ABC".to_string(), 3);
    assert_eq!(t.get("ABC"), Some(&3));
    assert_eq!(t.get("DEF"), Some(&2));
    assert_eq!(t.get("XYZ"), None);
    match t.route_command("olarm/device/ABC/area/2/set", "\"area-arm\"") {
        Route::Deliver(s, MqttCommand::SetArea { area_number, .. }) => {
            assert_eq!(*s, 3);
            assert_eq!(area_number, 2);
        }
        _ => panic!("expected delivery"),
    }
    match t.route_command("olarm/device/NOPE/area/2/set", "\"area-arm\"") {
        Route::UnknownDevice(id) => assert_eq!(id, "NOPE"),
        _ => panic!("expected a routing miss"),
    }
    assert!(matches!(t.route_command("olarm/device/ABC/area/2/set", ""), Route::Unparsed));
}

#[test]
fn decimal_parsing_follows_std() {
    for s in ["0", "7", "42", "+5", "007", "18446744073709551615", "", "+", "-1", " 1", "1 ", "1a", "18446744073709551616", "99999999999999999999"] {
        assert_eq!(parse_usize(s), s.parse::<usize>().ok(), "input {:?}", s);
    }
}

#[test]
fn splitting_and_comparing_text() {
    assert_eq!(split_text("a/b//c", '/'), vec!["a", "b", "", "c"]);
    assert_eq!(split_text("", '/'), vec![""]);
    assert_eq!(split_text("/", '/'), vec!["", ""]);
    assert!(text_eq("olarm", "olarm"));
    assert!(!text_eq("olarm", "olarn"));
    assert!(!text_eq("olarm", "olar"));
}
