//! Commands that arrive on the automation bus: their topics, their JSON
//! payloads, and the typed command each pair stands for.
use vstd::prelude::*;
use crate::actions::{ActionCmd, action_of_tag};
use crate::text::{split_on, piece_at, decimal_usize, text_eq, split_text, parse_usize};

verus! {

/// What `serde_json` decodes from `text` as a JSON string, if it holds one.
pub uninterp spec fn json_string_of(text: Seq<char>) -> Option<Seq<char>>;

/// What `serde_json` decodes from `text` as a JSON object's boolean member
/// named `member`, if `text` is such an object.
pub uninterp spec fn json_bool_member_of(text: Seq<char>, member: Seq<char>) -> Option<bool>;

/// Relies on serde_json::from_str::<String>: decodes `text` as one JSON
/// string value.
#[verifier::external_body]
fn decode_json_string(text: &str) -> (r: Option<String>)
    ensures
        match r {
            Some(s) => json_string_of(text@) == Some(s@),
            None => json_string_of(text@) is None,
        },
{
    serde_json::from_str::<String>(text).ok()
}

/// Relies on serde_json::from_str into a `serde_json::Map` and on
/// `Value::as_bool`: decodes `text` as a JSON object and reads its member
/// `member` as a boolean.
#[verifier::external_body]
fn decode_bool_member(text: &str, member: &str) -> (r: Option<bool>)
    ensures
        r == json_bool_member_of(text@, member@),
{
    match serde_json::from_str::<serde_json::Map<String, serde_json::Value>>(text) {
        Ok(m) => match m.get(member) {
            Some(v) => v.as_bool(),
            None => None,
        },
        Err(_) => None,
    }
}

/// The action a JSON payload names: a JSON string holding a vendor action
/// name.
pub open spec fn payload_action(payload: Seq<char>) -> Option<ActionCmd> {
    match json_string_of(payload) {
        Some(s) => action_of_tag(s),
        None => None,
    }
}

/// The bypass flag of a JSON payload `{"bypass": <bool>}`.
pub open spec fn payload_bypass(payload: Seq<char>) -> Option<bool> {
    json_bool_member_of(payload, "bypass"@)
}

/// The JSON body that asks for a zone's bypass to be set or cleared.
#[derive(Clone, Copy, Debug, PartialEq, Eq, Structural)]
pub struct ZoneBypassRequest {
    pub bypass: bool,
}

impl ZoneBypassRequest {
    pub fn new(bypass: bool) -> (r: Self)
        ensures
            r.bypass == bypass,
    {
        ZoneBypassRequest { bypass }
    }

    /// The request as compact JSON: `{"bypass":true}` or `{"bypass":false}`.
    pub fn to_payload(&self) -> (r: String)
        ensures
            r@ == (if self.bypass {
                "{\"bypass\":true}"@
            } else {
                "{\"bypass\":false}"@
            }),
    {
        if self.bypass {
            "{\"bypass\":true}".to_owned()
        } else {
            "{\"bypass\":false}".to_owned()
        }
    }
}

/// A command for one device, as the automation bus sends it.
pub enum MqttCommand {
    SetArea { device_id: String, area_number: usize, action_cmd: ActionCmd },
    SetZoneBypass {
        device_id: String,
        zone_number: usize,
        payload: ZoneBypassRequest,
        action_cmd: ActionCmd,
    },
}

/// A command with its text replaced by character sequences.
pub enum CommandView {
    SetArea { device_id: Seq<char>, area_number: usize, action_cmd: ActionCmd },
    SetZoneBypass { device_id: Seq<char>, zone_number: usize, bypass: bool, action_cmd: ActionCmd },
}

impl CommandView {
    pub open spec fn device_id(self) -> Seq<char> {
        match self {
            CommandView::SetArea { device_id, .. } => device_id,
            CommandView::SetZoneBypass { device_id, .. } => device_id,
        }
    }
}

impl View for MqttCommand {
    type V = CommandView;

    open spec fn view(&self) -> CommandView {
        match self {
            MqttCommand::SetArea { device_id, area_number, action_cmd } => CommandView::SetArea {
                device_id: device_id@,
                area_number: *area_number,
                action_cmd: *action_cmd,
            },
            MqttCommand::SetZoneBypass { device_id, zone_number, payload, action_cmd } =>
                CommandView::SetZoneBypass {
                device_id: device_id@,
                zone_number: *zone_number,
                bypass: payload.bypass,
                action_cmd: *action_cmd,
            },
        }
    }
}

/// A parsed command and the device it is for.
pub struct TopicParseResult {
    pub device_id: String,
    pub command: MqttCommand,
}

/// The command that a topic stands for, given what its payload decoded to:
/// `olarm/device/{id}/area/{n}/set` with an action is `SetArea`;
/// `olarm/device/{id}/zone/{n}/bypass/set` with a bypass flag is
/// `SetZoneBypass`. Pieces past those positions are ignored; `{n}` must be
/// an unsigned decimal.
pub open spec fn command_for(topic: Seq<char>, action: Option<ActionCmd>, bypass: Option<bool>) -> Option<
    CommandView,
> {
    let p = split_on(topic, '/');
    let device_id = piece_at(p, 2);
    let number = decimal_usize(piece_at(p, 4));
    if piece_at(p, 0) == "olarm"@ && piece_at(p, 1) == "device"@ && piece_at(p, 3) == "area"@
        && piece_at(p, 5) == "set"@ {
        match (action, number) {
            (Some(a), Some(n)) => Some(
                CommandView::SetArea { device_id, area_number: n, action_cmd: a },
            ),
            _ => None,
        }
    } else if piece_at(p, 0) == "olarm"@ && piece_at(p, 1) == "device"@ && piece_at(p, 3)
        == "zone"@ && piece_at(p, 5) == "bypass"@ && piece_at(p, 6) == "set"@ {
        match (bypass, number) {
            (Some(b), Some(n)) => Some(
                CommandView::SetZoneBypass {
                    device_id,
                    zone_number: n,
                    bypass: b,
                    action_cmd: ActionCmd::ZoneBypass,
                },
            ),
            _ => None,
        }
    } else {
        None
    }
}

/// The command that a topic and its raw payload stand for; an empty
/// payload stands for none.
pub open spec fn command_of(topic: Seq<char>, payload: Seq<char>) -> Option<CommandView> {
    if payload.len() == 0 {
        None
    } else {
        command_for(topic, payload_action(payload), payload_bypass(payload))
    }
}

/// Whether `r` is the parse result that `expected` describes.
pub open spec fn parsed_as(r: Option<TopicParseResult>, expected: Option<CommandView>) -> bool {
    match r {
        Some(p) => expected == Some(p.command@) && p.device_id@ == p.command@.device_id(),
        None => expected is None,
    }
}

fn piece<'a>(pieces: &Vec<&'a str>, k: usize) -> (r: &'a str)
    ensures
        r@ == piece_at(pieces@.map_values(|p: &str| p@), k as int),
{
    if k < pieces.len() {
        pieces[k]
    } else {
        proof {
            reveal_strlit("");
        }
        ""
    }
}

/// Decodes a command payload as an action name in a JSON string.
pub fn decode_action(payload: &str) -> (r: Option<ActionCmd>)
    ensures
        r == payload_action(payload@),
{
    match decode_json_string(payload) {
        Some(s) => ActionCmd::from_tag(s.as_str()),
        None => None,
    }
}

/// Decodes a command payload as `{"bypass": <bool>}`.
pub fn decode_bypass(payload: &str) -> (r: Option<bool>)
    ensures
        r == payload_bypass(payload@),
{
    decode_bool_member(payload, "bypass")
}

/// The command for `topic` once its payload has been decoded to an action
/// (area topics) or a bypass flag (zone topics).
pub fn command_from_decoded(topic: &str, action: Option<ActionCmd>, bypass: Option<bool>) -> (r:
    Option<TopicParseResult>)
    ensures
        parsed_as(r, command_for(topic@, action, bypass)),
{
    let parts = split_text(topic, '/');
    let p0 = piece(&parts, 0);
    let p1 = piece(&parts, 1);
    let p3 = piece(&parts, 3);
    let p5 = piece(&parts, 5);
    let p6 = piece(&parts, 6);
    let device_id = piece(&parts, 2);
    let number = parse_usize(piece(&parts, 4));
    if text_eq(p0, "olarm") && text_eq(p1, "device") && text_eq(p3, "area") && text_eq(p5, "set") {
        match (action, number) {
            (Some(a), Some(n)) => Some(
                TopicParseResult {
                    device_id: device_id.to_owned(),
                    command: MqttCommand::SetArea {
                        device_id: device_id.to_owned(),
                        area_number: n,
                        action_cmd: a,
                    },
                },
            ),
            _ => None,
        }
    } else if text_eq(p0, "olarm") && text_eq(p1, "device") && text_eq(p3, "zone") && text_eq(
        p5,
        "bypass",
    ) && text_eq(p6, "set") {
        match (bypass, number) {
            (Some(b), Some(n)) => Some(
                TopicParseResult {
                    device_id: device_id.to_owned(),
                    command: MqttCommand::SetZoneBypass {
                        device_id: device_id.to_owned(),
                        zone_number: n,
                        payload: ZoneBypassRequest::new(b),
                        action_cmd: ActionCmd::ZoneBypass,
                    },
                },
            ),
            _ => None,
        }
    } else {
        None
    }
}

/// Parses a command from the automation bus: its topic and its raw
/// payload. An empty payload, a payload that does not decode, or a topic
/// of another shape gives no command.
pub fn command_topic_parser(topic: &str, payload: &str) -> (r: Option<TopicParseResult>)
    ensures
        parsed_as(r, command_of(topic@, payload@)),
{
    if payload.unicode_len() == 0 {
        return None;
    }
    let action = decode_action(payload);
    let bypass = decode_bypass(payload);
    command_from_decoded(topic, action, bypass)
}

} // verus!
