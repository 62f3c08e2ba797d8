//! How a command from the automation bus is carried out: a bypass travels
//! on the vendor channel through the correlator, every other action is
//! submitted through the HTTP API.
use vstd::prelude::*;
use crate::actions::{ActionCmd, ActionsRequest, MqttRequest, MqttRequestMethod};
use crate::channels::vendor_control_topic;
use crate::text::{decimal_chars, usize_text};
use crate::topic::{MqttCommand, CommandView};

verus! {

/// What to send for a command.
pub enum CommandPlan {
    /// Publish `request` on `control_topic` and wait for the acknowledgment.
    Channel { control_topic: String, request: MqttRequest },
    /// Submit `request` for `device_id` through the HTTP API.
    Http { device_id: String, request: ActionsRequest },
}

/// Device, action and number (area or zone) of a command.
pub open spec fn command_parts(c: CommandView) -> (Seq<char>, ActionCmd, usize) {
    match c {
        CommandView::SetArea { device_id, area_number, action_cmd } => (
            device_id,
            action_cmd,
            area_number,
        ),
        CommandView::SetZoneBypass { device_id, zone_number, action_cmd, .. } => (
            device_id,
            action_cmd,
            zone_number,
        ),
    }
}

/// Whether `p` is the plan for command `c` on the device with IMEI `imei`.
pub open spec fn plans(p: CommandPlan, c: CommandView, imei: Seq<char>) -> bool {
    let (device_id, action, number) = command_parts(c);
    if action == ActionCmd::ZoneBypass {
        &&& p is Channel
        &&& p->Channel_control_topic@ == "si/app/v2/"@ + imei + "/control"@
        &&& p->Channel_request.method == MqttRequestMethod::POST
        &&& p->Channel_request.data is Some
        &&& p->Channel_request.data->0@.len() == 2
        &&& p->Channel_request.data->0@[0]@ == "bypass"@
        &&& p->Channel_request.data->0@[1]@ == decimal_chars(number as nat)
    } else {
        &&& p is Http
        &&& p->Http_device_id@ == device_id
        &&& p->Http_request.action_cmd == action
        &&& p->Http_request.action_num@ == decimal_chars(number as nat)
    }
}

/// The plan for a command on the device with IMEI `imei`.
pub fn plan_command(cmd: MqttCommand, imei: &str) -> (r: CommandPlan)
    ensures
        plans(r, cmd@, imei@),
{
    let ghost c = cmd@;
    let (device_id, action_cmd, number) = match cmd {
        MqttCommand::SetArea { device_id, area_number, action_cmd } => (
            device_id,
            action_cmd,
            area_number,
        ),
        MqttCommand::SetZoneBypass { device_id, zone_number, action_cmd, .. } => (
            device_id,
            action_cmd,
            zone_number,
        ),
    };
    assert(command_parts(c) == (device_id@, action_cmd, number));
    let request = ActionsRequest { action_cmd, action_num: usize_text(number) };
    match action_cmd {
        ActionCmd::ZoneBypass => {
            let control_topic = vendor_control_topic(imei);
            match MqttRequest::from(request) {
                Some(m) => CommandPlan::Channel { control_topic, request: m },
                None => CommandPlan::Http {
                    device_id,
                    request: ActionsRequest { action_cmd, action_num: usize_text(number) },
                },
            }
        },
        _ => CommandPlan::Http { device_id, request },
    }
}

} // verus!
