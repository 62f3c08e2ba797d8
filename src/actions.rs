//! Commands that can be sent to an alarm panel, and the two forms in which
//! they travel: an HTTP action request and a message on the vendor channel.
use vstd::prelude::*;
use crate::text::text_eq;

verus! {

/// An action the vendor can carry out on a panel.
#[derive(Clone, Copy, Debug, PartialEq, Eq, Structural)]
pub enum ActionCmd {
    ZoneBypass,
    ZoneUnBypass,
    AreaArm,
    AreaSleep,
    AreaStay,
    AreaDisarm,
    PgmClose,
    PgmOpen,
    PgmPulse,
    UkeyActivate,
}

/// The vendor's name of each action, as it stands in JSON.
pub open spec fn action_tag(a: ActionCmd) -> Seq<char> {
    match a {
        ActionCmd::ZoneBypass => "zone-bypass"@,
        ActionCmd::ZoneUnBypass => "zone-unbypass"@,
        ActionCmd::AreaArm => "area-arm"@,
        ActionCmd::AreaSleep => "area-sleep"@,
        ActionCmd::AreaStay => "area-stay"@,
        ActionCmd::AreaDisarm => "area-disarm"@,
        ActionCmd::PgmClose => "pgm-close"@,
        ActionCmd::PgmOpen => "pgm-open"@,
        ActionCmd::PgmPulse => "pgm-pulse"@,
        ActionCmd::UkeyActivate => "ukey-activate"@,
    }
}

/// The action a vendor name stands for, if any.
pub open spec fn action_of_tag(s: Seq<char>) -> Option<ActionCmd> {
    if s == "zone-bypass"@ {
        Some(ActionCmd::ZoneBypass)
    } else if s == "zone-unbypass"@ {
        Some(ActionCmd::ZoneUnBypass)
    } else if s == "area-arm"@ {
        Some(ActionCmd::AreaArm)
    } else if s == "area-sleep"@ {
        Some(ActionCmd::AreaSleep)
    } else if s == "area-stay"@ {
        Some(ActionCmd::AreaStay)
    } else if s == "area-disarm"@ {
        Some(ActionCmd::AreaDisarm)
    } else if s == "pgm-close"@ {
        Some(ActionCmd::PgmClose)
    } else if s == "pgm-open"@ {
        Some(ActionCmd::PgmOpen)
    } else if s == "pgm-pulse"@ {
        Some(ActionCmd::PgmPulse)
    } else if s == "ukey-activate"@ {
        Some(ActionCmd::UkeyActivate)
    } else {
        None
    }
}

/// The vendor name of an action as a JSON string literal, quotes included.
pub open spec fn action_json(a: ActionCmd) -> Seq<char> {
    seq!['"'] + action_tag(a) + seq!['"']
}

/// The verb under which the vendor channel accepts an action; only
/// bypass and the four area actions travel that way.
pub open spec fn channel_verb(a: ActionCmd) -> Option<Seq<char>> {
    match a {
        ActionCmd::ZoneBypass => Some("bypass"@),
        ActionCmd::AreaArm => Some("arm"@),
        ActionCmd::AreaSleep => Some("sleep"@),
        ActionCmd::AreaStay => Some("stay"@),
        ActionCmd::AreaDisarm => Some("disarm"@),
        _ => None,
    }
}

impl ActionCmd {
    /// The vendor name of the action.
    pub fn tag(&self) -> (r: &'static str)
        ensures
            r@ == action_tag(*self),
    {
        match self {
            ActionCmd::ZoneBypass => "zone-bypass",
            ActionCmd::ZoneUnBypass => "zone-unbypass",
            ActionCmd::AreaArm => "area-arm",
            ActionCmd::AreaSleep => "area-sleep",
            ActionCmd::AreaStay => "area-stay",
            ActionCmd::AreaDisarm => "area-disarm",
            ActionCmd::PgmClose => "pgm-close",
            ActionCmd::PgmOpen => "pgm-open",
            ActionCmd::PgmPulse => "pgm-pulse",
            ActionCmd::UkeyActivate => "ukey-activate",
        }
    }

    /// The action whose vendor name is `s`, if any.
    pub fn from_tag(s: &str) -> (r: Option<ActionCmd>)
        ensures
            r == action_of_tag(s@),
    {
        if text_eq(s, "zone-bypass") {
            Some(ActionCmd::ZoneBypass)
        } else if text_eq(s, "zone-unbypass") {
            Some(ActionCmd::ZoneUnBypass)
        } else if text_eq(s, "area-arm") {
            Some(ActionCmd::AreaArm)
        } else if text_eq(s, "area-sleep") {
            Some(ActionCmd::AreaSleep)
        } else if text_eq(s, "area-stay") {
            Some(ActionCmd::AreaStay)
        } else if text_eq(s, "area-disarm") {
            Some(ActionCmd::AreaDisarm)
        } else if text_eq(s, "pgm-close") {
            Some(ActionCmd::PgmClose)
        } else if text_eq(s, "pgm-open") {
            Some(ActionCmd::PgmOpen)
        } else if text_eq(s, "pgm-pulse") {
            Some(ActionCmd::PgmPulse)
        } else if text_eq(s, "ukey-activate") {
            Some(ActionCmd::UkeyActivate)
        } else {
            None
        }
    }

    /// The vendor name as a JSON string literal, e.g. `"area-arm"` with
    /// its quotes; this is the payload the automation bus sends back.
    pub fn to_string(&self) -> (r: String)
        ensures
            r@ == action_json(*self),
    {
        let mut r = "\"".to_owned();
        r.append(self.tag());
        r.append("\"");
        proof {
            reveal_strlit("\"");
        }
        assert(r@ =~= action_json(*self));
        r
    }
}

/// An action submitted through the vendor's HTTP API.
pub struct ActionsRequest {
    pub action_cmd: ActionCmd,
    pub action_num: String,
}

/// Method of a message on the vendor channel.
#[derive(Clone, Copy, Debug, PartialEq, Eq, Structural)]
pub enum MqttRequestMethod {
    GET,
    POST,
}

/// A message on the vendor channel: a status request, or an action with
/// its verb and number.
pub struct MqttRequest {
    pub method: MqttRequestMethod,
    pub data: Option<Vec<String>>,
}

impl MqttRequest {
    /// The status request.
    pub fn get() -> (r: Self)
        ensures
            r.method == MqttRequestMethod::GET,
            r.data is None,
    {
        MqttRequest { method: MqttRequestMethod::GET, data: None }
    }

    /// The channel form of an action request: a POST carrying the action's
    /// verb and number; `None` for an action the channel does not carry.
    pub fn from(request: ActionsRequest) -> (r: Option<Self>)
        ensures
            match channel_verb(request.action_cmd) {
                Some(verb) => {
                    &&& r is Some
                    &&& r->0.method == MqttRequestMethod::POST
                    &&& r->0.data is Some
                    &&& r->0.data->0@.len() == 2
                    &&& r->0.data->0@[0]@ == verb
                    &&& r->0.data->0@[1] == request.action_num
                },
                None => r is None,
            },
    {
        let verb = match request.action_cmd {
            ActionCmd::ZoneBypass => "bypass",
            ActionCmd::AreaArm => "arm",
            ActionCmd::AreaSleep => "sleep",
            ActionCmd::AreaStay => "stay",
            ActionCmd::AreaDisarm => "disarm",
            _ => return None,
        };
        let mut data: Vec<String> = Vec::new();
        data.push(verb.to_owned());
        data.push(request.action_num);
        Some(MqttRequest { method: MqttRequestMethod::POST, data: Some(data) })
    }
}

} // verus!
