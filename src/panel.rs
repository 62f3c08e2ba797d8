//! Areas of a panel: the areas of a telemetry message, with their names
//! and alarm states, as the automation bus shows them.
use vstd::prelude::*;
use crate::home_assistant::{AlarmState, alarm_state_name};
use crate::models::{Action, DeviceProfile, MqttDeviceResponse};
use crate::text::{decimal_chars, text_eq, usize_text};

verus! {

/// One area of a panel.
pub struct AreaObject {
    pub name: String,
    pub state: Option<String>,
    pub area_number: usize,
}

/// The alarm state that a vendor area state stands for, if any.
pub open spec fn area_alarm_state(s: Seq<char>) -> Option<AlarmState> {
    if s == "notready"@ || s == "disarm"@ {
        Some(AlarmState::Disarmed)
    } else if s == "countdown"@ {
        Some(AlarmState::Arming)
    } else if s == "sleep"@ {
        Some(AlarmState::ArmedNight)
    } else if s == "stay"@ {
        Some(AlarmState::ArmedHome)
    } else if s == "arm"@ {
        Some(AlarmState::ArmedAway)
    } else if s == "alarm"@ || s == "fire"@ || s == "emergency"@ {
        Some(AlarmState::Triggered)
    } else {
        None
    }
}

/// The bus name of the state of an area in vendor state `s`.
pub open spec fn area_state_text(s: Seq<char>) -> Option<Seq<char>> {
    match area_alarm_state(s) {
        Some(a) => Some(alarm_state_name(a)),
        None => None,
    }
}

/// The name an area shows: its label, or `Area <number>` when the label is
/// empty.
pub open spec fn area_name(label: Seq<char>, area_number: nat) -> Seq<char> {
    if label.len() == 0 {
        "Area "@ + decimal_chars(area_number)
    } else {
        label
    }
}

/// How many areas the profile declares: its limit, capped by its labels.
pub open spec fn declared_areas(profile: DeviceProfile) -> nat {
    if profile.areas_limit < 0 || profile.areas_limit >= profile.areas_labels@.len() {
        profile.areas_labels@.len()
    } else {
        profile.areas_limit as nat
    }
}

/// How many areas a message reports: those that the profile declares and
/// the message holds a state for.
pub open spec fn reported_areas(payload: MqttDeviceResponse, profile: DeviceProfile) -> nat {
    let d = declared_areas(profile);
    if d <= payload.data.areas@.len() {
        d
    } else {
        payload.data.areas@.len()
    }
}

fn area_state(s: &str) -> (r: Option<AlarmState>)
    ensures
        r == area_alarm_state(s@),
{
    if text_eq(s, "notready") || text_eq(s, "disarm") {
        Some(AlarmState::Disarmed)
    } else if text_eq(s, "countdown") {
        Some(AlarmState::Arming)
    } else if text_eq(s, "sleep") {
        Some(AlarmState::ArmedNight)
    } else if text_eq(s, "stay") {
        Some(AlarmState::ArmedHome)
    } else if text_eq(s, "arm") {
        Some(AlarmState::ArmedAway)
    } else if text_eq(s, "alarm") || text_eq(s, "fire") || text_eq(s, "emergency") {
        Some(AlarmState::Triggered)
    } else {
        None
    }
}

/// The areas of a telemetry message, numbered from 1, in order: one for
/// each area that the profile declares (its limit, capped by its labels)
/// and the message holds a state for.
pub fn get_areas(payload: &MqttDeviceResponse, device_profile: &DeviceProfile) -> (r: Vec<
    AreaObject,
>)
    ensures
        r@.len() == reported_areas(*payload, *device_profile),
        forall|i: int|
            0 <= i < r@.len() ==> {
                &&& (#[trigger] r@[i]).area_number == i + 1
                &&& r@[i].name@ == area_name(device_profile.areas_labels@[i]@, (i + 1) as nat)
                &&& match r@[i].state {
                    Some(s) => area_state_text(payload.data.areas@[i]@) == Some(s@),
                    None => area_state_text(payload.data.areas@[i]@) is None,
                }
            },
{
    let labels = &device_profile.areas_labels;
    let limit = device_profile.areas_limit;
    let declared: usize = if limit < 0 || limit as u64 >= labels.len() as u64 {
        labels.len()
    } else {
        limit as usize
    };
    let areas = &payload.data.areas;
    let count: usize = if declared <= areas.len() {
        declared
    } else {
        areas.len()
    };
    let mut out: Vec<AreaObject> = Vec::new();
    let mut i: usize = 0;
    while i < count
        invariant
            count == reported_areas(*payload, *device_profile),
            count <= labels@.len(),
            count <= areas@.len(),
            labels == &device_profile.areas_labels,
            areas == &payload.data.areas,
            i <= count,
            out@.len() == i,
            forall|j: int|
                0 <= j < i ==> {
                    &&& (#[trigger] out@[j]).area_number == j + 1
                    &&& out@[j].name@ == area_name(labels@[j]@, (j + 1) as nat)
                    &&& match out@[j].state {
                        Some(s) => area_state_text(areas@[j]@) == Some(s@),
                        None => area_state_text(areas@[j]@) is None,
                    }
                },
        decreases count - i,
    {
        let label = &labels[i];
        let name = if label.as_str().unicode_len() == 0 {
            let mut n = "Area ".to_owned();
            let digits = usize_text(i + 1);
            n.append(digits.as_str());
            n
        } else {
            label.clone()
        };
        let state = match area_state(areas[i].as_str()) {
            Some(a) => Some(a.to_serde_value()),
            None => None,
        };
        out.push(AreaObject { name, state, area_number: i + 1 });
        i = i + 1;
    }
    out
}

/// Whether a recorded action concerns the arming state of area
/// `area_number`: not a zone, output or key action, and for that area.
pub open spec fn is_area_action(a: Action, area_number: usize) -> bool {
    &&& a.action_cmd@ != "zone-bypass"@
    &&& a.action_cmd@ != "pgm-open"@
    &&& a.action_cmd@ != "pgm-close"@
    &&& a.action_cmd@ != "pgm-pulse"@
    &&& a.action_cmd@ != "ukey-activate"@
    &&& a.action_num >= 0
    &&& a.action_num == area_number
}

/// Position of the latest action on area `area_number` with a creation
/// time after the epoch; among equal times the first one listed.
pub open spec fn latest_area_action(acts: Seq<Action>, area_number: usize) -> Option<int>
    decreases acts.len(),
{
    if acts.len() == 0 {
        None
    } else {
        let prev = latest_area_action(acts.drop_last(), area_number);
        let best: i64 = match prev {
            Some(j) => acts[j].action_created,
            None => 0,
        };
        if is_area_action(acts.last(), area_number) && best < acts.last().action_created {
            Some(acts.len() - 1)
        } else {
            prev
        }
    }
}

proof fn lemma_latest_in_range(acts: Seq<Action>, area_number: usize)
    ensures
        latest_area_action(acts, area_number) matches Some(j) ==> 0 <= j < acts.len(),
    decreases acts.len(),
{
    if acts.len() > 0 {
        lemma_latest_in_range(acts.drop_last(), area_number);
    }
}

/// The action that last changed area `area_number`, if any: the one with the
/// latest creation time among the area's arming actions.
pub fn last_area_action(actions: &Vec<Action>, area_number: usize) -> (r: Option<usize>)
    ensures
        r matches Some(j) ==> j < actions@.len(),
        match r {
            Some(j) => latest_area_action(actions@, area_number) == Some(j as int),
            None => latest_area_action(actions@, area_number) is None,
        },
{
    let mut best: Option<usize> = None;
    let mut best_created: i64 = 0;
    let mut i: usize = 0;
    while i < actions.len()
        invariant
            i <= actions@.len(),
            match best {
                Some(j) => latest_area_action(actions@.take(i as int), area_number) == Some(
                    j as int,
                ) && j < i && best_created == actions@[j as int].action_created,
                None => latest_area_action(actions@.take(i as int), area_number) is None
                    && best_created == 0,
            },
        decreases actions@.len() - i,
    {
        let a = &actions[i];
        let cmd = a.action_cmd.as_str();
        let qualifies = !text_eq(cmd, "zone-bypass") && !text_eq(cmd, "pgm-open") && !text_eq(
            cmd,
            "pgm-close",
        ) && !text_eq(cmd, "pgm-pulse") && !text_eq(cmd, "ukey-activate") && a.action_num >= 0
            && a.action_num as u64 == area_number as u64;
        proof {
            let t = actions@.take(i as int + 1);
            assert(t.drop_last() =~= actions@.take(i as int));
            assert(t.last() == actions@[i as int]);
            if let Some(j) = best {
                assert(t[j as int] == actions@[j as int]);
            }
        }
        if qualifies && best_created < a.action_created {
            best = Some(i);
            best_created = a.action_created;
        }
        i = i + 1;
    }
    assert(actions@.take(actions@.len() as int) =~= actions@);
    best
}

} // verus!
