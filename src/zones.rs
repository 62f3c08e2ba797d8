//! Zones of a panel: the zones of a telemetry message, with their states,
//! sensor classes and attributes, as the automation bus shows them.
use vstd::prelude::*;
use crate::models::{DeviceProfile, MqttDeviceResponse, UserDevice};
use crate::text::{decimal_chars, text_eq, usize_text};

verus! {

/// The RFC 3339 text of the instant `ms` milliseconds after the Unix epoch
/// in UTC, as chrono writes it; none when chrono cannot represent it.
pub uninterp spec fn rfc3339_of_millis(ms: i64) -> Option<Seq<char>>;

/// Relies on chrono's `DateTime::<Utc>::from_timestamp_millis` (none out
/// of its range) and `DateTime::to_rfc3339`.
#[verifier::external_body]
fn millis_to_rfc3339(ms: i64) -> (r: Option<String>)
    ensures
        match r {
            Some(s) => rfc3339_of_millis(ms) == Some(s@),
            None => rfc3339_of_millis(ms) is None,
        },
{
    match chrono::DateTime::<chrono::Utc>::from_timestamp_millis(ms) {
        Some(d) => Some(d.to_rfc3339()),
        None => None,
    }
}

/// One zone of a panel.
pub struct ZoneObject {
    pub name: String,
    pub state: String,
    /// When the zone last changed, in milliseconds since the Unix epoch.
    pub last_changed: Option<i64>,
    pub zone_type: String,
    pub zone_number: usize,
    /// Name and value of each attribute, in the order zone number, last
    /// tripped time (when known), zone type.
    pub attributes: Vec<(String, String)>,
    pub bypass_state: String,
}

/// Whether a vendor zone state reads `a` (active) or `b` (bypassed), in
/// either case.
pub open spec fn zone_active(s: Seq<char>) -> bool {
    s == "a"@ || s == "A"@
}

pub open spec fn zone_bypassed(s: Seq<char>) -> bool {
    s == "b"@ || s == "B"@
}

pub open spec fn zone_state_text(s: Seq<char>) -> Seq<char> {
    if zone_active(s) {
        "on"@
    } else {
        "off"@
    }
}

pub open spec fn zone_bypass_text(s: Seq<char>) -> Seq<char> {
    if !zone_active(s) && zone_bypassed(s) {
        "on"@
    } else {
        "off"@
    }
}

/// Sensor class and readable type of each vendor zone type code.
pub open spec fn zone_type_names(code: i64) -> (Seq<char>, Seq<char>) {
    if code == 10 {
        ("door"@, "Door Sensor"@)
    } else if code == 11 {
        ("window"@, "Window Sensor"@)
    } else if code == 90 {
        ("problem"@, "Sensor Disabled"@)
    } else if code == 50 || code == 51 {
        ("safety"@, "Panic Button"@)
    } else if code == 1000 {
        ("plug"@, "Device Power Plug Status"@)
    } else if code == 1001 {
        ("power"@, "Battery Powered"@)
    } else {
        ("motion"@, "Motion Sensor"@)
    }
}

pub open spec fn min_nat(a: nat, b: nat) -> nat {
    if a <= b {
        a
    } else {
        b
    }
}

/// How many zones a message reports: the profile's limit, capped by each
/// of the four lists that describe a zone.
pub open spec fn reported_zones(payload: MqttDeviceResponse, profile: DeviceProfile) -> nat {
    let lists = min_nat(
        min_nat(payload.data.zones@.len(), payload.data.zones_stamp@.len()),
        min_nat(profile.zones_types@.len(), profile.zones_labels@.len()),
    );
    if profile.zones_limit < 0 || profile.zones_limit >= lists {
        lists
    } else {
        profile.zones_limit as nat
    }
}

/// The instant of a zone stamp, in milliseconds, as a signed value.
pub open spec fn stamp_millis(stamp: u64) -> i64 {
    stamp as i64
}

/// When the zone with stamp `stamp` last changed, if chrono can tell.
pub open spec fn zone_last_changed(stamp: Option<u64>) -> Option<i64> {
    match stamp {
        Some(x) => if rfc3339_of_millis(stamp_millis(x)) is Some {
            Some(stamp_millis(x))
        } else {
            None
        },
        None => None,
    }
}

/// The attributes of zone `i` (counted from 0).
pub open spec fn zone_attributes(i: nat, stamp: Option<u64>, code: i64) -> Seq<(Seq<char>, Seq<char>)> {
    let number = seq![("zone_number"@, decimal_chars(i))];
    let tripped = match stamp {
        Some(x) => match rfc3339_of_millis(stamp_millis(x)) {
            Some(t) => seq![("last_tripped_time"@, t)],
            None => Seq::<(Seq<char>, Seq<char>)>::empty(),
        },
        None => Seq::<(Seq<char>, Seq<char>)>::empty(),
    };
    number + tripped + seq![("zone_type"@, zone_type_names(code).1)]
}

pub open spec fn attributes_view(a: Seq<(String, String)>) -> Seq<(Seq<char>, Seq<char>)> {
    a.map_values(|p: (String, String)| (p.0@, p.1@))
}

/// Whether `z` is zone `i` (counted from 0) of the message.
pub open spec fn is_zone(
    z: ZoneObject,
    i: int,
    payload: MqttDeviceResponse,
    profile: DeviceProfile,
) -> bool {
    let raw = payload.data.zones@[i]@;
    let stamp = payload.data.zones_stamp@[i];
    let code = profile.zones_types@[i];
    &&& z.zone_number == i + 1
    &&& z.name@ == profile.zones_labels@[i]@
    &&& z.state@ == zone_state_text(raw)
    &&& z.bypass_state@ == zone_bypass_text(raw)
    &&& z.zone_type@ == zone_type_names(code).0
    &&& z.last_changed == zone_last_changed(stamp)
    &&& attributes_view(z.attributes@) == zone_attributes(i as nat, stamp, code)
}

fn zone_type_of(code: i64) -> (r: (&'static str, &'static str))
    ensures
        r.0@ == zone_type_names(code).0,
        r.1@ == zone_type_names(code).1,
{
    if code == 10 {
        ("door", "Door Sensor")
    } else if code == 11 {
        ("window", "Window Sensor")
    } else if code == 90 {
        ("problem", "Sensor Disabled")
    } else if code == 50 || code == 51 {
        ("safety", "Panic Button")
    } else if code == 1000 {
        ("plug", "Device Power Plug Status")
    } else if code == 1001 {
        ("power", "Battery Powered")
    } else {
        ("motion", "Motion Sensor")
    }
}

fn pair(name: &str, value: String) -> (r: (String, String))
    ensures
        r.0@ == name@,
        r.1@ == value@,
{
    (name.to_owned(), value)
}

/// Zone `i` of the message.
fn zone_at(payload: &MqttDeviceResponse, profile: &DeviceProfile, i: usize) -> (r: ZoneObject)
    requires
        i < payload.data.zones@.len(),
        i < payload.data.zones_stamp@.len(),
        i < profile.zones_types@.len(),
        i < profile.zones_labels@.len(),
        i < usize::MAX,
    ensures
        is_zone(r, i as int, *payload, *profile),
{
    let raw = payload.data.zones[i].as_str();
    let active = text_eq(raw, "a") || text_eq(raw, "A");
    let bypassed = text_eq(raw, "b") || text_eq(raw, "B");
    let state = if active {
        "on".to_owned()
    } else {
        "off".to_owned()
    };
    let bypass_state = if !active && bypassed {
        "on".to_owned()
    } else {
        "off".to_owned()
    };
    let code = profile.zones_types[i];
    let (zone_type, friendly) = zone_type_of(code);
    let stamp = payload.data.zones_stamp[i];
    let tripped = match stamp {
        Some(x) => millis_to_rfc3339(x as i64),
        None => None,
    };
    let last_changed = match stamp {
        Some(x) => match &tripped {
            Some(_) => Some(x as i64),
            None => None,
        },
        None => None,
    };
    let mut attributes: Vec<(String, String)> = Vec::new();
    attributes.push(pair("zone_number", usize_text(i)));
    match tripped {
        Some(t) => attributes.push(pair("last_tripped_time", t)),
        None => {},
    }
    attributes.push(pair("zone_type", friendly.to_owned()));
    let r = ZoneObject {
        name: profile.zones_labels[i].clone(),
        state,
        last_changed,
        zone_type: zone_type.to_owned(),
        zone_number: i + 1,
        attributes,
        bypass_state,
    };
    assert(attributes_view(r.attributes@) =~= zone_attributes(
        i as nat,
        stamp,
        code,
    ));
    r
}

/// The zones of a telemetry message, numbered from 1, in order: as many as
/// the profile's limit allows and every list that describes a zone covers.
pub fn get_zones(payload: &MqttDeviceResponse, device_profile: &DeviceProfile) -> (r: Vec<
    ZoneObject,
>)
    ensures
        r@.len() == reported_zones(*payload, *device_profile),
        forall|i: int| 0 <= i < r@.len() ==> is_zone(#[trigger] r@[i], i, *payload, *device_profile),
{
    let zones_len = payload.data.zones.len();
    let stamps_len = payload.data.zones_stamp.len();
    let types_len = device_profile.zones_types.len();
    let labels_len = device_profile.zones_labels.len();
    let a = if zones_len <= stamps_len {
        zones_len
    } else {
        stamps_len
    };
    let b = if types_len <= labels_len {
        types_len
    } else {
        labels_len
    };
    let lists = if a <= b {
        a
    } else {
        b
    };
    let limit = device_profile.zones_limit;
    let count: usize = if limit < 0 || limit as u64 >= lists as u64 {
        lists
    } else {
        limit as usize
    };
    let mut out: Vec<ZoneObject> = Vec::new();
    let mut i: usize = 0;
    while i < count
        invariant
            count == reported_zones(*payload, *device_profile),
            count <= payload.data.zones@.len(),
            count <= payload.data.zones_stamp@.len(),
            count <= device_profile.zones_types@.len(),
            count <= device_profile.zones_labels@.len(),
            i <= count,
            out@.len() == i,
            forall|j: int| 0 <= j < i ==> is_zone(#[trigger] out@[j], j, *payload, *device_profile),
        decreases count - i,
    {
        let z = zone_at(payload, device_profile, i);
        out.push(z);
        i = i + 1;
    }
    out
}

/// `<device id>_<zone number>_binary`: the id of a zone's binary sensor.
pub fn build_binary_sensor_unique_id(device_id: &str, zone_number: usize) -> (r: String)
    ensures
        r@ == device_id@ + "_"@ + decimal_chars(zone_number as nat) + "_binary"@,
{
    let mut r = device_id.to_owned();
    r.append("_");
    r.append(usize_text(zone_number).as_str());
    r.append("_binary");
    r
}

/// `<device id>_<zone number>_bypass`: the id of a zone's bypass switch.
pub fn build_bypass_switch_unique_id(device_id: &str, zone_number: usize) -> (r: String)
    ensures
        r@ == device_id@ + "_"@ + decimal_chars(zone_number as nat) + "_bypass"@,
{
    let mut r = device_id.to_owned();
    r.append("_");
    r.append(usize_text(zone_number).as_str());
    r.append("_bypass");
    r
}

/// The profile of the first device in `devices` with the id `device_id`.
pub fn find_device_profile<'a>(devices: &'a Vec<UserDevice>, device_id: &str) -> (r: Option<
    &'a DeviceProfile,
>)
    ensures
        match r {
            Some(p) => exists|j: int|
                0 <= j < devices@.len() && devices@[j].id@ == device_id@ && *p
                    == devices@[j].profile && forall|k: int|
                    0 <= k < j ==> (#[trigger] devices@[k]).id@ != device_id@,
            None => forall|j: int| 0 <= j < devices@.len() ==> (#[trigger] devices@[j]).id@ != device_id@,
        },
{
    let mut i: usize = 0;
    while i < devices.len()
        invariant
            i <= devices@.len(),
            forall|k: int| 0 <= k < i ==> (#[trigger] devices@[k]).id@ != device_id@,
        decreases devices@.len() - i,
    {
        if text_eq(devices[i].id.as_str(), device_id) {
            return Some(&devices[i].profile);
        }
        i = i + 1;
    }
    None
}

} // verus!
