//! Names of the topics and client ids a device session uses.
use vstd::prelude::*;

verus! {

/// `<prefix><id><suffix>`.
fn framed(prefix: &str, id: &str, suffix: &str) -> (r: String)
    ensures
        r@ == prefix@ + id@ + suffix@,
{
    let mut r = prefix.to_owned();
    r.append(id);
    r.append(suffix);
    r
}

/// `so/app/v1/<imei>`: where the vendor pushes a device's telemetry.
pub fn vendor_state_topic(imei: &str) -> (r: String)
    ensures
        r@ == "so/app/v1/"@ + imei@,
{
    let r = framed("so/app/v1/", imei, "");
    proof {
        reveal_strlit("");
    }
    assert(r@ =~= "so/app/v1/"@ + imei@);
    r
}

/// `si/app/v2/<imei>/status`: where status requests go.
pub fn vendor_status_topic(imei: &str) -> (r: String)
    ensures
        r@ == "si/app/v2/"@ + imei@ + "/status"@,
{
    framed("si/app/v2/", imei, "/status")
}

/// `si/app/v2/<imei>/control`: where channel commands go.
pub fn vendor_control_topic(imei: &str) -> (r: String)
    ensures
        r@ == "si/app/v2/"@ + imei@ + "/control"@,
{
    framed("si/app/v2/", imei, "/control")
}

/// `native-app-oauth-<imei>`: the client id of a device's vendor channel.
pub fn vendor_client_id(imei: &str) -> (r: String)
    ensures
        r@ == "native-app-oauth-"@ + imei@,
{
    let r = framed("native-app-oauth-", imei, "");
    proof {
        reveal_strlit("");
    }
    assert(r@ =~= "native-app-oauth-"@ + imei@);
    r
}

/// `olarm/device/<id>/availability`: a device's availability on the bus.
pub fn availability_topic(device_id: &str) -> (r: String)
    ensures
        r@ == "olarm/device/"@ + device_id@ + "/availability"@,
{
    framed("olarm/device/", device_id, "/availability")
}

} // verus!
