use vstd::prelude::*;
use vstd::string::*;
use crate::model::Device;

verus! {

/// The first device of the registry whose external id is `external_id`.
pub open spec fn first_match(devices: Seq<Device>, external_id: Seq<char>, i: int) -> bool {
    0 <= i < devices.len() && devices[i].device_id@ == external_id
        && forall|j: int| 0 <= j < i ==> devices[j].device_id@ != external_id
}

/// Some device of the registry has the external id `external_id`.
pub open spec fn is_known(devices: Seq<Device>, external_id: Seq<char>) -> bool {
    exists|i: int| 0 <= i < devices.len() && devices[i].device_id@ == external_id
}

/// The external ids of `devices`, in order, separated by commas.
pub open spec fn joined_ids(devices: Seq<Device>) -> Seq<char>
    decreases devices.len(),
{
    if devices.len() == 0 {
        Seq::empty()
    } else if devices.len() == 1 {
        devices[0].device_id@
    } else {
        joined_ids(devices.drop_last()) + ","@ + devices.last().device_id@
    }
}

/// The form body that asks the sensor service for the latest readings.
pub open spec fn request_body_of(phone_id: Seq<char>, devices: Seq<Device>) -> Seq<char> {
    "phoneid="@ + phone_id + "&deviceids="@ + joined_ids(devices)
}

/// The text of the push notification for the room `device_name`.
pub open spec fn message_of(device_name: Seq<char>) -> Seq<char> {
    "Das Fenster im "@ + device_name + " ist noch offen"@
}

/// Resolves a device of the sensor service's answer to the registry entry
/// with the same external id.
pub fn find_device(devices: &Vec<Device>, external_id: &String) -> (r: Option<usize>)
    ensures
        r is None <==> !is_known(devices@, external_id@),
        r matches Some(i) ==> first_match(devices@, external_id@, i as int),
{
    let mut i: usize = 0;
    while i < devices.len()
        invariant
            i <= devices@.len(),
            forall|j: int| 0 <= j < i ==> devices@[j].device_id@ != external_id@,
        decreases devices@.len() - i,
    {
        if devices[i].device_id == *external_id {
            return Some(i);
        }
        i = i + 1;
    }
    None
}

/// Joins the external ids of `devices` with commas.
pub fn device_ids_joined(devices: &Vec<Device>) -> (r: String)
    ensures
        r@ == joined_ids(devices@),
{
    let mut out = String::new();
    let mut i: usize = 0;
    while i < devices.len()
        invariant
            i <= devices@.len(),
            out@ == joined_ids(devices@.take(i as int)),
        decreases devices@.len() - i,
    {
        proof {
            reveal_strlit(",");
            assert(devices@.take(i + 1).drop_last() =~= devices@.take(i as int));
        }
        if i > 0 {
            out.append(",");
        }
        out.append(devices[i].device_id.as_str());
        i = i + 1;
    }
    assert(devices@.take(devices@.len() as int) =~= devices@);
    out
}

/// Builds the form body of the request for the latest readings.
pub fn request_body(phone_id: &str, devices: &Vec<Device>) -> (r: String)
    ensures
        r@ == request_body_of(phone_id@, devices@),
{
    let ids = device_ids_joined(devices);
    let mut body = String::from_str("phoneid=");
    body.append(phone_id);
    body.append("&deviceids=");
    body.append(ids.as_str());
    body
}

/// Builds the push notification text that names the room.
pub fn notification_message(device_name: &str) -> (r: String)
    ensures
        r@ == message_of(device_name@),
{
    let mut message = String::from_str("Das Fenster im ");
    message.append(device_name);
    message.append(" ist noch offen");
    message
}

} // verus!
