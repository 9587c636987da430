//! Mapping between the gateway's numeric resource encoding and the
//! light model: resource paths, update payloads, the device list, and the
//! decoding of one device.
//!
//! Resource keys: 15001 is the device list, 3311 the list of light
//! sub-resources, 5850 on/off, 5851 brightness, 5706 colour, 9001 the name,
//! 9003 the instance id and 9019 reachability.

use vstd::prelude::*;
use vstd::string::*;
use crate::light::{opt_view, LightInfo, MAX_BRIGHTNESS};
use crate::message::ClientError;
use crate::text::clone_opt_string;

verus! {

/// Path of the resource that lists the device identifiers.
pub fn devices_path() -> (r: &'static str)
    ensures
        r@ == "15001"@,
{
    "15001"
}

/// One light sub-resource of a device, as the gateway sends it; each field
/// may be absent.
#[derive(Debug, Clone)]
pub struct RawBulb {
    /// Key 5706.
    pub color_hex: Option<String>,
    /// Key 5850: 1 is on.
    pub on: Option<u32>,
    /// Key 5851.
    pub brightness: Option<u8>,
}

/// One device resource, as the gateway sends it.
#[derive(Debug, Clone)]
pub struct RawDevice {
    /// Key 3311; absent on devices that are not lights.
    pub bulbs: Option<Vec<RawBulb>>,
    /// Key 9001.
    pub name: String,
    /// Key 9003.
    pub id: u64,
    /// Key 9019: 1 is reachable.
    pub reachable: Option<u32>,
}

/// Decimal digits of `n`, most significant first.
pub open spec fn decimal(n: nat) -> Seq<char>
    decreases n,
{
    if n < 10 {
        seq![digit_char(n)]
    } else {
        decimal(n / 10) + seq![digit_char(n % 10)]
    }
}

pub open spec fn digit_char(d: nat) -> char {
    if d == 0 { '0' }
    else if d == 1 { '1' }
    else if d == 2 { '2' }
    else if d == 3 { '3' }
    else if d == 4 { '4' }
    else if d == 5 { '5' }
    else if d == 6 { '6' }
    else if d == 7 { '7' }
    else if d == 8 { '8' }
    else { '9' }
}

fn digit_str(d: u64) -> (r: &'static str)
    requires
        d < 10,
    ensures
        r@ == seq![digit_char(d as nat)],
{
    proof {
        reveal_strlit("0");
        reveal_strlit("1");
        reveal_strlit("2");
        reveal_strlit("3");
        reveal_strlit("4");
        reveal_strlit("5");
        reveal_strlit("6");
        reveal_strlit("7");
        reveal_strlit("8");
        reveal_strlit("9");
    }
    let r = if d == 0 { "0" }
    else if d == 1 { "1" }
    else if d == 2 { "2" }
    else if d == 3 { "3" }
    else if d == 4 { "4" }
    else if d == 5 { "5" }
    else if d == 6 { "6" }
    else if d == 7 { "7" }
    else if d == 8 { "8" }
    else { "9" };
    assert(r@ =~= seq![digit_char(d as nat)]);
    r
}

/// Appends the decimal digits of `n`.
pub fn push_decimal(out: &mut String, n: u64)
    ensures
        final(out)@ == old(out)@ + decimal(n as nat),
    decreases n,
{
    if n >= 10 {
        push_decimal(out, n / 10);
    }
    out.append(digit_str(n % 10));
    assert(final(out)@ =~= old(out)@ + decimal(n as nat));
}

/// Path of one device's resource.
pub open spec fn device_path_of(id: u64) -> Seq<char> {
    "15001/"@ + decimal(id as nat)
}

/// Path of the resource of the device with instance id `id`.
pub fn device_path(id: u64) -> (r: String)
    ensures
        r@ == device_path_of(id),
{
    let mut path = String::from_str("15001/");
    push_decimal(&mut path, id);
    path
}

/// Serde's JSON text of a string: the string in quotes, with escapes.
pub uninterp spec fn json_string_of(s: Seq<char>) -> Seq<char>;

/// Characters that stand in a JSON string without an escape.
pub open spec fn is_plain_json_char(c: char) -> bool {
    c != '\u{22}' && c != '\u{5c}' && c >= ' '
}

/// `s` between double quotes.
pub open spec fn quoted(s: Seq<char>) -> Seq<char> {
    seq!['\u{22}'] + s + seq!['\u{22}']
}

/// Relies on `serde_json::to_string` for a `str`: it quotes the text and
/// escapes only quotes, backslashes and control characters below U+0020;
/// writing to its in-memory buffer does not fail.
#[verifier::external_body]
fn json_quote(s: &str) -> (r: Option<String>)
    ensures
        opt_view(r) == Some(json_string_of(s@)),
        (forall|i: int| 0 <= i < s@.len() ==> is_plain_json_char(#[trigger] s@[i]))
            ==> opt_view(r) == Some(quoted(s@)),
{
    serde_json::to_string(s).ok()
}

/// The JSON value of an on/off flag.
pub open spec fn flag_text(on: bool) -> Seq<char> {
    if on { "1"@ } else { "0"@ }
}

fn flag_str(on: bool) -> (r: &'static str)
    ensures
        r@ == flag_text(on),
{
    if on { "1" } else { "0" }
}

/// Update that switches a light on or off.
pub open spec fn power_payload_of(on: bool) -> Seq<char> {
    "{\"3311\":[{\"5850\":"@ + flag_text(on) + "}]}"@
}

/// Update that sets the brightness, and switches the light on exactly when
/// the brightness is above zero.
pub open spec fn brightness_payload_of(brightness: u8) -> Seq<char> {
    "{\"3311\":[{\"5850\":"@ + flag_text(brightness > 0) + ",\"5851\":"@ + decimal(
        brightness as nat,
    ) + "}]}"@
}

/// Update that sets the colour.
pub open spec fn color_payload_of(hex: Seq<char>) -> Seq<char> {
    "{\"3311\":[{\"5706\":"@ + json_string_of(hex) + "}]}"@
}

/// Update that sets colour, power and brightness together.
pub open spec fn scene_payload_of(on: bool, brightness: u8, hex: Seq<char>) -> Seq<char> {
    "{\"3311\":[{\"5706\":"@ + json_string_of(hex) + ",\"5850\":"@ + flag_text(on)
        + ",\"5851\":"@ + decimal(brightness as nat) + "}]}"@
}

/// Payload that switches a light on or off, touching only key 5850.
pub fn power_payload(on: bool) -> (r: String)
    ensures
        r@ == power_payload_of(on),
{
    let mut p = String::from_str("{\"3311\":[{\"5850\":");
    p.append(flag_str(on));
    p.append("}]}");
    p
}

/// Payload that sets the brightness and the matching on/off state.
pub fn brightness_payload(brightness: u8) -> (r: String)
    ensures
        r@ == brightness_payload_of(brightness),
{
    let mut p = String::from_str("{\"3311\":[{\"5850\":");
    p.append(flag_str(brightness > 0));
    p.append(",\"5851\":");
    push_decimal(&mut p, brightness as u64);
    p.append("}]}");
    p
}

/// Payload that sets the colour, touching only key 5706.
pub fn color_payload(hex: &str) -> (r: String)
    ensures
        r@ == color_payload_of(hex@),
{
    let mut p = String::from_str("{\"3311\":[{\"5706\":");
    let quoted = json_quote(hex);
    match quoted {
        Some(q) => p.append(q.as_str()),
        None => {},
    }
    p.append("}]}");
    p
}

/// Payload that applies a scene's settings to one light.
pub fn scene_payload(on: bool, brightness: u8, hex: &str) -> (r: String)
    ensures
        r@ == scene_payload_of(on, brightness, hex@),
{
    let mut p = String::from_str("{\"3311\":[{\"5706\":");
    let quoted = json_quote(hex);
    match quoted {
        Some(q) => p.append(q.as_str()),
        None => {},
    }
    p.append(",\"5850\":");
    p.append(flag_str(on));
    p.append(",\"5851\":");
    push_decimal(&mut p, brightness as u64);
    p.append("}]}");
    p
}

/// The list of unsigned integers that a JSON text holds, as serde_json
/// reads it, or `None` when the text is not such a list.
pub uninterp spec fn json_u64_list(bytes: Seq<u8>) -> Option<Seq<u64>>;

/// Relies on `serde_json::from_slice` into a `Vec<u64>`.
#[verifier::external_body]
fn parse_u64_list(bytes: &[u8]) -> (r: Option<Vec<u64>>)
    ensures
        match r {
            Some(v) => json_u64_list(bytes@) == Some(v@),
            None => json_u64_list(bytes@) is None,
        },
{
    serde_json::from_slice::<Vec<u64>>(bytes).ok()
}

/// Reads the device identifiers from the body of the device list resource.
pub fn device_ids(payload: &[u8]) -> (r: Result<Vec<u64>, ClientError>)
    ensures
        match json_u64_list(payload@) {
            Some(ids) => r matches Ok(v) && v@ == ids,
            None => r matches Err(ClientError::Malformed(_)),
        },
{
    match parse_u64_list(payload) {
        Some(ids) => Ok(ids),
        None => Err(ClientError::Malformed(String::from_str("device list is not a list of ids"))),
    }
}

/// The light a device resource describes: its first light sub-resource,
/// with absent values read as off, zero and unreachable, and the brightness
/// clamped to 254. A device without a light sub-resource is no light.
pub open spec fn decode_device(d: RawDevice) -> Option<LightInfo> {
    match d.bulbs {
        Some(bulbs) if bulbs@.len() > 0 => {
            let b = bulbs@[0];
            Some(
                LightInfo {
                    id: d.id,
                    name: d.name,
                    on: b.on == Some(1u32),
                    brightness: match b.brightness {
                        Some(v) => if v > MAX_BRIGHTNESS { MAX_BRIGHTNESS } else { v },
                        None => 0,
                    },
                    color_hex: b.color_hex,
                    reachable: d.reachable == Some(1u32),
                },
            )
        },
        _ => None,
    }
}

/// Decodes one device resource into a light, or `None` when the device
/// carries no light sub-resource.
pub fn light_from_device(device: &RawDevice) -> (r: Option<LightInfo>)
    ensures
        r == decode_device(*device),
        r matches Some(l) ==> l.wf(),
{
    match &device.bulbs {
        Some(bulbs) => {
            if bulbs.len() == 0 {
                return None;
            }
            let b = &bulbs[0];
            let on = match b.on {
                Some(v) => v == 1,
                None => false,
            };
            let brightness = match b.brightness {
                Some(v) => if v > MAX_BRIGHTNESS { MAX_BRIGHTNESS } else { v },
                None => 0,
            };
            let reachable = match device.reachable {
                Some(v) => v == 1,
                None => false,
            };
            Some(
                LightInfo {
                    id: device.id,
                    name: device.name.clone(),
                    on,
                    brightness,
                    color_hex: clone_opt_string(&b.color_hex),
                    reachable,
                },
            )
        },
        None => None,
    }
}

/// The lights among fetched device resources, in order; a device that could
/// not be fetched or parsed (`None`) or that is no light is skipped.
pub open spec fn decoded_lights(devices: Seq<Option<RawDevice>>) -> Seq<LightInfo>
    decreases devices.len(),
{
    if devices.len() == 0 {
        Seq::empty()
    } else {
        let rest = decoded_lights(devices.drop_last());
        match devices.last() {
            Some(d) => match decode_device(d) {
                Some(l) => rest.push(l),
                None => rest,
            },
            None => rest,
        }
    }
}

/// Collects the lights among the fetched device resources, skipping each
/// device that failed or is no light without giving up on the rest.
pub fn collect_lights(devices: &Vec<Option<RawDevice>>) -> (r: Vec<LightInfo>)
    ensures
        r@ == decoded_lights(devices@),
        forall|i: int| 0 <= i < r@.len() ==> (#[trigger] r@[i]).wf(),
{
    let mut lights: Vec<LightInfo> = Vec::new();
    let mut i: usize = 0;
    while i < devices.len()
        invariant
            i <= devices@.len(),
            lights@ == decoded_lights(devices@.subrange(0, i as int)),
            forall|k: int| 0 <= k < lights@.len() ==> (#[trigger] lights@[k]).wf(),
        decreases devices@.len() - i,
    {
        proof {
            assert(devices@.subrange(0, i + 1).drop_last() =~= devices@.subrange(0, i as int));
        }
        match &devices[i] {
            Some(d) => match light_from_device(d) {
                Some(l) => lights.push(l),
                None => {},
            },
            None => {},
        }
        i = i + 1;
    }
    assert(devices@.subrange(0, devices@.len() as int) =~= devices@);
    lights
}

/// A device resource without a light sub-resource adds nothing to a
/// listing.
pub proof fn non_light_is_skipped(devices: Seq<Option<RawDevice>>, d: RawDevice)
    requires
        d.bulbs matches Some(b) ==> b@.len() == 0,
    ensures
        decoded_lights(devices.push(Some(d))) == decoded_lights(devices),
{
    assert(devices.push(Some(d)).drop_last() =~= devices);
}

/// A failed fetch adds nothing to a listing, and the lights before it stay.
pub proof fn failed_fetch_is_skipped(devices: Seq<Option<RawDevice>>)
    ensures
        decoded_lights(devices.push(None)) == decoded_lights(devices),
{
    assert(devices.push(None).drop_last() =~= devices);
}

/// A device resource with a light sub-resource and reachability 0 is
/// listed, as unreachable.
pub proof fn unreachable_light_is_listed(devices: Seq<Option<RawDevice>>, d: RawDevice)
    requires
        d.bulbs matches Some(b) && b@.len() > 0,
        d.reachable == Some(0u32),
    ensures
        decode_device(d) is Some,
        decoded_lights(devices.push(Some(d))) == decoded_lights(devices).push(
            decode_device(d)->Some_0,
        ),
        !decoded_lights(devices.push(Some(d))).last().reachable,
        decoded_lights(devices.push(Some(d))).last().id == d.id,
{
    assert(devices.push(Some(d)).drop_last() =~= devices);
}

/// The light sub-resource that a brightness update writes.
pub open spec fn bulb_written_by_brightness(brightness: u8) -> RawBulb {
    RawBulb {
        color_hex: None,
        on: Some(if brightness > 0 { 1u32 } else { 0u32 }),
        brightness: Some(brightness),
    }
}

/// A device that echoes back what a brightness update wrote decodes as off
/// at brightness 0 and as on at any other brightness, with that brightness.
pub proof fn brightness_update_round_trip(d: RawDevice, brightness: u8)
    requires
        brightness <= MAX_BRIGHTNESS,
        d.bulbs matches Some(b) && b@.len() > 0 && b@[0] == bulb_written_by_brightness(
            brightness,
        ),
    ensures
        decode_device(d) matches Some(l) && l.on == (brightness > 0) && l.brightness
            == brightness,
{
}

/// Number of lights in `lights` with identifier `id`.
pub open spec fn count_id(lights: Seq<LightInfo>, id: u64) -> nat
    decreases lights.len(),
{
    if lights.len() == 0 {
        0
    } else {
        count_id(lights.drop_last(), id) + if lights.last().id == id { 1nat } else { 0nat }
    }
}

/// The entry decodes to a light with identifier `id`.
pub open spec fn yields_id(entry: Option<RawDevice>, id: u64) -> bool {
    entry matches Some(e) && decode_device(e) matches Some(l) && l.id == id
}

proof fn count_id_push(lights: Seq<LightInfo>, l: LightInfo, id: u64)
    ensures
        count_id(lights.push(l), id) == count_id(lights, id) + if l.id == id { 1nat } else { 0nat },
{
    assert(lights.push(l).drop_last() =~= lights);
}

proof fn absent_id_not_counted(devices: Seq<Option<RawDevice>>, id: u64)
    requires
        forall|i: int| 0 <= i < devices.len() ==> !yields_id(#[trigger] devices[i], id),
    ensures
        count_id(decoded_lights(devices), id) == 0,
    decreases devices.len(),
{
    if devices.len() > 0 {
        let rest = devices.drop_last();
        assert forall|i: int| 0 <= i < rest.len() implies !yields_id(#[trigger] rest[i], id) by {
            assert(rest[i] == devices[i]);
        }
        absent_id_not_counted(rest, id);
        assert(!yields_id(devices[devices.len() - 1], id));
        match devices.last() {
            Some(d) => match decode_device(d) {
                Some(l) => count_id_push(decoded_lights(rest), l, id),
                None => {},
            },
            None => {},
        }
    }
}

/// A device resource with a light sub-resource and reachability 0, at any
/// position of a listing, is listed as unreachable; when no other device
/// decodes to a light with its identifier, exactly one listed light has it.
pub proof fn unreachable_light_listed_once(devices: Seq<Option<RawDevice>>, k: int, d: RawDevice)
    requires
        0 <= k < devices.len(),
        devices[k] == Some(d),
        d.bulbs matches Some(b) && b@.len() > 0,
        d.reachable == Some(0u32),
    ensures
        decode_device(d) is Some,
        exists|j: int|
            0 <= j < decoded_lights(devices).len() && #[trigger] decoded_lights(devices)[j]
                == decode_device(d)->Some_0,
        !decode_device(d)->Some_0.reachable,
        (forall|i: int| 0 <= i < devices.len() && i != k ==> !yields_id(#[trigger] devices[i], d.id))
            ==> count_id(decoded_lights(devices), d.id) == 1,
    decreases devices.len(),
{
    let l = decode_device(d)->Some_0;
    let rest = devices.drop_last();
    let n = devices.len() - 1;
    if k == n {
        assert(decoded_lights(devices) == decoded_lights(rest).push(l));
        assert(decoded_lights(devices)[decoded_lights(rest).len() as int] == l);
        if forall|i: int| 0 <= i < devices.len() && i != k ==> !yields_id(#[trigger] devices[i], d.id) {
            assert forall|i: int| 0 <= i < rest.len() implies !yields_id(#[trigger] rest[i], d.id) by {
                assert(rest[i] == devices[i]);
            }
            absent_id_not_counted(rest, d.id);
            count_id_push(decoded_lights(rest), l, d.id);
        }
    } else {
        assert(rest[k] == devices[k]);
        unreachable_light_listed_once(rest, k, d);
        let before = decoded_lights(rest);
        let j = choose|j: int| 0 <= j < before.len() && #[trigger] before[j] == l;
        let after = decoded_lights(devices);
        assert(after == before || exists|x: LightInfo| after == before.push(x));
        assert(after[j] == l);
        if forall|i: int| 0 <= i < devices.len() && i != k ==> !yields_id(#[trigger] devices[i], d.id) {
            assert forall|i: int| 0 <= i < rest.len() && i != k implies !yields_id(#[trigger] rest[i], d.id) by {
                assert(rest[i] == devices[i]);
            }
            assert(!yields_id(devices[n], d.id));
            match devices.last() {
                Some(e) => match decode_device(e) {
                    Some(x) => count_id_push(before, x, d.id),
                    None => {},
                },
                None => {},
            }
        }
    }
}

} // verus!
