//! The MQTT messages of the temperature/humidity reporter: the device status
//! payload, the bounded payload buffer, and the actions queued for the
//! MQTT manager.

use vstd::prelude::*;
use vstd::string::StringSliceAdditionalSpecFns;
use crate::text::{push_decimal, push_signed_decimal, mac_string, ipv4_string};

verus! {

/// The largest payload, in bytes.
pub const PAYLOAD_CAPACITY: usize = 256;

/// The time between two status messages, in seconds.
pub const STATUS_INTERVAL_SECS: u64 = 60;

#[verifier::external_type_specification]
#[verifier::external_body]
pub struct ExCapacityError(heapless::CapacityError);

/// The text of a message, at most `PAYLOAD_CAPACITY` bytes of UTF-8.
#[verifier::external_body]
pub struct Payload {
    text: heapless::String<256>,
}

/// The bytes that a payload holds.
pub uninterp spec fn payload_bytes(payload: Payload) -> Seq<u8>;

/// `heapless::String::new`: an empty string.
#[verifier::external_body]
fn payload_new() -> (payload: Payload)
    ensures
        payload_bytes(payload) == Seq::<u8>::empty(),
{
    Payload { text: heapless::String::new() }
}

/// `heapless::String::push_str`: appends the UTF-8 bytes of `text` when they
/// fit in the capacity of 256 bytes, and otherwise fails and leaves the
/// string unchanged.
#[verifier::external_body]
fn payload_push_str(payload: &mut Payload, text: &str) -> (result: Result<(), heapless::CapacityError>)
    ensures
        payload_bytes(*old(payload)).len() + text.spec_bytes().len() <= PAYLOAD_CAPACITY ==> {
            &&& result is Ok
            &&& payload_bytes(*final(payload)) == payload_bytes(*old(payload)) + text.spec_bytes()
        },
        payload_bytes(*old(payload)).len() + text.spec_bytes().len() > PAYLOAD_CAPACITY ==> {
            &&& result is Err
            &&& payload_bytes(*final(payload)) == payload_bytes(*old(payload))
        },
{
    payload.text.push_str(text)
}

/// `heapless::String::as_str`: the text of the string.
#[verifier::external_body]
fn payload_as_str(payload: &Payload) -> (text: &str)
    ensures
        text.spec_bytes() == payload_bytes(*payload),
{
    payload.text.as_str()
}

/// A text did not fit in the payload capacity.
#[derive(Clone, Copy, Debug, PartialEq, Eq)]
pub struct CapacityExceeded;

impl Payload {
    /// A payload holding `text`, when its UTF-8 encoding fits in
    /// `PAYLOAD_CAPACITY` bytes.
    pub fn from_text(text: &str) -> (payload: Result<Payload, CapacityExceeded>)
        ensures
            match payload {
                Ok(p) => text.spec_bytes().len() <= PAYLOAD_CAPACITY && payload_bytes(p)
                    == text.spec_bytes(),
                Err(_) => text.spec_bytes().len() > PAYLOAD_CAPACITY,
            },
    {
        let mut payload = payload_new();
        proof {
            assert(Seq::<u8>::empty() + text.spec_bytes() =~= text.spec_bytes());
        }
        match payload_push_str(&mut payload, text) {
            Ok(()) => Ok(payload),
            Err(_) => Err(CapacityExceeded),
        }
    }

    /// The text of the payload.
    pub fn as_str(&self) -> (text: &str)
        ensures
            text.spec_bytes() == payload_bytes(*self),
    {
        payload_as_str(self)
    }
}

/// The MQTT quality of service of a message.
#[derive(Clone, Copy, Debug, PartialEq, Eq)]
pub enum QualityOfService {
    /// At most once.
    Qos0,
    /// At least once.
    Qos1,
    /// Exactly once.
    Qos2,
}

/// A message to publish.
pub struct ApplicationAction {
    pub topic: &'static str,
    pub payload: Payload,
    pub qos: QualityOfService,
    pub retain: bool,
}

impl ApplicationAction {
    pub fn new(topic: &'static str, payload: Payload, qos: QualityOfService, retain: bool) -> (action:
        Self)
        ensures
            action.topic == topic,
            action.payload == payload,
            action.qos == qos,
            action.retain == retain,
    {
        ApplicationAction { topic, payload, qos, retain }
    }
}

/// What the device reports about itself.
pub struct DeviceStatus<'a> {
    /// Whether the network link is up.
    pub online: bool,
    /// The Wi-Fi signal strength, when connected.
    pub rssi_dbm: Option<i32>,
    /// The seconds since boot.
    pub uptime_s: u64,
    /// The firmware's name and version.
    pub firmware: &'a str,
    /// The station's MAC address, when it is reported.
    pub mac: Option<[u8; 6]>,
    /// The IPv4 address, when one has been assigned.
    pub ip: Option<[u8; 4]>,
}

pub open spec fn bool_text(b: bool) -> Seq<char> {
    if b {
        "true"@
    } else {
        "false"@
    }
}

/// The signal strength field of a status.
pub open spec fn rssi_field(rssi_dbm: Option<i32>) -> Seq<char> {
    match rssi_dbm {
        Some(rssi) => ",\"rssi_dbm\":"@ + crate::text::signed_decimal(rssi as int),
        None => ",\"rssi_dbm\":null"@,
    }
}

/// The firmware field of a status.
pub open spec fn firmware_field(firmware: Seq<char>) -> Seq<char> {
    ",\"firmware\":\""@ + firmware + "\""@
}

/// The MAC address field of a status, left out when there is none.
pub open spec fn mac_field(mac: Option<[u8; 6]>) -> Seq<char> {
    match mac {
        Some(mac) => ",\"mac\":\""@ + crate::text::mac_text(mac@) + "\""@,
        None => Seq::<char>::empty(),
    }
}

/// The address field of a status.
pub open spec fn ip_field(ip: Option<[u8; 4]>) -> Seq<char> {
    match ip {
        Some(octets) => ",\"ip\":\""@ + crate::text::ipv4_text(octets@) + "\""@,
        None => ",\"ip\":null"@,
    }
}

/// The JSON text of a device status, such as
/// `{"online":true,"rssi_dbm":-61,"uptime_s":360,"firmware":"mqtt_sht31 0.1.0","mac":"A4:CF:12:0B:3E:F0","ip":"192.168.1.42"}`.
/// A missing signal strength or address is written as `null`; a missing
/// MAC address is left out.
pub open spec fn status_text(status: DeviceStatus) -> Seq<char> {
    "{\"online\":"@ + bool_text(status.online) + rssi_field(status.rssi_dbm) + ",\"uptime_s\":"@
        + crate::text::decimal(status.uptime_s as nat) + firmware_field(status.firmware@) + mac_field(
        status.mac,
    ) + ip_field(status.ip) + "}"@
}

fn push_rssi_field(text: &mut String, rssi_dbm: Option<i32>)
    ensures
        final(text)@ == old(text)@ + rssi_field(rssi_dbm),
{
    match rssi_dbm {
        Some(rssi) => {
            text.append(",\"rssi_dbm\":");
            push_signed_decimal(text, rssi);
            proof {
                assert(final(text)@ =~= old(text)@ + rssi_field(rssi_dbm));
            }
        },
        None => {
            text.append(",\"rssi_dbm\":null");
        },
    }
}

fn push_firmware_field(text: &mut String, firmware: &str)
    ensures
        final(text)@ == old(text)@ + firmware_field(firmware@),
{
    text.append(",\"firmware\":\"");
    text.append(firmware);
    text.append("\"");
    proof {
        assert(final(text)@ =~= old(text)@ + firmware_field(firmware@));
    }
}

fn push_mac_field(text: &mut String, mac: Option<[u8; 6]>)
    ensures
        final(text)@ == old(text)@ + mac_field(mac),
{
    match mac {
        Some(mac) => {
            text.append(",\"mac\":\"");
            let mac_text = mac_string(mac);
            text.append(mac_text.as_str());
            text.append("\"");
        },
        None => {},
    }
    proof {
        assert(final(text)@ =~= old(text)@ + mac_field(mac));
    }
}

fn push_ip_field(text: &mut String, ip: Option<[u8; 4]>)
    ensures
        final(text)@ == old(text)@ + ip_field(ip),
{
    match ip {
        Some(octets) => {
            text.append(",\"ip\":\"");
            let ip_text = ipv4_string(octets);
            text.append(ip_text.as_str());
            text.append("\"");
            proof {
                assert(final(text)@ =~= old(text)@ + ip_field(Some(octets)));
            }
        },
        None => {
            text.append(",\"ip\":null");
        },
    }
}

/// Writes the JSON text of a device status.
pub fn status_json(status: &DeviceStatus) -> (text: String)
    ensures
        text@ == status_text(*status),
{
    let mut text = String::new();
    text.append("{\"online\":");
    proof {
        assert(text@ =~= "{\"online\":"@);
    }
    if status.online {
        text.append("true");
    } else {
        text.append("false");
    }
    push_rssi_field(&mut text, status.rssi_dbm);
    text.append(",\"uptime_s\":");
    push_decimal(&mut text, status.uptime_s);
    push_firmware_field(&mut text, status.firmware);
    push_mac_field(&mut text, status.mac);
    push_ip_field(&mut text, status.ip);
    text.append("}");
    text
}

/// The retained status message published on `topic`, when its JSON text
/// fits in the payload capacity.
pub fn build_status_action(topic: &'static str, status: &DeviceStatus) -> (action: Result<
    ApplicationAction,
    CapacityExceeded,
>)
    ensures
        match action {
            Ok(a) => {
                &&& a.topic == topic
                &&& a.qos == QualityOfService::Qos1
                &&& a.retain
                &&& payload_bytes(a.payload) == vstd::utf8::encode_utf8(status_text(*status))
                &&& vstd::utf8::encode_utf8(status_text(*status)).len() <= PAYLOAD_CAPACITY
            },
            Err(_) => vstd::utf8::encode_utf8(status_text(*status)).len() > PAYLOAD_CAPACITY,
        },
{
    let text = status_json(status);
    let payload = Payload::from_text(text.as_str())?;
    Ok(ApplicationAction::new(topic, payload, QualityOfService::Qos1, true))
}

/// The telemetry message published on `topic` for a payload text, when the
/// text fits in the payload capacity.
pub fn build_telemetry_action(topic: &'static str, text: &str) -> (action: Result<
    ApplicationAction,
    CapacityExceeded,
>)
    ensures
        match action {
            Ok(a) => {
                &&& a.topic == topic
                &&& a.qos == QualityOfService::Qos1
                &&& !a.retain
                &&& payload_bytes(a.payload) == text.spec_bytes()
                &&& text.spec_bytes().len() <= PAYLOAD_CAPACITY
            },
            Err(_) => text.spec_bytes().len() > PAYLOAD_CAPACITY,
        },
{
    let payload = Payload::from_text(text)?;
    Ok(ApplicationAction::new(topic, payload, QualityOfService::Qos1, false))
}

} // verus!
