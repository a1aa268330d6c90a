//! Picking the accessory out of what the platform's discovery reports.
use crate::apple_cp::{AppleDeviceModel, VENDOR_ID};
use crate::device::{Device, DeviceConnectionState};
use vstd::prelude::*;

verus! {

/// One entry of the platform's list of connected Bluetooth endpoints:
/// identifier and name as enumerated, and the device behind it where it
/// could be opened.
#[derive(Debug, Clone, PartialEq, Eq)]
pub struct DiscoveredPeripheral {
    pub id: String,
    pub name: String,
    pub device: Option<Device>,
}

#[derive(Debug, Clone, PartialEq, Eq)]
pub struct ConnectedDeviceSummary {
    pub id: String,
    pub name: String,
    pub address: Option<u64>,
    pub likely_airpods: bool,
    pub connectable: bool,
}

/// The lower-case form of a text, as `str::to_lowercase` gives it.
pub uninterp spec fn lowercase_of(text: Seq<char>) -> Seq<char>;

/// `needle` occurs in `hay` as a run of consecutive characters.
pub open spec fn has_substring(hay: Seq<char>, needle: Seq<char>) -> bool {
    exists|i: int|
        0 <= i && i + needle.len() <= hay.len() && #[trigger] hay.subrange(
            i,
            i + needle.len(),
        ) == needle
}

/// A lower-case name that mentions one of the accessory's product lines.
pub open spec fn mentions_apple_audio(lower: Seq<char>) -> bool {
    has_substring(lower, "airpods"@) || has_substring(lower, "beats"@)
}

/// The device is connected and reports `vendor_id` as its vendor.
pub open spec fn is_connected_with_vendor(device: Device, vendor_id: u16) -> bool {
    device.vendor_id == Some(vendor_id) && device.connection_state
        == DeviceConnectionState::Connected
}

/// The summary of one endpoint, given whether its name hints at the
/// accessory.
pub open spec fn summary_of(entry: DiscoveredPeripheral, name_hint: bool) -> ConnectedDeviceSummary {
    ConnectedDeviceSummary {
        id: entry.id,
        name: entry.name,
        address: match entry.device {
            Some(device) => device.address,
            None => None,
        },
        likely_airpods: name_hint || match entry.device {
            Some(device) => device.vendor_id == Some(VENDOR_ID) || device.model
                != AppleDeviceModel::Unknown,
            None => false,
        },
        connectable: entry.device.is_some(),
    }
}

/// `str::to_lowercase`: the result is the lower-case form of the argument,
/// a function of the text alone.
#[verifier::external_body]
fn to_lowercase(text: &str) -> (lower: String)
    ensures
        lower@ == lowercase_of(text@),
{
    text.to_lowercase()
}

/// `str::contains` with a string pattern: true exactly when the pattern
/// occurs in the text as a substring.
#[verifier::external_body]
fn contains(hay: &str, needle: &str) -> (found: bool)
    ensures
        found == has_substring(hay@, needle@),
{
    hay.contains(needle)
}

/// Whether a name that is already in lower case mentions "airpods" or
/// "beats".
pub fn lowercase_name_mentions_apple_audio(lower: &str) -> (hit: bool)
    ensures
        hit == mentions_apple_audio(lower@),
{
    contains(lower, "airpods") || contains(lower, "beats")
}

/// Whether a device name, in any letter case, mentions "airpods" or "beats".
pub fn looks_like_apple_audio_name(name: &str) -> (hit: bool)
    ensures
        hit == mentions_apple_audio(lowercase_of(name@)),
{
    let lower = to_lowercase(name);
    lowercase_name_mentions_apple_audio(lower.as_str())
}

/// The first of `devices` that is connected and reports `vendor_id`, if
/// there is one.
pub fn find_connected_device_with_vendor_id(devices: &Vec<Device>, vendor_id: u16) -> (found:
    Option<Device>)
    ensures
        match found {
            Some(device) => exists|i: int|
                0 <= i < devices@.len() && #[trigger] devices@[i] == device
                    && is_connected_with_vendor(device, vendor_id) && forall|j: int|
                    0 <= j < i ==> !is_connected_with_vendor(#[trigger] devices@[j], vendor_id),
            None => forall|i: int|
                0 <= i < devices@.len() ==> !is_connected_with_vendor(
                    #[trigger] devices@[i],
                    vendor_id,
                ),
        },
{
    let mut i: usize = 0;
    while i < devices.len()
        invariant
            i <= devices@.len(),
            forall|j: int|
                0 <= j < i ==> !is_connected_with_vendor(#[trigger] devices@[j], vendor_id),
        decreases devices@.len() - i,
    {
        let device = &devices[i];
        let vendor_matches = match device.get_vendor_id() {
            Some(v) => v == vendor_id,
            None => false,
        };
        if vendor_matches && device.is_connected() {
            let found = device.clone();
            assert(devices@[i as int] == found);
            return Some(found);
        }
        i += 1;
    }
    None
}

/// One summary per discovered endpoint, in the order given. An endpoint is
/// likely the accessory if its name says so, or if its device reports the
/// accessory's vendor or a known model.
pub fn get_connected_device_summaries(entries: &Vec<DiscoveredPeripheral>) -> (summaries: Vec<
    ConnectedDeviceSummary,
>)
    ensures
        summaries@.len() == entries@.len(),
        forall|i: int|
            0 <= i < entries@.len() ==> #[trigger] summaries@[i] == summary_of(
                entries@[i],
                mentions_apple_audio(lowercase_of(entries@[i].name@)),
            ),
{
    let mut summaries: Vec<ConnectedDeviceSummary> = Vec::new();
    let mut i: usize = 0;
    while i < entries.len()
        invariant
            i <= entries@.len(),
            summaries@.len() == i,
            forall|j: int|
                0 <= j < i ==> #[trigger] summaries@[j] == summary_of(
                    entries@[j],
                    mentions_apple_audio(lowercase_of(entries@[j].name@)),
                ),
        decreases entries@.len() - i,
    {
        let entry = &entries[i];
        let mut summary = ConnectedDeviceSummary {
            id: entry.id.clone(),
            name: entry.name.clone(),
            address: None,
            likely_airpods: looks_like_apple_audio_name(entry.name.as_str()),
            connectable: false,
        };
        if let Some(device) = &entry.device {
            summary.connectable = true;
            summary.address = device.get_address();
            match device.get_vendor_id() {
                Some(vendor_id) => {
                    if vendor_id == VENDOR_ID {
                        summary.likely_airpods = true;
                    }
                },
                None => {},
            }
            if device.get_device_model() != AppleDeviceModel::Unknown {
                summary.likely_airpods = true;
            }
        }
        summaries.push(summary);
        i += 1;
    }
    summaries
}

} // verus!
