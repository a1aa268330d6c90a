//! What holds of the state's transitions taken together.
use crate::apple_cp::{decode, VENDOR_ID};
use crate::backend_service::{
    accepted_properties, advertisement_effects, after_advertisement, after_connection_change,
    after_event, after_media_action, after_name_change, after_probe, attached,
    connection_effects, detached, no_effects, probe_effects, wants_device,
    AdvertisementReceivedData, Event, ServiceState,
};
use crate::device::{Device, DeviceConnectionState};
use vstd::prelude::*;

verus! {

/// Every event takes a consistent state to a consistent state: no event
/// leaves properties without a device of their model, a pause or a pending
/// action without a device, broadcast intake out of step with the adapter,
/// or a threshold out of range.
pub proof fn lemma_event_preserves_wf(s: ServiceState, event: Event)
    requires
        s.wf(),
    ensures
        after_event(s, event).wf(),
{
}

/// Attaching a second device without detaching the first leaves exactly the
/// second attached, with properties, both flags and the pending action
/// cleared: what was attached before leaves no trace.
pub proof fn lemma_reattach_replaces(s: ServiceState, first: Device, second: Device)
    ensures
        ({
            let t = attached(attached(s, first), second);
            &&& t == attached(s, second)
            &&& t.current_device == Some(second)
            &&& t.current_properties.is_none()
            &&& !t.low_battery_sent
            &&& !t.ear_runtime.paused
            &&& t.ear_runtime.pending.is_none()
        }),
{
}

/// Once a device has been replaced, a name or connection event that still
/// names it changes nothing and asks for nothing.
pub proof fn lemma_replaced_device_events_dropped(
    s: ServiceState,
    first: Device,
    second: Device,
    name: String,
    state: DeviceConnectionState,
)
    requires
        first.id@ != second.id@,
    ensures
        ({
            let t = attached(attached(s, first), second);
            &&& after_name_change(t, first.id, name) == t
            &&& after_connection_change(t, first.id, state) == t
            &&& connection_effects(t, first.id, state) == no_effects()
        }),
{
}

/// A broadcast whose message names another model than the attached device's
/// is dropped: the state, its properties included, stays as it was and
/// nothing is asked of the caller.
pub proof fn lemma_model_mismatch_rejected(s: ServiceState, data: AdvertisementReceivedData)
    requires
        s.current_device.is_some(),
        data.manufacturer_data_map@.contains_key(VENDOR_ID),
        decode(data.manufacturer_data_map@[VENDOR_ID]@) is Ok,
        decode(data.manufacturer_data_map@[VENDOR_ID]@)->Ok_0.model
            != s.current_device.unwrap().model,
    ensures
        after_advertisement(s, data) == s,
        advertisement_effects(s, data) == no_effects(),
{
}

/// A broadcast that arrives after the device was detached, or while the
/// attached device is not connected, or that cannot be read, is dropped.
pub proof fn lemma_stale_advertisement_dropped(s: ServiceState, data: AdvertisementReceivedData)
    ensures
        after_advertisement(detached(s), data) == detached(s),
        wants_device(s) ==> after_advertisement(s, data) == s,
        !data.manufacturer_data_map@.contains_key(VENDOR_ID) ==> after_advertisement(s, data) == s,
        data.manufacturer_data_map@.contains_key(VENDOR_ID) && decode(
            data.manufacturer_data_map@[VENDOR_ID]@,
        ) is Err ==> after_advertisement(s, data) == s,
{
}

/// Accepted properties always carry the model of the attached, connected
/// device.
pub proof fn lemma_accepted_properties_match(device: Option<Device>, data: AdvertisementReceivedData)
    requires
        accepted_properties(device, data).is_some(),
    ensures
        device.is_some(),
        device.unwrap().connected(),
        accepted_properties(device, data).unwrap().model == device.unwrap().model,
{
}

/// A reading acts once: when the same accepted broadcast arrives twice and
/// the media action that the first one asked for, if any, succeeded in
/// between, the second asks for no media action and raises no alert, and the
/// flags stay as the first left them.
pub proof fn lemma_same_reading_acts_once(s: ServiceState, data: AdvertisementReceivedData)
    requires
        accepted_properties(s.current_device, data).is_some(),
    ensures
        ({
            let first = advertisement_effects(s, data);
            let s1 = after_advertisement(s, data);
            let s2 = after_media_action(s1, true);
            let second = advertisement_effects(s2, data);
            &&& s1.ear_runtime.pending == first.media
            &&& second.media.is_none()
            &&& !second.alert
            &&& after_advertisement(s2, data) == s2
        }),
{
}

/// The paused flag moves only on an edge: an event changes it only by
/// reporting that the pending action succeeded, or by attaching or detaching
/// a device, which clears it. And the action that a broadcast leaves pending
/// is the one that ear detection asks for, so none is pending while the
/// setting is off.
pub proof fn lemma_pause_changes_only_on_edges(s: ServiceState, event: Event)
    requires
        s.wf(),
    ensures
        ({
            let t = after_event(s, event);
            &&& t.ear_runtime.paused != s.ear_runtime.paused ==> {
                ||| event == (Event::MediaActionFinished { succeeded: true })
                    && s.ear_runtime.pending.is_some()
                ||| !t.ear_runtime.paused && (event is AutodetectProbed
                    || event is DeviceConnectionChanged)
            }
            &&& (event is AdvertisementReceived && !s.settings.ear_detection)
                ==> t.ear_runtime.pending.is_none() || t == s
        }),
{
}

/// The alert flag moves only on an edge: an event changes it only by an
/// accepted broadcast, or by attaching a device, which clears it; and an
/// accepted broadcast leaves it clear while the threshold is 0.
pub proof fn lemma_alert_changes_only_on_edges(s: ServiceState, event: Event)
    ensures
        ({
            let t = after_event(s, event);
            &&& t.low_battery_sent != s.low_battery_sent ==> {
                ||| event is AdvertisementReceived && accepted_properties(
                    s.current_device,
                    event->AdvertisementReceived_0,
                ).is_some()
                ||| !t.low_battery_sent && event is AutodetectProbed
            }
            &&& (event is AdvertisementReceived && s.settings.low_battery_threshold == 0)
                ==> !t.low_battery_sent || t == s
        }),
{
}

/// A bud whose level is not known is kept without a battery, never at level
/// 0, and does not count as low: a broadcast in which neither bud's level is
/// known raises no alert and leaves the alert flag clear.
pub proof fn lemma_unknown_level_is_not_low(s: ServiceState, data: AdvertisementReceivedData)
    requires
        accepted_properties(s.current_device, data).is_some(),
    ensures
        ({
            let msg = decode(data.manufacturer_data_map@[VENDOR_ID]@)->Ok_0;
            let props = accepted_properties(s.current_device, data).unwrap();
            &&& msg.left_battery.is_none() <==> props.left_battery.is_none()
            &&& msg.right_battery.is_none() <==> props.right_battery.is_none()
            &&& msg.case_battery.is_none() <==> props.case_battery.is_none()
            &&& msg.left_battery.is_none() && msg.right_battery.is_none() ==> {
                &&& !advertisement_effects(s, data).alert
                &&& !after_advertisement(s, data).low_battery_sent
            }
        }),
{
}

/// Probing is idempotent: while a connected device is attached a probe
/// changes nothing, whatever it found; so a second probe right after one
/// that attached a connected device is a no-op.
pub proof fn lemma_probe_idempotent(s: ServiceState, found: Device, again: Option<Device>)
    ensures
        !wants_device(s) ==> after_probe(s, again) == s && probe_effects(s, again) == no_effects(),
        found.connected() ==> after_probe(after_probe(s, Some(found)), again) == after_probe(
            s,
            Some(found),
        ),
{
}

} // verus!
