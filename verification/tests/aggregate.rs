use std::collections::HashMap;
use winpods::apple_cp::{AppleDeviceModel, ProximityPairingMessage, VENDOR_ID};
use winpods::backend_service::{
    AdvertisementReceivedData, BackendSnapshot, Battery, DeviceProperties, DeviceSnapshot,
    EarDetectionRuntime, Effects, Event, ScanCommand, ServiceState, SettingsState,
    SubscriptionCommand,
};
use winpods::device::{AdapterState, Device, DeviceConnectionState};
use winpods::policy::MediaAction;

fn device(id: &str, model: AppleDeviceModel) -> Device {
    Device {
        id: id.to_string(),
        name: format!("Buds {}", id),
        address: Some(0x1122_3344_5566),
        vendor_id: Some(VENDOR_ID),
        model,
        connection_state: DeviceConnectionState::Connected,
    }
}

fn message(model: AppleDeviceModel, left: u8, left_in: bool, right_in: bool) -> ProximityPairingMessage {
    ProximityPairingMessage {
        model,
        left_battery: Some(left),
        right_battery: Some(90),
        case_battery: None,
        left_charging: false,
        right_charging: false,
        case_charging: false,
        left_in_ear: left_in,
        right_in_ear: right_in,
    }
}

fn advertisement(msg: &ProximityPairingMessage) -> AdvertisementReceivedData {
    let mut map: HashMap<u16, Vec<u8>> = HashMap::new();
    map.insert(VENDOR_ID, msg.to_bytes());
    AdvertisementReceivedData { address: 7, manufacturer_data_map: map, received_at_epoch_ms: 1 }
}

fn properties(model: AppleDeviceModel, left: u8, left_in: bool, right_in: bool) -> DeviceProperties {
    DeviceProperties {
        model,
        left_battery: Some(Battery { level: left, charging: false }),
        right_battery: Some(Battery { level: 90, charging: false }),
        case_battery: None,
        left_in_ear: left_in,
        right_in_ear: right_in,
    }
}

fn nothing() -> Effects {
    Effects {
        scan: ScanCommand::Keep,
        subscriptions: SubscriptionCommand::Keep,
        media: None,
        release_media: false,
        alert: false,
        publish: false,
        probe: false,
    }
}

fn publish() -> Effects {
    Effects { publish: true, ..nothing() }
}

fn attach() -> Effects {
    Effects { subscriptions: SubscriptionCommand::Replace, publish: true, ..nothing() }
}

#[test]
fn default_settings_values() {
    let s = SettingsState::default();
    assert!(s.auto_start);
    assert!(s.auto_update);
    assert_eq!(s.low_battery_threshold, 20u8);
    assert!(s.ear_detection);
}

#[test]
fn missing_or_malformed_settings_give_the_defaults() {
    let expected = SettingsState {
        auto_start: true,
        auto_update: true,
        low_battery_threshold: 20,
        ear_detection: true,
    };
    assert_eq!(SettingsState::load(None), expected);
    let out_of_range = SettingsState {
        auto_start: false,
        auto_update: false,
        low_battery_threshold: 101,
        ear_detection: false,
    };
    assert_eq!(SettingsState::load(Some(out_of_range)), expected);
}

#[test]
fn readable_settings_are_kept() {
    let given = SettingsState {
        auto_start: false,
        auto_update: true,
        low_battery_threshold: 100,
        ear_detection: false,
    };
    assert_eq!(SettingsState::load(Some(given)), given);
    let off = SettingsState { low_battery_threshold: 0, ..given };
    assert_eq!(SettingsState::load(Some(off)), off);
}

#[test]
fn battery_new_and_default() {
    assert_eq!(Battery::new(70, true), Battery { level: 70, charging: true });
    assert_eq!(Battery::default(), Battery { level: 0, charging: false });
}

#[test]
fn initial_state() {
    let s = ServiceState::new(SettingsState::default());
    assert_eq!(s.adapter_state, AdapterState::Off);
    assert!(!s.scanning);
    assert_eq!(s.current_device, None);
    assert_eq!(s.current_properties, None);
    assert!(!s.low_battery_sent);
    assert_eq!(s.ear_runtime, EarDetectionRuntime { paused: false, pending: None });
    assert!(s.should_search());
}

#[test]
fn from_advertisement_needs_the_vendor_payload() {
    let msg = ProximityPairingMessage {
        model: AppleDeviceModel::AirPodsPro,
        left_battery: None,
        right_battery: Some(60),
        case_battery: Some(40),
        left_charging: true,
        right_charging: false,
        case_charging: true,
        left_in_ear: true,
        right_in_ear: false,
    };
    let data = advertisement(&msg);
    let expected = DeviceProperties {
        model: AppleDeviceModel::AirPodsPro,
        left_battery: None,
        right_battery: Some(Battery { level: 60, charging: false }),
        case_battery: Some(Battery { level: 40, charging: true }),
        left_in_ear: true,
        right_in_ear: false,
    };
    assert_eq!(DeviceProperties::from_advertisement(&data, &msg), Some(expected));
    let mut other: HashMap<u16, Vec<u8>> = HashMap::new();
    other.insert(6, msg.to_bytes());
    let foreign =
        AdvertisementReceivedData { address: 7, manufacturer_data_map: other, received_at_epoch_ms: 1 };
    assert_eq!(DeviceProperties::from_advertisement(&foreign, &msg), None);
}

#[test]
fn unknown_levels_are_left_out_and_known_zero_is_kept() {
    let msg = ProximityPairingMessage {
        model: AppleDeviceModel::AirPods3,
        left_battery: None,
        right_battery: None,
        case_battery: None,
        left_charging: true,
        right_charging: false,
        case_charging: true,
        left_in_ear: false,
        right_in_ear: false,
    };
    let props = DeviceProperties::from_advertisement(&advertisement(&msg), &msg).unwrap();
    assert_eq!(props.left_battery, None);
    assert_eq!(props.right_battery, None);
    assert_eq!(props.case_battery, None);
    let zero = ProximityPairingMessage {
        left_battery: Some(0),
        right_battery: Some(0),
        case_battery: Some(0),
        ..msg
    };
    let props = DeviceProperties::from_advertisement(&advertisement(&zero), &zero).unwrap();
    assert_eq!(props.left_battery, Some(Battery { level: 0, charging: true }));
    assert_eq!(props.right_battery, Some(Battery { level: 0, charging: false }));
    assert_eq!(props.case_battery, Some(Battery { level: 0, charging: true }));
}

#[test]
fn unknown_left_level_raises_no_alert() {
    let mut s = ServiceState::new(SettingsState::default());
    s.attach_device(device("a", AppleDeviceModel::AirPodsPro));
    let msg = ProximityPairingMessage {
        model: AppleDeviceModel::AirPodsPro,
        left_battery: None,
        right_battery: Some(100),
        case_battery: None,
        left_charging: false,
        right_charging: false,
        case_charging: false,
        left_in_ear: true,
        right_in_ear: true,
    };
    let effects = s.process_advertisement(&advertisement(&msg));
    assert_eq!(effects, publish());
    assert!(!s.low_battery_sent);
    let kept = s.current_properties.unwrap();
    assert_eq!(kept.left_battery, None);
    assert_eq!(kept.right_battery, Some(Battery { level: 100, charging: false }));
    // a known level of 0 does raise it
    let empty = ProximityPairingMessage { left_battery: Some(0), ..msg };
    let effects = s.process_advertisement(&advertisement(&empty));
    assert!(effects.alert);
    assert!(s.low_battery_sent);
    // and an unknown level after that clears the flag again
    let effects = s.process_advertisement(&advertisement(&msg));
    assert!(!effects.alert);
    assert!(!s.low_battery_sent);
}

#[test]
fn out_of_range_settings_are_not_taken() {
    let wild = SettingsState {
        auto_start: false,
        auto_update: false,
        low_battery_threshold: 150,
        ear_detection: false,
    };
    let s = ServiceState::new(wild);
    assert_eq!(s.settings, SettingsState::default());
    let mut s = ServiceState::new(SettingsState::default());
    s.attach_device(device("a", AppleDeviceModel::AirPodsPro));
    let before = s.clone();
    assert_eq!(s.update_settings(wild), nothing());
    assert_eq!(s, before);
    assert_eq!(s.handle_event(Event::SettingsUpdated(wild)), nothing());
    assert_eq!(s, before);
    let edge = SettingsState { low_battery_threshold: 100, ..wild };
    assert_eq!(s.update_settings(edge), publish());
    assert_eq!(s.settings, edge);
    // with the highest threshold a full, non-charging bud is low
    let full = message(AppleDeviceModel::AirPodsPro, 100, true, true);
    assert!(s.process_advertisement(&advertisement(&full)).alert);
}

#[test]
fn accepted_advertisement_updates_properties() {
    let mut s = ServiceState::new(SettingsState::default());
    s.attach_device(device("a", AppleDeviceModel::AirPodsPro));
    let msg = message(AppleDeviceModel::AirPodsPro, 80, true, true);
    let effects = s.process_advertisement(&advertisement(&msg));
    assert_eq!(effects, publish());
    assert_eq!(s.current_properties, Some(properties(AppleDeviceModel::AirPodsPro, 80, true, true)));
    assert!(!s.low_battery_sent);
    assert!(!s.ear_runtime.paused);
}

#[test]
fn advertisement_without_device_is_dropped() {
    let mut s = ServiceState::new(SettingsState::default());
    let before = s.clone();
    let msg = message(AppleDeviceModel::AirPodsPro, 10, false, false);
    assert_eq!(s.process_advertisement(&advertisement(&msg)), nothing());
    assert_eq!(s, before);
}

#[test]
fn advertisement_for_unconnected_device_is_dropped() {
    let mut s = ServiceState::new(SettingsState::default());
    let mut d = device("a", AppleDeviceModel::AirPodsPro);
    d.connection_state = DeviceConnectionState::Connecting;
    s.attach_device(d);
    let before = s.clone();
    let msg = message(AppleDeviceModel::AirPodsPro, 10, false, false);
    assert_eq!(s.process_advertisement(&advertisement(&msg)), nothing());
    assert_eq!(s, before);
}

#[test]
fn undecodable_advertisement_is_dropped() {
    let mut s = ServiceState::new(SettingsState::default());
    s.attach_device(device("a", AppleDeviceModel::AirPodsPro));
    let before = s.clone();
    let mut map: HashMap<u16, Vec<u8>> = HashMap::new();
    map.insert(VENDOR_ID, vec![7u8, 1, 2]);
    let short =
        AdvertisementReceivedData { address: 7, manufacturer_data_map: map, received_at_epoch_ms: 1 };
    assert_eq!(s.process_advertisement(&short), nothing());
    let mut map: HashMap<u16, Vec<u8>> = HashMap::new();
    map.insert(VENDOR_ID, vec![0x10u8; 27]);
    let other_kind =
        AdvertisementReceivedData { address: 7, manufacturer_data_map: map, received_at_epoch_ms: 1 };
    assert_eq!(s.process_advertisement(&other_kind), nothing());
    let empty = AdvertisementReceivedData {
        address: 7,
        manufacturer_data_map: HashMap::new(),
        received_at_epoch_ms: 1,
    };
    assert_eq!(s.process_advertisement(&empty), nothing());
    assert_eq!(s, before);
}

#[test]
fn model_mismatch_leaves_properties_unchanged() {
    let mut s = ServiceState::new(SettingsState::default());
    s.attach_device(device("a", AppleDeviceModel::AirPodsPro));
    let own = message(AppleDeviceModel::AirPodsPro, 80, true, true);
    s.process_advertisement(&advertisement(&own));
    let before = s.clone();
    let foreign = message(AppleDeviceModel::AirPods2, 10, false, false);
    assert_eq!(s.process_advertisement(&advertisement(&foreign)), nothing());
    assert_eq!(s, before);
    assert_eq!(s.current_properties, Some(properties(AppleDeviceModel::AirPodsPro, 80, true, true)));
}

#[test]
fn low_battery_scenario_alerts_twice() {
    let mut s = ServiceState::new(SettingsState::default());
    assert_eq!(s.settings.low_battery_threshold, 20u8);
    s.attach_device(device("a", AppleDeviceModel::AirPodsPro));
    let mut alerts: u32 = 0;
    let levels: Vec<u8> = vec![10, 30, 10];
    let mut flags: Vec<bool> = Vec::new();
    for level in levels.iter() {
        let msg = message(AppleDeviceModel::AirPodsPro, *level, true, true);
        let effects = s.process_advertisement(&advertisement(&msg));
        assert!(effects.publish);
        if effects.alert {
            alerts += 1;
        }
        flags.push(s.low_battery_sent);
    }
    assert_eq!(alerts, 2u32);
    assert_eq!(flags, vec![true, false, true]);
}

#[test]
fn repeated_low_reading_alerts_once() {
    let mut s = ServiceState::new(SettingsState::default());
    s.attach_device(device("a", AppleDeviceModel::AirPodsPro));
    let msg = message(AppleDeviceModel::AirPodsPro, 10, true, true);
    assert!(s.process_advertisement(&advertisement(&msg)).alert);
    assert!(!s.process_advertisement(&advertisement(&msg)).alert);
    assert!(s.low_battery_sent);
}

#[test]
fn threshold_zero_never_alerts_and_clears_the_flag() {
    let mut s = ServiceState::new(SettingsState::default());
    s.attach_device(device("a", AppleDeviceModel::AirPodsPro));
    let msg = message(AppleDeviceModel::AirPodsPro, 10, true, true);
    assert!(s.process_advertisement(&advertisement(&msg)).alert);
    let off = SettingsState { low_battery_threshold: 0, ..s.settings };
    assert_eq!(s.update_settings(off), publish());
    // no retroactive change
    assert!(s.low_battery_sent);
    let effects = s.process_advertisement(&advertisement(&msg));
    assert!(!effects.alert);
    assert!(effects.publish);
    assert!(!s.low_battery_sent);
}

#[test]
fn ear_detection_pauses_and_resumes_on_edges() {
    let mut s = ServiceState::new(SettingsState::default());
    s.attach_device(device("a", AppleDeviceModel::AirPodsPro));
    let out = message(AppleDeviceModel::AirPodsPro, 80, true, false);
    let effects = s.process_advertisement(&advertisement(&out));
    assert_eq!(effects.media, Some(MediaAction::Pause));
    assert!(!s.ear_runtime.paused);
    // the pause fails: flag unchanged, the next reading asks again
    s.media_action_finished(false);
    assert!(!s.ear_runtime.paused);
    let effects = s.process_advertisement(&advertisement(&out));
    assert_eq!(effects.media, Some(MediaAction::Pause));
    s.media_action_finished(true);
    assert!(s.ear_runtime.paused);
    // same reading again: nothing to do
    let effects = s.process_advertisement(&advertisement(&out));
    assert_eq!(effects.media, None);
    let both = message(AppleDeviceModel::AirPodsPro, 80, true, true);
    let effects = s.process_advertisement(&advertisement(&both));
    assert_eq!(effects.media, Some(MediaAction::Resume));
    s.media_action_finished(true);
    assert!(!s.ear_runtime.paused);
    assert_eq!(s.process_advertisement(&advertisement(&both)).media, None);
}

#[test]
fn ear_detection_off_asks_for_nothing() {
    let settings = SettingsState { ear_detection: false, ..SettingsState::default() };
    let mut s = ServiceState::new(settings);
    s.attach_device(device("a", AppleDeviceModel::AirPodsPro));
    let out = message(AppleDeviceModel::AirPodsPro, 80, false, false);
    let effects = s.process_advertisement(&advertisement(&out));
    assert_eq!(effects.media, None);
    assert!(effects.publish);
}

#[test]
fn media_outcome_without_pending_action_changes_nothing() {
    let mut s = ServiceState::new(SettingsState::default());
    s.media_action_finished(true);
    assert!(!s.ear_runtime.paused);
    s.attach_device(device("a", AppleDeviceModel::AirPodsPro));
    let before = s.clone();
    s.media_action_finished(true);
    assert_eq!(s, before);
}

#[test]
fn pending_action_is_tracked_until_its_outcome() {
    let mut s = ServiceState::new(SettingsState::default());
    s.attach_device(device("a", AppleDeviceModel::AirPodsPro));
    let out = message(AppleDeviceModel::AirPodsPro, 80, false, true);
    s.process_advertisement(&advertisement(&out));
    assert_eq!(s.ear_runtime, EarDetectionRuntime { paused: false, pending: Some(MediaAction::Pause) });
    s.media_action_finished(true);
    assert_eq!(s.ear_runtime, EarDetectionRuntime { paused: true, pending: None });
    // a second report for the same action changes nothing
    s.media_action_finished(true);
    assert_eq!(s.ear_runtime, EarDetectionRuntime { paused: true, pending: None });
    let both = message(AppleDeviceModel::AirPodsPro, 80, true, true);
    s.process_advertisement(&advertisement(&both));
    assert_eq!(s.ear_runtime, EarDetectionRuntime { paused: true, pending: Some(MediaAction::Resume) });
    // detaching drops what was pending
    s.detach();
    assert_eq!(s.ear_runtime, EarDetectionRuntime { paused: false, pending: None });
    s.media_action_finished(true);
    assert_eq!(s.ear_runtime, EarDetectionRuntime { paused: false, pending: None });
}

#[test]
fn second_attach_replaces_the_first() {
    let mut s = ServiceState::new(SettingsState::default());
    let a = device("a", AppleDeviceModel::AirPodsPro);
    let b = device("b", AppleDeviceModel::AirPods2);
    assert_eq!(s.attach_device(a.clone()), attach());
    let low = message(AppleDeviceModel::AirPodsPro, 10, false, true);
    let effects = s.process_advertisement(&advertisement(&low));
    assert!(effects.alert);
    s.media_action_finished(true);
    assert!(s.low_battery_sent && s.ear_runtime.paused && s.current_properties.is_some());

    assert_eq!(s.attach_device(b.clone()), attach());
    assert_eq!(s.current_device, Some(b.clone()));
    assert_eq!(s.current_properties, None);
    assert!(!s.low_battery_sent);
    assert!(!s.ear_runtime.paused);

    let before = s.clone();
    // events that still refer to the first device are dropped
    assert_eq!(s.device_connection_changed(&a.id, DeviceConnectionState::Disconnected), nothing());
    assert_eq!(s.device_name_changed(&a.id, "Old".to_string()), nothing());
    assert_eq!(s.process_advertisement(&advertisement(&low)), nothing());
    assert_eq!(s, before);
}

#[test]
fn detach_clears_device_properties_and_pause() {
    let mut s = ServiceState::new(SettingsState::default());
    s.attach_device(device("a", AppleDeviceModel::AirPodsPro));
    let low = message(AppleDeviceModel::AirPodsPro, 10, false, true);
    s.process_advertisement(&advertisement(&low));
    s.media_action_finished(true);
    let effects = s.detach();
    assert_eq!(
        effects,
        Effects {
            subscriptions: SubscriptionCommand::Release,
            release_media: true,
            publish: true,
            probe: true,
            ..nothing()
        }
    );
    assert_eq!(s.current_device, None);
    assert_eq!(s.current_properties, None);
    assert!(!s.ear_runtime.paused);
    // a late broadcast does not bring the state back
    assert_eq!(s.process_advertisement(&advertisement(&low)), nothing());
    assert_eq!(s.current_properties, None);
}

#[test]
fn disconnect_notification_detaches() {
    let mut s = ServiceState::new(SettingsState::default());
    let a = device("a", AppleDeviceModel::AirPodsPro);
    s.attach_device(a.clone());
    let effects = s.device_connection_changed(&a.id, DeviceConnectionState::Disconnecting);
    assert_eq!(effects, publish());
    assert_eq!(
        s.current_device.as_ref().map(|d| d.connection_state),
        Some(DeviceConnectionState::Disconnecting)
    );
    assert!(s.should_search());
    let effects = s.device_connection_changed(&a.id, DeviceConnectionState::Disconnected);
    assert!(effects.release_media && effects.publish && effects.probe);
    assert_eq!(effects.subscriptions, SubscriptionCommand::Release);
    assert_eq!(s.current_device, None);
}

#[test]
fn name_change_updates_the_attached_device() {
    let mut s = ServiceState::new(SettingsState::default());
    let a = device("a", AppleDeviceModel::AirPodsPro);
    s.attach_device(a.clone());
    assert_eq!(s.device_name_changed(&a.id, "Renamed".to_string()), publish());
    let expected = Device { name: "Renamed".to_string(), ..a };
    assert_eq!(s.current_device, Some(expected));
}

#[test]
fn adapter_state_drives_scanning() {
    let mut s = ServiceState::new(SettingsState::default());
    let e = s.set_adapter_state(AdapterState::On);
    assert_eq!(e, Effects { scan: ScanCommand::Start, publish: true, ..nothing() });
    assert!(s.scanning);
    assert_eq!(s.adapter_state, AdapterState::On);
    let e = s.set_adapter_state(AdapterState::On);
    assert_eq!(e.scan, ScanCommand::Keep);
    assert!(s.scanning);
    let e = s.set_adapter_state(AdapterState::Off);
    assert_eq!(e.scan, ScanCommand::Stop);
    assert!(!s.scanning);
    let e = s.set_adapter_state(AdapterState::Unavailable);
    assert_eq!(e.scan, ScanCommand::Keep);
    assert!(!s.scanning);
    assert_eq!(s.adapter_state, AdapterState::Unavailable);
    s.set_adapter_state(AdapterState::On);
    let e = s.set_adapter_state(AdapterState::Unavailable);
    assert_eq!(e.scan, ScanCommand::Stop);
    assert!(!s.scanning);
}

#[test]
fn autodetect_attaches_only_when_needed() {
    let mut s = ServiceState::new(SettingsState::default());
    assert_eq!(s.try_autodetect(None), nothing());
    assert_eq!(s.current_device, None);
    let a = device("a", AppleDeviceModel::AirPodsPro);
    let b = device("b", AppleDeviceModel::AirPods2);
    assert_eq!(s.try_autodetect(Some(a.clone())), attach());
    assert_eq!(s.current_device, Some(a.clone()));
    assert!(!s.should_search());
    // attached and connected: a further probe is a no-op
    let before = s.clone();
    assert_eq!(s.try_autodetect(Some(b.clone())), nothing());
    assert_eq!(s, before);
    // attached but no longer connected: the probe replaces it
    s.device_connection_changed(&a.id, DeviceConnectionState::Disconnecting);
    assert_eq!(s.try_autodetect(Some(b.clone())), attach());
    assert_eq!(s.current_device, Some(b));
}

#[test]
fn update_settings_replaces_settings_only() {
    let mut s = ServiceState::new(SettingsState::default());
    s.attach_device(device("a", AppleDeviceModel::AirPodsPro));
    let before = s.clone();
    let new = SettingsState {
        auto_start: false,
        auto_update: false,
        low_battery_threshold: 50,
        ear_detection: false,
    };
    assert_eq!(s.update_settings(new), publish());
    assert_eq!(s.settings, new);
    assert_eq!(s, ServiceState { settings: new, ..before });
}

#[test]
fn events_dispatch_to_the_transitions() {
    let mut s = ServiceState::new(SettingsState::default());
    let a = device("a", AppleDeviceModel::AirPodsPro);
    let e = s.handle_event(Event::AdapterChanged(AdapterState::On));
    assert_eq!(e.scan, ScanCommand::Start);
    let e = s.handle_event(Event::AutodetectProbed(Some(a.clone())));
    assert_eq!(e, attach());
    let out = message(AppleDeviceModel::AirPodsPro, 10, false, true);
    let e = s.handle_event(Event::AdvertisementReceived(advertisement(&out)));
    assert_eq!(
        e,
        Effects { media: Some(MediaAction::Pause), alert: true, publish: true, ..nothing() }
    );
    let e = s.handle_event(Event::MediaActionFinished { succeeded: true });
    assert_eq!(e, nothing());
    assert!(s.ear_runtime.paused);
    let e = s.handle_event(Event::DeviceNameChanged {
        device_id: "a".to_string(),
        name: "New".to_string(),
    });
    assert_eq!(e, publish());
    let e = s.handle_event(Event::SettingsUpdated(SettingsState {
        low_battery_threshold: 5,
        ..SettingsState::default()
    }));
    assert_eq!(e, publish());
    assert_eq!(s.settings.low_battery_threshold, 5u8);
    let e = s.handle_event(Event::DeviceConnectionChanged {
        device_id: "a".to_string(),
        state: DeviceConnectionState::Disconnected,
    });
    assert!(e.probe && e.release_media && e.publish);
    assert_eq!(s.current_device, None);
    assert!(!s.ear_runtime.paused);
    assert!(s.scanning);
}

#[test]
fn snapshot_copies_the_state() {
    let mut s = ServiceState::new(SettingsState::default());
    let empty = s.snapshot(5);
    assert_eq!(
        empty,
        BackendSnapshot {
            updated_at_epoch_ms: 5,
            adapter_state: AdapterState::Off,
            device: None,
            properties: None,
            settings: SettingsState::default(),
            low_battery_alerted: false,
        }
    );
    let mut a = device("a", AppleDeviceModel::AirPodsPro);
    a.address = None;
    s.attach_device(a);
    s.set_adapter_state(AdapterState::On);
    let msg = message(AppleDeviceModel::AirPodsPro, 10, true, true);
    s.process_advertisement(&advertisement(&msg));
    let snap = s.snapshot(1234567890123);
    assert_eq!(
        snap,
        BackendSnapshot {
            updated_at_epoch_ms: 1234567890123,
            adapter_state: AdapterState::On,
            device: Some(DeviceSnapshot {
                device_id: "a".to_string(),
                name: "Buds a".to_string(),
                address: 0,
                model: AppleDeviceModel::AirPodsPro,
                connection_state: DeviceConnectionState::Connected,
            }),
            properties: Some(properties(AppleDeviceModel::AirPodsPro, 10, true, true)),
            settings: SettingsState::default(),
            low_battery_alerted: true,
        }
    );
}
