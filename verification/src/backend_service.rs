//! The service's single authoritative state and the transitions that events
//! cause in it. Every transition is one call: it takes the state and an event
//! and leaves the next state and the [`Effects`] that the caller has to carry
//! out (start or stop scanning, pause or resume media, publish a snapshot).
use crate::apple_cp::{
    decode, level_representable, proximity_pairing_message_from_bytes, AppleDeviceModel,
    ProximityPairingMessage, VENDOR_ID,
};
use crate::device::{AdapterState, Device, DeviceConnectionState};
use crate::policy::{
    bud_low, ear_action, ear_detection_policy, low_battery_decision, low_battery_policy,
    paused_after, settle_ear_action, MediaAction,
};
use std::collections::HashMap;
use vstd::prelude::*;

verus! {

broadcast use vstd::std_specs::hash::group_hash_axioms;

/// Highest low-battery threshold that a settings document may carry.
pub const MAX_THRESHOLD: u8 = 100;

#[derive(Debug, Clone, Copy, PartialEq, Eq)]
pub struct Battery {
    pub level: u8,
    pub charging: bool,
}

impl Battery {
    pub fn new(level: u8, charging: bool) -> (battery: Self)
        ensures
            battery == (Battery { level, charging }),
    {
        Self { level, charging }
    }
}

impl Default for Battery {
    fn default() -> (battery: Self)
        ensures
            battery == (Battery { level: 0, charging: false }),
    {
        Battery { level: 0, charging: false }
    }
}

/// What the state keeps of a proximity pairing message.
#[derive(Debug, Clone, Copy, PartialEq, Eq)]
pub struct DeviceProperties {
    pub model: AppleDeviceModel,
    pub left_battery: Option<Battery>,
    pub right_battery: Option<Battery>,
    pub case_battery: Option<Battery>,
    pub left_in_ear: bool,
    pub right_in_ear: bool,
}

/// One received broadcast: who sent it, the manufacturer-specific payloads
/// by vendor identifier, and when it came in.
#[derive(Debug, Clone)]
pub struct AdvertisementReceivedData {
    pub address: u64,
    pub manufacturer_data_map: HashMap<u16, Vec<u8>>,
    pub received_at_epoch_ms: u64,
}

#[derive(Debug, Clone, Copy, PartialEq, Eq)]
pub struct SettingsState {
    pub auto_start: bool,
    pub auto_update: bool,
    pub low_battery_threshold: u8,
    pub ear_detection: bool,
}

/// What ear detection remembers between broadcasts.
#[derive(Debug, Clone, Copy, PartialEq, Eq)]
pub struct EarDetectionRuntime {
    /// Media is held paused on behalf of the attached device.
    pub paused: bool,
    /// The action that the last accepted broadcast asked for and whose
    /// outcome has not been reported yet.
    pub pending: Option<MediaAction>,
}

/// The aggregate. `scanning` records whether broadcast intake is running.
#[derive(Debug, Clone, PartialEq, Eq)]
pub struct ServiceState {
    pub adapter_state: AdapterState,
    pub scanning: bool,
    pub current_device: Option<Device>,
    pub current_properties: Option<DeviceProperties>,
    pub settings: SettingsState,
    pub low_battery_sent: bool,
    pub ear_runtime: EarDetectionRuntime,
}

#[derive(Debug, Clone, PartialEq, Eq)]
pub struct DeviceSnapshot {
    pub device_id: String,
    pub name: String,
    pub address: u64,
    pub model: AppleDeviceModel,
    pub connection_state: DeviceConnectionState,
}

/// The published copy of the state.
#[derive(Debug, Clone, PartialEq, Eq)]
pub struct BackendSnapshot {
    pub updated_at_epoch_ms: u128,
    pub adapter_state: AdapterState,
    pub device: Option<DeviceSnapshot>,
    pub properties: Option<DeviceProperties>,
    pub settings: SettingsState,
    pub low_battery_alerted: bool,
}

/// What to do about broadcast intake.
#[derive(Debug, Clone, Copy, PartialEq, Eq, Structural)]
pub enum ScanCommand {
    Keep,
    Start,
    Stop,
}

/// What to do about the name and connection notifications of a device.
#[derive(Debug, Clone, Copy, PartialEq, Eq, Structural)]
pub enum SubscriptionCommand {
    Keep,
    /// Release the notifications held for any earlier device and register
    /// for the device that is attached now.
    Replace,
    /// Release the notifications held.
    Release,
}

/// What the caller has to carry out after a transition.
#[derive(Debug, Clone, Copy, PartialEq, Eq)]
pub struct Effects {
    /// Start or stop broadcast intake.
    pub scan: ScanCommand,
    /// Register for or release a device's notifications.
    pub subscriptions: SubscriptionCommand,
    /// Hand this action to the media controller and report how it went.
    pub media: Option<MediaAction>,
    /// Let go of any pause held on the media controller.
    pub release_media: bool,
    /// Raise the low-battery alert.
    pub alert: bool,
    /// Publish a snapshot of the state.
    pub publish: bool,
    /// Look for a connected accessory again.
    pub probe: bool,
}

/// Everything that can happen to the service, as one serialized stream.
#[derive(Debug, Clone)]
pub enum Event {
    AdapterChanged(AdapterState),
    AdvertisementReceived(AdvertisementReceivedData),
    DeviceNameChanged { device_id: String, name: String },
    DeviceConnectionChanged { device_id: String, state: DeviceConnectionState },
    AutodetectProbed(Option<Device>),
    MediaActionFinished { succeeded: bool },
    SettingsUpdated(SettingsState),
}

pub open spec fn default_settings() -> SettingsState {
    SettingsState {
        auto_start: true,
        auto_update: true,
        low_battery_threshold: 20,
        ear_detection: true,
    }
}

/// What is kept of one battery: nothing where its level is not known.
pub open spec fn battery_of(level: Option<u8>, charging: bool) -> Option<Battery> {
    match level {
        Some(l) => Some(Battery { level: l, charging }),
        None => None,
    }
}

/// The properties kept of a message. A battery whose level is not known is
/// left out, never kept as level 0.
pub open spec fn properties_of(msg: ProximityPairingMessage) -> DeviceProperties {
    DeviceProperties {
        model: msg.model,
        left_battery: battery_of(msg.left_battery, msg.left_charging),
        right_battery: battery_of(msg.right_battery, msg.right_charging),
        case_battery: battery_of(msg.case_battery, msg.case_charging),
        left_in_ear: msg.left_in_ear,
        right_in_ear: msg.right_in_ear,
    }
}

pub open spec fn level_of(battery: Option<Battery>) -> Option<u8> {
    match battery {
        Some(b) => Some(b.level),
        None => None,
    }
}

pub open spec fn charging_of(battery: Option<Battery>) -> bool {
    match battery {
        Some(b) => b.charging,
        None => false,
    }
}

/// The properties that a broadcast contributes while `device` is attached:
/// none unless it carries a readable message under the accessory's vendor
/// identifier, a device is attached and connected, and the message's model
/// is the device's.
pub open spec fn accepted_properties(
    device: Option<Device>,
    data: AdvertisementReceivedData,
) -> Option<DeviceProperties> {
    if !data.manufacturer_data_map@.contains_key(VENDOR_ID) {
        None
    } else {
        match (decode(data.manufacturer_data_map@[VENDOR_ID]@), device) {
            (Ok(msg), Some(d)) => if d.connected() && d.model == msg.model {
                Some(properties_of(msg))
            } else {
                None
            },
            _ => None,
        }
    }
}

/// At least one bud whose level is known is low.
pub open spec fn properties_low(props: DeviceProperties, threshold: u8) -> bool {
    bud_low(level_of(props.left_battery), charging_of(props.left_battery), threshold) || bud_low(
        level_of(props.right_battery),
        charging_of(props.right_battery),
        threshold,
    )
}

pub open spec fn no_effects() -> Effects {
    Effects {
        scan: ScanCommand::Keep,
        subscriptions: SubscriptionCommand::Keep,
        media: None,
        release_media: false,
        alert: false,
        publish: false,
        probe: false,
    }
}

pub open spec fn publish_only() -> Effects {
    Effects { publish: true, ..no_effects() }
}

pub open spec fn attach_effects() -> Effects {
    Effects { subscriptions: SubscriptionCommand::Replace, publish: true, ..no_effects() }
}

/// The settings that a document gives: the document's own where its
/// threshold is in range, the defaults otherwise.
pub open spec fn settings_or_default(settings: SettingsState) -> SettingsState {
    if settings.valid() {
        settings
    } else {
        default_settings()
    }
}

/// The state at start. Settings whose threshold is out of range count as
/// unreadable and give way to the defaults.
pub open spec fn initial_state(settings: SettingsState) -> ServiceState {
    ServiceState {
        adapter_state: AdapterState::Off,
        scanning: false,
        current_device: None,
        current_properties: None,
        settings: settings_or_default(settings),
        low_battery_sent: false,
        ear_runtime: EarDetectionRuntime { paused: false, pending: None },
    }
}

/// The state with `device` attached in place of whatever was attached.
pub open spec fn attached(s: ServiceState, device: Device) -> ServiceState {
    ServiceState {
        current_device: Some(device),
        current_properties: None,
        low_battery_sent: false,
        ear_runtime: EarDetectionRuntime { paused: false, pending: None },
        ..s
    }
}

pub open spec fn detached(s: ServiceState) -> ServiceState {
    ServiceState {
        current_device: None,
        current_properties: None,
        ear_runtime: EarDetectionRuntime { paused: false, pending: None },
        ..s
    }
}

pub open spec fn detach_effects() -> Effects {
    Effects {
        subscriptions: SubscriptionCommand::Release,
        release_media: true,
        publish: true,
        probe: true,
        ..no_effects()
    }
}

/// Whether a probe for a connected accessory is called for: nothing is
/// attached, or what is attached is not connected.
pub open spec fn wants_device(s: ServiceState) -> bool {
    match s.current_device {
        Some(d) => !d.connected(),
        None => true,
    }
}

pub open spec fn after_probe(s: ServiceState, found: Option<Device>) -> ServiceState {
    match found {
        Some(d) => if wants_device(s) {
            attached(s, d)
        } else {
            s
        },
        None => s,
    }
}

pub open spec fn probe_effects(s: ServiceState, found: Option<Device>) -> Effects {
    if found.is_some() && wants_device(s) {
        attach_effects()
    } else {
        no_effects()
    }
}

pub open spec fn after_advertisement(s: ServiceState, data: AdvertisementReceivedData) -> ServiceState {
    match accepted_properties(s.current_device, data) {
        Some(props) => ServiceState {
            current_properties: Some(props),
            low_battery_sent: low_battery_decision(
                properties_low(props, s.settings.low_battery_threshold),
                s.settings.low_battery_threshold,
                s.low_battery_sent,
            ).alerted,
            ear_runtime: EarDetectionRuntime {
                paused: s.ear_runtime.paused,
                pending: ear_action(
                    props.left_in_ear && props.right_in_ear,
                    s.settings.ear_detection,
                    s.ear_runtime.paused,
                ),
            },
            ..s
        },
        None => s,
    }
}

pub open spec fn advertisement_effects(s: ServiceState, data: AdvertisementReceivedData) -> Effects {
    match accepted_properties(s.current_device, data) {
        Some(props) => Effects {
            media: ear_action(
                props.left_in_ear && props.right_in_ear,
                s.settings.ear_detection,
                s.ear_runtime.paused,
            ),
            alert: low_battery_decision(
                properties_low(props, s.settings.low_battery_threshold),
                s.settings.low_battery_threshold,
                s.low_battery_sent,
            ).alert,
            publish: true,
            ..no_effects()
        },
        None => no_effects(),
    }
}

pub open spec fn after_adapter_change(s: ServiceState, state: AdapterState) -> ServiceState {
    ServiceState { adapter_state: state, scanning: state == AdapterState::On, ..s }
}

pub open spec fn adapter_effects(s: ServiceState, state: AdapterState) -> Effects {
    Effects {
        scan: if state == AdapterState::On && !s.scanning {
            ScanCommand::Start
        } else if state != AdapterState::On && s.scanning {
            ScanCommand::Stop
        } else {
            ScanCommand::Keep
        },
        publish: true,
        ..no_effects()
    }
}

/// Whether an event that names `device_id` is about the attached device.
pub open spec fn concerns_attached(s: ServiceState, device_id: String) -> bool {
    match s.current_device {
        Some(d) => d.id@ == device_id@,
        None => false,
    }
}

pub open spec fn after_name_change(s: ServiceState, device_id: String, name: String) -> ServiceState {
    if concerns_attached(s, device_id) {
        ServiceState { current_device: Some(Device { name, ..s.current_device.unwrap() }), ..s }
    } else {
        s
    }
}

pub open spec fn after_connection_change(
    s: ServiceState,
    device_id: String,
    state: DeviceConnectionState,
) -> ServiceState {
    if !concerns_attached(s, device_id) {
        s
    } else if state == DeviceConnectionState::Disconnected {
        detached(s)
    } else {
        ServiceState {
            current_device: Some(Device { connection_state: state, ..s.current_device.unwrap() }),
            ..s
        }
    }
}

pub open spec fn connection_effects(
    s: ServiceState,
    device_id: String,
    state: DeviceConnectionState,
) -> Effects {
    if !concerns_attached(s, device_id) {
        no_effects()
    } else if state == DeviceConnectionState::Disconnected {
        detach_effects()
    } else {
        publish_only()
    }
}

/// The state once the outcome of the pending media action is known: the
/// paused flag follows the action if it succeeded, and nothing is pending.
pub open spec fn after_media_action(s: ServiceState, succeeded: bool) -> ServiceState {
    ServiceState {
        ear_runtime: EarDetectionRuntime {
            paused: paused_after(s.ear_runtime.paused, s.ear_runtime.pending, succeeded),
            pending: None,
        },
        ..s
    }
}

/// The state after new settings arrive: they replace the old ones, unless
/// their threshold is out of range, in which case they are dropped.
pub open spec fn after_settings_update(s: ServiceState, settings: SettingsState) -> ServiceState {
    if settings.valid() {
        ServiceState { settings, ..s }
    } else {
        s
    }
}

pub open spec fn settings_effects(settings: SettingsState) -> Effects {
    if settings.valid() {
        publish_only()
    } else {
        no_effects()
    }
}

/// The state after an event.
pub open spec fn after_event(s: ServiceState, event: Event) -> ServiceState {
    match event {
        Event::AdapterChanged(state) => after_adapter_change(s, state),
        Event::AdvertisementReceived(data) => after_advertisement(s, data),
        Event::DeviceNameChanged { device_id, name } => after_name_change(s, device_id, name),
        Event::DeviceConnectionChanged { device_id, state } => after_connection_change(
            s,
            device_id,
            state,
        ),
        Event::AutodetectProbed(found) => after_probe(s, found),
        Event::MediaActionFinished { succeeded } => after_media_action(s, succeeded),
        Event::SettingsUpdated(settings) => after_settings_update(s, settings),
    }
}

/// What an event asks the caller to carry out.
pub open spec fn effects_of_event(s: ServiceState, event: Event) -> Effects {
    match event {
        Event::AdapterChanged(state) => adapter_effects(s, state),
        Event::AdvertisementReceived(data) => advertisement_effects(s, data),
        Event::DeviceNameChanged { device_id, name } => if concerns_attached(s, device_id) {
            publish_only()
        } else {
            no_effects()
        },
        Event::DeviceConnectionChanged { device_id, state } => connection_effects(
            s,
            device_id,
            state,
        ),
        Event::AutodetectProbed(found) => probe_effects(s, found),
        Event::MediaActionFinished { succeeded } => no_effects(),
        Event::SettingsUpdated(settings) => settings_effects(settings),
    }
}

pub open spec fn snapshot_of(s: ServiceState, now_epoch_ms: u128) -> BackendSnapshot {
    BackendSnapshot {
        updated_at_epoch_ms: now_epoch_ms,
        adapter_state: s.adapter_state,
        device: match s.current_device {
            Some(d) => Some(
                DeviceSnapshot {
                    device_id: d.id,
                    name: d.name,
                    address: match d.address {
                        Some(a) => a,
                        None => 0,
                    },
                    model: d.model,
                    connection_state: d.connection_state,
                },
            ),
            None => None,
        },
        properties: s.current_properties,
        settings: s.settings,
        low_battery_alerted: s.low_battery_sent,
    }
}

impl DeviceProperties {
    /// Every level that is known is a percentage in steps of ten.
    pub open spec fn wf(&self) -> bool {
        &&& level_representable(level_of(self.left_battery))
        &&& level_representable(level_of(self.right_battery))
        &&& level_representable(level_of(self.case_battery))
    }

    /// The properties that a message contributes, provided the broadcast it
    /// came in carries a payload under the accessory's vendor identifier.
    pub fn from_advertisement(
        data: &AdvertisementReceivedData,
        protocol: &ProximityPairingMessage,
    ) -> (props: Option<Self>)
        ensures
            props == if data.manufacturer_data_map@.contains_key(VENDOR_ID) {
                Some(properties_of(*protocol))
            } else {
                None
            },
            protocol.wf() && props.is_some() ==> props.unwrap().wf(),
    {
        if data.manufacturer_data_map.get(&VENDOR_ID).is_none() {
            return None;
        }
        let model = protocol.get_model();
        let right_battery = known_battery(
            protocol.get_right_battery(),
            protocol.is_right_charging(),
        );
        let left_battery = known_battery(protocol.get_left_battery(), protocol.is_left_charging());
        let case_battery = known_battery(protocol.get_case_battery(), protocol.is_case_charging());
        Some(
            Self {
                model,
                right_battery,
                left_battery,
                case_battery,
                left_in_ear: protocol.is_left_in_ear(),
                right_in_ear: protocol.is_right_in_ear(),
            },
        )
    }
}

fn known_battery(level: Option<u8>, charging: bool) -> (battery: Option<Battery>)
    ensures
        battery == battery_of(level, charging),
{
    match level {
        Some(value) => Some(Battery::new(value, charging)),
        None => None,
    }
}

fn level_and_charging(battery: Option<Battery>) -> (parts: (Option<u8>, bool))
    ensures
        parts.0 == level_of(battery),
        parts.1 == charging_of(battery),
{
    match battery {
        Some(b) => (Some(b.level), b.charging),
        None => (None, false),
    }
}

impl Default for SettingsState {
    fn default() -> (settings: Self)
        ensures
            settings == default_settings(),
    {
        Self { auto_start: true, auto_update: true, low_battery_threshold: 20, ear_detection: true }
    }
}

impl SettingsState {
    /// A threshold within the range that a settings document may carry.
    pub open spec fn valid(&self) -> bool {
        self.low_battery_threshold <= MAX_THRESHOLD
    }

    /// The settings to start with, given what reading the settings document
    /// produced: `None` where it was missing or could not be parsed. A
    /// missing, unparsable or out-of-range document gives the defaults.
    pub fn load(document: Option<SettingsState>) -> (settings: Self)
        ensures
            settings == match document {
                Some(s) => settings_or_default(s),
                None => default_settings(),
            },
            settings.valid(),
            document.is_none() ==> settings == default_settings(),
    {
        match document {
            Some(s) => if s.low_battery_threshold <= MAX_THRESHOLD {
                s
            } else {
                SettingsState::default()
            },
            None => SettingsState::default(),
        }
    }
}

impl Effects {
    pub fn none() -> (effects: Self)
        ensures
            effects == no_effects(),
    {
        Effects {
            scan: ScanCommand::Keep,
            subscriptions: SubscriptionCommand::Keep,
            media: None,
            release_media: false,
            alert: false,
            publish: false,
            probe: false,
        }
    }

    pub fn publish() -> (effects: Self)
        ensures
            effects == publish_only(),
    {
        Effects {
            scan: ScanCommand::Keep,
            subscriptions: SubscriptionCommand::Keep,
            media: None,
            release_media: false,
            alert: false,
            publish: true,
            probe: false,
        }
    }
}

impl ServiceState {
    /// The state is consistent: properties hold percentages and belong to an
    /// attached device of the same model, media is held paused or an action
    /// is pending only on behalf of an attached device, a pending action would
    /// change the paused flag, broadcast intake runs exactly while the
    /// adapter is on, and the low-battery threshold is in range.
    pub open spec fn wf(&self) -> bool {
        &&& self.current_properties.is_some() ==> self.current_device.is_some()
            && self.current_properties.unwrap().model == self.current_device.unwrap().model
            && self.current_properties.unwrap().wf()
        &&& self.ear_runtime.paused ==> self.current_device.is_some()
        &&& match self.ear_runtime.pending {
            Some(MediaAction::Pause) => self.current_device.is_some() && !self.ear_runtime.paused,
            Some(MediaAction::Resume) => self.ear_runtime.paused,
            None => true,
        }
        &&& self.scanning <==> self.adapter_state == AdapterState::On
        &&& self.settings.valid()
    }

    /// The state at start: adapter off, nothing attached, no flag set.
    /// Settings whose threshold is out of range give way to the defaults.
    pub fn new(settings: SettingsState) -> (state: Self)
        ensures
            state == initial_state(settings),
            state.wf(),
    {
        Self {
            adapter_state: AdapterState::Off,
            scanning: false,
            current_device: None,
            current_properties: None,
            settings: SettingsState::load(Some(settings)),
            low_battery_sent: false,
            ear_runtime: EarDetectionRuntime { paused: false, pending: None },
        }
    }

    /// Attaches `device` in place of whatever was attached, clears the
    /// properties and both flags, and asks for the device's notifications in
    /// place of those of any earlier device.
    pub fn attach_device(&mut self, device: Device) -> (effects: Effects)
        ensures
            *final(self) == attached(*old(self), device),
            effects == attach_effects(),
            old(self).wf() ==> final(self).wf(),
    {
        self.current_device = Some(device);
        self.current_properties = None;
        self.low_battery_sent = false;
        self.ear_runtime = EarDetectionRuntime { paused: false, pending: None };
        Effects {
            scan: ScanCommand::Keep,
            subscriptions: SubscriptionCommand::Replace,
            media: None,
            release_media: false,
            alert: false,
            publish: true,
            probe: false,
        }
    }

    /// Lets go of the attached device, its properties, its notifications and
    /// any pause held on its behalf, and asks for a new probe.
    pub fn detach(&mut self) -> (effects: Effects)
        ensures
            *final(self) == detached(*old(self)),
            effects == detach_effects(),
            old(self).wf() ==> final(self).wf(),
    {
        self.current_device = None;
        self.current_properties = None;
        self.ear_runtime = EarDetectionRuntime { paused: false, pending: None };
        Effects {
            scan: ScanCommand::Keep,
            subscriptions: SubscriptionCommand::Release,
            media: None,
            release_media: true,
            alert: false,
            publish: true,
            probe: true,
        }
    }

    /// Whether to look for a connected accessory.
    pub fn should_search(&self) -> (search: bool)
        ensures
            search == wants_device(*self),
    {
        match &self.current_device {
            Some(device) => !device.is_connected(),
            None => true,
        }
    }

    /// Takes the result of a probe: attaches what was found if, at this
    /// moment, nothing is attached or what is attached is not connected.
    pub fn try_autodetect(&mut self, found: Option<Device>) -> (effects: Effects)
        ensures
            *final(self) == after_probe(*old(self), found),
            effects == probe_effects(*old(self), found),
            old(self).wf() ==> final(self).wf(),
    {
        match found {
            Some(device) => {
                if self.should_search() {
                    self.attach_device(device)
                } else {
                    Effects::none()
                }
            },
            None => Effects::none(),
        }
    }

    /// Takes a broadcast. It is dropped, with no change and nothing to do,
    /// unless it carries a readable message for the attached, connected
    /// device's model. Otherwise the properties are replaced, ear detection
    /// names the media action to try, and the low-battery rule sets its flag
    /// and says whether to alert. The action stays pending, and the paused
    /// flag as it was, until the action's outcome is reported to
    /// [`ServiceState::media_action_finished`].
    pub fn process_advertisement(&mut self, data: &AdvertisementReceivedData) -> (effects: Effects)
        ensures
            *final(self) == after_advertisement(*old(self), *data),
            effects == advertisement_effects(*old(self), *data),
            accepted_properties(old(self).current_device, *data).is_none() ==> *final(self) == *old(
                self,
            ),
            old(self).wf() ==> final(self).wf(),
    {
        let payload = match data.manufacturer_data_map.get(&VENDOR_ID) {
            Some(payload) => payload,
            None => {
                return Effects::none();
            },
        };
        let protocol = match proximity_pairing_message_from_bytes(payload.as_slice()) {
            Ok(protocol) => protocol,
            Err(_) => {
                return Effects::none();
            },
        };
        let attached_model = match &self.current_device {
            Some(device) => {
                if !device.is_connected() {
                    return Effects::none();
                }
                device.get_device_model()
            },
            None => {
                return Effects::none();
            },
        };
        let properties = match DeviceProperties::from_advertisement(data, &protocol) {
            Some(properties) => properties,
            None => {
                return Effects::none();
            },
        };
        if attached_model != properties.model {
            return Effects::none();
        }
        self.current_properties = Some(properties);
        let media = ear_detection_policy(
            properties.left_in_ear,
            properties.right_in_ear,
            self.settings.ear_detection,
            self.ear_runtime.paused,
        );
        let left = level_and_charging(properties.left_battery);
        let right = level_and_charging(properties.right_battery);
        let decision = low_battery_policy(
            left.0,
            left.1,
            right.0,
            right.1,
            self.settings.low_battery_threshold,
            self.low_battery_sent,
        );
        self.low_battery_sent = decision.alerted;
        self.ear_runtime.pending = media;
        Effects {
            scan: ScanCommand::Keep,
            subscriptions: SubscriptionCommand::Keep,
            media,
            release_media: false,
            alert: decision.alert,
            publish: true,
            probe: false,
        }
    }

    /// Takes the outcome of the media action that the last accepted
    /// broadcast asked for: the paused flag follows the action if it
    /// succeeded and stays as it was otherwise. Where no action is pending
    /// nothing changes.
    pub fn media_action_finished(&mut self, succeeded: bool)
        ensures
            *final(self) == after_media_action(*old(self), succeeded),
            old(self).ear_runtime.pending.is_none() ==> *final(self) == *old(self),
            old(self).wf() ==> final(self).wf(),
    {
        let paused = settle_ear_action(self.ear_runtime.paused, self.ear_runtime.pending, succeeded);
        self.ear_runtime = EarDetectionRuntime { paused, pending: None };
    }

    /// Records the adapter's state and says whether broadcast intake has to
    /// start (adapter on, intake not running) or stop (adapter not on, intake
    /// running).
    pub fn set_adapter_state(&mut self, state: AdapterState) -> (effects: Effects)
        ensures
            *final(self) == after_adapter_change(*old(self), state),
            effects == adapter_effects(*old(self), state),
            final(self).scanning <==> state == AdapterState::On,
            old(self).wf() ==> final(self).wf(),
    {
        let on = state == AdapterState::On;
        let scan = if on && !self.scanning {
            ScanCommand::Start
        } else if !on && self.scanning {
            ScanCommand::Stop
        } else {
            ScanCommand::Keep
        };
        self.adapter_state = state;
        self.scanning = on;
        Effects {
            scan,
            subscriptions: SubscriptionCommand::Keep,
            media: None,
            release_media: false,
            alert: false,
            publish: true,
            probe: false,
        }
    }

    /// Replaces the settings. Flags and properties stay as they are: the new
    /// settings count from the next event on. Settings whose threshold is
    /// out of range are dropped: the state stays as it was and nothing is
    /// published.
    pub fn update_settings(&mut self, settings: SettingsState) -> (effects: Effects)
        ensures
            *final(self) == after_settings_update(*old(self), settings),
            effects == settings_effects(settings),
            old(self).wf() ==> final(self).wf(),
    {
        if settings.low_battery_threshold <= MAX_THRESHOLD {
            self.settings = settings;
            Effects::publish()
        } else {
            Effects::none()
        }
    }

    /// Takes a new name for the device `device_id`; dropped unless that
    /// device is the attached one.
    pub fn device_name_changed(&mut self, device_id: &String, name: String) -> (effects: Effects)
        ensures
            *final(self) == after_name_change(*old(self), *device_id, name),
            effects == if concerns_attached(*old(self), *device_id) {
                publish_only()
            } else {
                no_effects()
            },
            old(self).wf() ==> final(self).wf(),
    {
        let renamed = match &self.current_device {
            Some(device) => {
                if device.id == *device_id {
                    Some(
                        Device {
                            id: device.id.clone(),
                            name,
                            address: device.address,
                            vendor_id: device.vendor_id,
                            model: device.model,
                            connection_state: device.connection_state,
                        },
                    )
                } else {
                    None
                }
            },
            None => None,
        };
        match renamed {
            Some(device) => {
                self.current_device = Some(device);
                Effects::publish()
            },
            None => Effects::none(),
        }
    }

    /// Takes a new connection state for the device `device_id`; dropped
    /// unless that device is the attached one. `Disconnected` detaches it.
    pub fn device_connection_changed(
        &mut self,
        device_id: &String,
        state: DeviceConnectionState,
    ) -> (effects: Effects)
        ensures
            *final(self) == after_connection_change(*old(self), *device_id, state),
            effects == connection_effects(*old(self), *device_id, state),
            old(self).wf() ==> final(self).wf(),
    {
        let updated = match &self.current_device {
            Some(device) => {
                if device.id == *device_id {
                    Some(
                        Device {
                            id: device.id.clone(),
                            name: device.name.clone(),
                            address: device.address,
                            vendor_id: device.vendor_id,
                            model: device.model,
                            connection_state: state,
                        },
                    )
                } else {
                    None
                }
            },
            None => None,
        };
        match updated {
            Some(device) => {
                if state == DeviceConnectionState::Disconnected {
                    self.detach()
                } else {
                    self.current_device = Some(device);
                    Effects::publish()
                }
            },
            None => Effects::none(),
        }
    }

    /// Applies one event of the serialized stream.
    pub fn handle_event(&mut self, event: Event) -> (effects: Effects)
        ensures
            *final(self) == after_event(*old(self), event),
            effects == effects_of_event(*old(self), event),
            old(self).wf() ==> final(self).wf(),
    {
        match event {
            Event::AdapterChanged(state) => self.set_adapter_state(state),
            Event::AdvertisementReceived(data) => self.process_advertisement(&data),
            Event::DeviceNameChanged { device_id, name } => self.device_name_changed(
                &device_id,
                name,
            ),
            Event::DeviceConnectionChanged { device_id, state } => self.device_connection_changed(
                &device_id,
                state,
            ),
            Event::AutodetectProbed(found) => self.try_autodetect(found),
            Event::MediaActionFinished { succeeded } => {
                self.media_action_finished(succeeded);
                Effects::none()
            },
            Event::SettingsUpdated(settings) => self.update_settings(settings),
        }
    }

    /// The copy of the state to publish, stamped with `now_epoch_ms`. An
    /// address that is not known is published as 0.
    pub fn snapshot(&self, now_epoch_ms: u128) -> (snapshot: BackendSnapshot)
        ensures
            snapshot == snapshot_of(*self, now_epoch_ms),
    {
        BackendSnapshot {
            updated_at_epoch_ms: now_epoch_ms,
            adapter_state: self.adapter_state,
            device: match &self.current_device {
                Some(device) => Some(
                    DeviceSnapshot {
                        device_id: device.id.clone(),
                        name: device.name.clone(),
                        address: match device.address {
                            Some(a) => a,
                            None => 0,
                        },
                        model: device.model,
                        connection_state: device.connection_state,
                    },
                ),
                None => None,
            },
            properties: self.current_properties,
            settings: self.settings,
            low_battery_alerted: self.low_battery_sent,
        }
    }
}

} // verus!
