//! The peripheral as the service sees it: plain values reported by the
//! platform's Bluetooth stack.
use crate::apple_cp::AppleDeviceModel;
use vstd::prelude::*;

verus! {

/// Power state of the Bluetooth adapter.
#[derive(Clone, Copy, Debug, PartialEq, Eq, Structural, Hash)]
pub enum AdapterState {
    Off,
    On,
    Unavailable,
}

#[derive(Clone, Copy, Debug, PartialEq, Eq, Structural, Hash)]
pub enum DeviceConnectionState {
    Connecting,
    Connected,
    Disconnecting,
    Disconnected,
}

/// A paired peripheral. `address` and `vendor_id` are `None` where the
/// platform could not report them.
#[derive(Debug, PartialEq, Eq)]
pub struct Device {
    pub id: String,
    pub name: String,
    pub address: Option<u64>,
    pub vendor_id: Option<u16>,
    pub model: AppleDeviceModel,
    pub connection_state: DeviceConnectionState,
}

impl Clone for Device {
    fn clone(&self) -> (copy: Self)
        ensures
            copy == *self,
    {
        Device {
            id: self.id.clone(),
            name: self.name.clone(),
            address: self.address,
            vendor_id: self.vendor_id,
            model: self.model,
            connection_state: self.connection_state,
        }
    }
}

/// The identifier kept for a device: the reported one, or the empty text
/// where the platform could not report it.
pub open spec fn id_or_empty(id: Option<String>) -> Seq<char> {
    match id {
        Some(text) => text@,
        None => Seq::empty(),
    }
}

/// The name kept for a device: the reported one, or "Unknown" where the
/// platform could not report it.
pub open spec fn name_or_unknown(name: Option<String>) -> Seq<char> {
    match name {
        Some(text) => text@,
        None => "Unknown"@,
    }
}

impl Device {
    /// The device as the platform reports it. An identifier that could not
    /// be read is kept as the empty text, a name that could not be read as
    /// "Unknown"; the other values are kept as they are.
    pub fn from_reported(
        id: Option<String>,
        name: Option<String>,
        address: Option<u64>,
        vendor_id: Option<u16>,
        model: AppleDeviceModel,
        connection_state: DeviceConnectionState,
    ) -> (device: Device)
        ensures
            device.id@ == id_or_empty(id),
            device.name@ == name_or_unknown(name),
            device.address == address,
            device.vendor_id == vendor_id,
            device.model == model,
            device.connection_state == connection_state,
    {
        Device {
            id: match id {
                Some(text) => text,
                None => String::new(),
            },
            name: match name {
                Some(text) => text,
                None => "Unknown".to_owned(),
            },
            address,
            vendor_id,
            model,
            connection_state,
        }
    }

    pub open spec fn connected(&self) -> bool {
        self.connection_state == DeviceConnectionState::Connected
    }

    pub fn is_connected(&self) -> (connected: bool)
        ensures
            connected == self.connected(),
    {
        self.connection_state == DeviceConnectionState::Connected
    }

    pub fn get_vendor_id(&self) -> (vendor_id: Option<u16>)
        ensures
            vendor_id == self.vendor_id,
    {
        self.vendor_id
    }

    pub fn get_address(&self) -> (address: Option<u64>)
        ensures
            address == self.address,
    {
        self.address
    }

    pub fn get_device_model(&self) -> (model: AppleDeviceModel)
        ensures
            model == self.model,
    {
        self.model
    }

    pub fn get_connection_state(&self) -> (state: DeviceConnectionState)
        ensures
            state == self.connection_state,
    {
        self.connection_state
    }
}

} // verus!
