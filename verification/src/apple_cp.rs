//! The proximity pairing message that the accessory broadcasts as
//! manufacturer-specific data, and its wire format.
//!
//! A frame is at least [`MIN_FRAME_LEN`] bytes long:
//!
//! | byte | content                                                          |
//! |------|------------------------------------------------------------------|
//! | 0    | message type, [`PROXIMITY_PAIRING_TYPE`]                         |
//! | 1, 2 | length of the rest and a fixed marker, both ignored when reading |
//! | 3, 4 | model identifier, low byte first                                 |
//! | 5    | status: 0x20 primary bud is the left one, 0x02 primary bud in    |
//! |      | ear, 0x08 secondary bud in ear                                   |
//! | 6    | battery: low nibble primary bud, high nibble secondary bud       |
//! | 7    | low nibble case battery; 0x10 primary bud charging, 0x20         |
//! |      | secondary bud charging, 0x40 case charging                       |
//! | 8..  | not interpreted                                                  |
//!
//! A battery nibble counts tenths: 0 to 10 stand for 0% to 100%. The nibble
//! [`BATTERY_UNKNOWN`] says that the level is not known; it never reads as 0%.
use vstd::prelude::*;

verus! {

/// Vendor identifier under which the accessory broadcasts its status.
pub const VENDOR_ID: u16 = 76;

/// Smallest number of bytes that hold a whole proximity pairing message.
pub const MIN_FRAME_LEN: usize = 27;

/// Leading byte of a proximity pairing message.
pub const PROXIMITY_PAIRING_TYPE: u8 = 0x07;

/// Battery nibble that stands for "level not known".
pub const BATTERY_UNKNOWN: u8 = 15;

/// Percentage points per unit of a battery nibble.
pub const BATTERY_STEP: u8 = 10;

#[derive(Clone, Copy, Debug, PartialEq, Eq, Structural, Hash)]
pub enum AppleDeviceModel {
    AirPods1,
    AirPods2,
    AirPods3,
    AirPodsPro,
    AirPodsPro2,
    AirPodsMax,
    BeatsFitPro,
    Unknown,
}

/// Why a payload was not read as a proximity pairing message.
#[derive(Clone, Copy, Debug, PartialEq, Eq, Structural, Hash)]
pub enum DecodeError {
    /// The payload has fewer than [`MIN_FRAME_LEN`] bytes.
    TooShort,
    /// The payload is long enough but does not start with
    /// [`PROXIMITY_PAIRING_TYPE`].
    UnrecognizedMessageType,
}

/// What one broadcast says about the accessory. Battery levels are in
/// percent, in steps of [`BATTERY_STEP`]; `None` is "not known".
#[derive(Clone, Copy, Debug, PartialEq, Eq, Hash)]
pub struct ProximityPairingMessage {
    pub model: AppleDeviceModel,
    pub left_battery: Option<u8>,
    pub right_battery: Option<u8>,
    pub case_battery: Option<u8>,
    pub left_charging: bool,
    pub right_charging: bool,
    pub case_charging: bool,
    pub left_in_ear: bool,
    pub right_in_ear: bool,
}

/// A level that the wire format can carry: a multiple of ten up to 100, or
/// nothing.
pub open spec fn level_representable(level: Option<u8>) -> bool {
    match level {
        Some(l) => l <= 100 && l % 10 == 0,
        None => true,
    }
}

pub open spec fn low_nibble(b: u8) -> u8 {
    (b % 16) as u8
}

pub open spec fn high_nibble(b: u8) -> u8 {
    (b / 16) as u8
}

/// Whether the bit of weight `weight` (a power of two) is set in `b`.
pub open spec fn has_bit(b: u8, weight: u8) -> bool
    recommends
        weight > 0,
{
    (b as int / weight as int) % 2 == 1
}

/// The level that a battery nibble stands for.
pub open spec fn battery_of_nibble(n: u8) -> Option<u8> {
    if n <= 10 {
        Some((n * 10) as u8)
    } else {
        None
    }
}

/// The nibble written for a level; what is not representable is written as
/// unknown.
pub open spec fn nibble_of_battery(level: Option<u8>) -> u8 {
    match level {
        Some(l) => if l <= 100 {
            (l / 10) as u8
        } else {
            BATTERY_UNKNOWN
        },
        None => BATTERY_UNKNOWN,
    }
}

pub open spec fn model_of_id(id: u16) -> AppleDeviceModel {
    if id == 0x2002 {
        AppleDeviceModel::AirPods1
    } else if id == 0x200F {
        AppleDeviceModel::AirPods2
    } else if id == 0x2013 {
        AppleDeviceModel::AirPods3
    } else if id == 0x200E {
        AppleDeviceModel::AirPodsPro
    } else if id == 0x2014 {
        AppleDeviceModel::AirPodsPro2
    } else if id == 0x200A {
        AppleDeviceModel::AirPodsMax
    } else if id == 0x2012 {
        AppleDeviceModel::BeatsFitPro
    } else {
        AppleDeviceModel::Unknown
    }
}

pub open spec fn id_of_model(model: AppleDeviceModel) -> u16 {
    match model {
        AppleDeviceModel::AirPods1 => 0x2002,
        AppleDeviceModel::AirPods2 => 0x200F,
        AppleDeviceModel::AirPods3 => 0x2013,
        AppleDeviceModel::AirPodsPro => 0x200E,
        AppleDeviceModel::AirPodsPro2 => 0x2014,
        AppleDeviceModel::AirPodsMax => 0x200A,
        AppleDeviceModel::BeatsFitPro => 0x2012,
        AppleDeviceModel::Unknown => 0,
    }
}

/// The message that a frame of sufficient length carries.
pub open spec fn message_of_frame(frame: Seq<u8>) -> ProximityPairingMessage
    recommends
        frame.len() >= MIN_FRAME_LEN,
{
    let status = frame[5];
    let battery = frame[6];
    let flags = frame[7];
    let primary_left = has_bit(status, 32);
    let primary_level = battery_of_nibble(low_nibble(battery));
    let secondary_level = battery_of_nibble(high_nibble(battery));
    let primary_charging = has_bit(flags, 16);
    let secondary_charging = has_bit(flags, 32);
    let primary_in_ear = has_bit(status, 2);
    let secondary_in_ear = has_bit(status, 8);
    ProximityPairingMessage {
        model: model_of_id((frame[3] as int + 256 * frame[4] as int) as u16),
        left_battery: if primary_left {
            primary_level
        } else {
            secondary_level
        },
        right_battery: if primary_left {
            secondary_level
        } else {
            primary_level
        },
        case_battery: battery_of_nibble(low_nibble(flags)),
        left_charging: if primary_left {
            primary_charging
        } else {
            secondary_charging
        },
        right_charging: if primary_left {
            secondary_charging
        } else {
            primary_charging
        },
        case_charging: has_bit(flags, 64),
        left_in_ear: if primary_left {
            primary_in_ear
        } else {
            secondary_in_ear
        },
        right_in_ear: if primary_left {
            secondary_in_ear
        } else {
            primary_in_ear
        },
    }
}

/// What reading a payload gives: the length is judged first, then the type.
pub open spec fn decode(payload: Seq<u8>) -> Result<ProximityPairingMessage, DecodeError> {
    if payload.len() < MIN_FRAME_LEN {
        Err(DecodeError::TooShort)
    } else if payload[0] != PROXIMITY_PAIRING_TYPE {
        Err(DecodeError::UnrecognizedMessageType)
    } else {
        Ok(message_of_frame(payload))
    }
}

pub open spec fn flag(on: bool, weight: u8) -> int {
    if on {
        weight as int
    } else {
        0
    }
}

/// Byte `i` of the frame written for `msg`, with the left bud as primary.
pub open spec fn frame_byte(msg: ProximityPairingMessage, i: int) -> u8 {
    if i == 0 {
        PROXIMITY_PAIRING_TYPE
    } else if i == 1 {
        25
    } else if i == 2 {
        1
    } else if i == 3 {
        (id_of_model(msg.model) % 256) as u8
    } else if i == 4 {
        (id_of_model(msg.model) / 256) as u8
    } else if i == 5 {
        (32 + flag(msg.left_in_ear, 2) + flag(msg.right_in_ear, 8)) as u8
    } else if i == 6 {
        (nibble_of_battery(msg.left_battery) + 16 * nibble_of_battery(msg.right_battery)) as u8
    } else if i == 7 {
        (nibble_of_battery(msg.case_battery) + flag(msg.left_charging, 16) + flag(
            msg.right_charging,
            32,
        ) + flag(msg.case_charging, 64)) as u8
    } else {
        0
    }
}

/// The frame written for `msg`: [`MIN_FRAME_LEN`] bytes.
pub open spec fn encode(msg: ProximityPairingMessage) -> Seq<u8> {
    Seq::new(MIN_FRAME_LEN as nat, |i: int| frame_byte(msg, i))
}

impl AppleDeviceModel {
    /// The model that a model identifier names; an identifier that names none
    /// gives `Unknown`.
    pub fn from_id(id: u16) -> (model: AppleDeviceModel)
        ensures
            model == model_of_id(id),
    {
        if id == 0x2002 {
            AppleDeviceModel::AirPods1
        } else if id == 0x200F {
            AppleDeviceModel::AirPods2
        } else if id == 0x2013 {
            AppleDeviceModel::AirPods3
        } else if id == 0x200E {
            AppleDeviceModel::AirPodsPro
        } else if id == 0x2014 {
            AppleDeviceModel::AirPodsPro2
        } else if id == 0x200A {
            AppleDeviceModel::AirPodsMax
        } else if id == 0x2012 {
            AppleDeviceModel::BeatsFitPro
        } else {
            AppleDeviceModel::Unknown
        }
    }

    /// The identifier written for a model; `Unknown` is written as 0.
    pub fn id(&self) -> (id: u16)
        ensures
            id == id_of_model(*self),
    {
        match self {
            AppleDeviceModel::AirPods1 => 0x2002,
            AppleDeviceModel::AirPods2 => 0x200F,
            AppleDeviceModel::AirPods3 => 0x2013,
            AppleDeviceModel::AirPodsPro => 0x200E,
            AppleDeviceModel::AirPodsPro2 => 0x2014,
            AppleDeviceModel::AirPodsMax => 0x200A,
            AppleDeviceModel::BeatsFitPro => 0x2012,
            AppleDeviceModel::Unknown => 0,
        }
    }
}

/// Reads a battery nibble: 0 to 10 give 0% to 100%, anything else, the
/// unknown marker included, gives `None`.
pub fn decode_battery(nibble: u8) -> (level: Option<u8>)
    ensures
        level == battery_of_nibble(nibble),
        level_representable(level),
        nibble == BATTERY_UNKNOWN ==> level.is_none(),
{
    if nibble <= 10 {
        Some(nibble * BATTERY_STEP)
    } else {
        None
    }
}

/// Writes a level as a battery nibble; a level above 100 is written as
/// unknown, a level between two steps as the step below.
pub fn encode_battery(level: Option<u8>) -> (nibble: u8)
    ensures
        nibble == nibble_of_battery(level),
        nibble <= BATTERY_UNKNOWN,
        level.is_none() ==> nibble == BATTERY_UNKNOWN,
{
    match level {
        Some(l) => if l <= 100 {
            l / BATTERY_STEP
        } else {
            BATTERY_UNKNOWN
        },
        None => BATTERY_UNKNOWN,
    }
}

fn bit(b: u8, weight: u8) -> (set: bool)
    requires
        weight > 0,
    ensures
        set == has_bit(b, weight),
{
    (b / weight) % 2 == 1
}

fn weight_if(on: bool, weight: u8) -> (w: u8)
    ensures
        w == flag(on, weight),
{
    if on {
        weight
    } else {
        0
    }
}

/// Reads a payload as a proximity pairing message. A payload of fewer than
/// [`MIN_FRAME_LEN`] bytes is `TooShort`, whatever it starts with; a longer one
/// that does not start with [`PROXIMITY_PAIRING_TYPE`] is
/// `UnrecognizedMessageType`. A model identifier that names no known model
/// is no failure.
pub fn proximity_pairing_message_from_bytes(payload: &[u8]) -> (result: Result<
    ProximityPairingMessage,
    DecodeError,
>)
    ensures
        result == decode(payload@),
        payload@.len() < MIN_FRAME_LEN ==> result == Err::<ProximityPairingMessage, DecodeError>(
            DecodeError::TooShort,
        ),
        result is Ok ==> result->Ok_0.wf(),
{
    if payload.len() < MIN_FRAME_LEN {
        return Err(DecodeError::TooShort);
    }
    if payload[0] != PROXIMITY_PAIRING_TYPE {
        return Err(DecodeError::UnrecognizedMessageType);
    }
    let status: u8 = payload[5];
    let battery: u8 = payload[6];
    let flags: u8 = payload[7];
    let model_id: u16 = payload[3] as u16 + 256 * (payload[4] as u16);
    let primary_left = bit(status, 32);
    let primary_level = decode_battery(battery % 16);
    let secondary_level = decode_battery(battery / 16);
    let primary_charging = bit(flags, 16);
    let secondary_charging = bit(flags, 32);
    let primary_in_ear = bit(status, 2);
    let secondary_in_ear = bit(status, 8);
    Ok(
        ProximityPairingMessage {
            model: AppleDeviceModel::from_id(model_id),
            left_battery: if primary_left {
                primary_level
            } else {
                secondary_level
            },
            right_battery: if primary_left {
                secondary_level
            } else {
                primary_level
            },
            case_battery: decode_battery(flags % 16),
            left_charging: if primary_left {
                primary_charging
            } else {
                secondary_charging
            },
            right_charging: if primary_left {
                secondary_charging
            } else {
                primary_charging
            },
            case_charging: bit(flags, 64),
            left_in_ear: if primary_left {
                primary_in_ear
            } else {
                secondary_in_ear
            },
            right_in_ear: if primary_left {
                secondary_in_ear
            } else {
                primary_in_ear
            },
        },
    )
}

impl ProximityPairingMessage {
    /// Every battery level is one that the wire format can carry.
    pub open spec fn wf(&self) -> bool {
        &&& level_representable(self.left_battery)
        &&& level_representable(self.right_battery)
        &&& level_representable(self.case_battery)
    }

    pub fn get_model(&self) -> (model: AppleDeviceModel)
        ensures
            model == self.model,
    {
        self.model
    }

    pub fn get_left_battery(&self) -> (level: Option<u8>)
        ensures
            level == self.left_battery,
    {
        self.left_battery
    }

    pub fn get_right_battery(&self) -> (level: Option<u8>)
        ensures
            level == self.right_battery,
    {
        self.right_battery
    }

    pub fn get_case_battery(&self) -> (level: Option<u8>)
        ensures
            level == self.case_battery,
    {
        self.case_battery
    }

    pub fn is_left_charging(&self) -> (charging: bool)
        ensures
            charging == self.left_charging,
    {
        self.left_charging
    }

    pub fn is_right_charging(&self) -> (charging: bool)
        ensures
            charging == self.right_charging,
    {
        self.right_charging
    }

    pub fn is_case_charging(&self) -> (charging: bool)
        ensures
            charging == self.case_charging,
    {
        self.case_charging
    }

    pub fn is_left_in_ear(&self) -> (in_ear: bool)
        ensures
            in_ear == self.left_in_ear,
    {
        self.left_in_ear
    }

    pub fn is_right_in_ear(&self) -> (in_ear: bool)
        ensures
            in_ear == self.right_in_ear,
    {
        self.right_in_ear
    }

    /// Writes the message as a frame of [`MIN_FRAME_LEN`] bytes, with the
    /// left bud as the primary one and the uninterpreted bytes zero.
    pub fn to_bytes(&self) -> (frame: Vec<u8>)
        ensures
            frame@ == encode(*self),
            frame@.len() == MIN_FRAME_LEN,
            self.wf() ==> decode(frame@) == Ok::<ProximityPairingMessage, DecodeError>(*self),
    {
        let id: u16 = self.model.id();
        let left: u8 = encode_battery(self.left_battery);
        let right: u8 = encode_battery(self.right_battery);
        let case: u8 = encode_battery(self.case_battery);
        let status: u8 = 32 + weight_if(self.left_in_ear, 2) + weight_if(self.right_in_ear, 8);
        let battery: u8 = left + 16 * right;
        let flags: u8 = case + weight_if(self.left_charging, 16) + weight_if(
            self.right_charging,
            32,
        ) + weight_if(self.case_charging, 64);
        let mut frame: Vec<u8> = Vec::new();
        frame.push(PROXIMITY_PAIRING_TYPE);
        frame.push(25);
        frame.push(1);
        frame.push((id % 256) as u8);
        frame.push((id / 256) as u8);
        frame.push(status);
        frame.push(battery);
        frame.push(flags);
        while frame.len() < MIN_FRAME_LEN
            invariant
                8 <= frame@.len() <= MIN_FRAME_LEN,
                forall|i: int| 0 <= i < frame@.len() ==> frame@[i] == frame_byte(*self, i),
            decreases MIN_FRAME_LEN - frame@.len(),
        {
            frame.push(0);
        }
        assert(frame@ =~= encode(*self));
        proof {
            if self.wf() {
                lemma_decode_encode(*self);
            }
        }
        frame
    }
}

/// Reading what was written gives the level and the charging flag back: for
/// every level in steps of ten up to 100, and for "not known", the nibble
/// written for it reads as that level, and the unknown marker reads as
/// nothing.
pub proof fn lemma_battery_round_trip(level: Option<u8>)
    requires
        level_representable(level),
    ensures
        battery_of_nibble(nibble_of_battery(level)) == level,
        battery_of_nibble(BATTERY_UNKNOWN) == None::<u8>,
        battery_of_nibble(BATTERY_UNKNOWN) != Some(0u8),
{
}

/// A payload that is shorter than the smallest frame is never read as a
/// message, whatever it holds.
pub proof fn lemma_short_payload_fails(payload: Seq<u8>)
    requires
        payload.len() < MIN_FRAME_LEN,
    ensures
        decode(payload) == Err::<ProximityPairingMessage, DecodeError>(DecodeError::TooShort),
{
}

/// A model read from the identifier written for it is that model.
pub proof fn lemma_model_round_trip(model: AppleDeviceModel)
    ensures
        model_of_id(id_of_model(model)) == model,
{
}

/// Reading the frame written for a message with representable levels gives
/// that message back: model, levels, charging flags and in-ear flags.
pub proof fn lemma_decode_encode(msg: ProximityPairingMessage)
    requires
        msg.wf(),
    ensures
        decode(encode(msg)) == Ok::<ProximityPairingMessage, DecodeError>(msg),
{
    let frame = encode(msg);
    assert(frame.len() == MIN_FRAME_LEN);
    assert(frame[0] == PROXIMITY_PAIRING_TYPE);
    assert(frame[3] == frame_byte(msg, 3));
    assert(frame[4] == frame_byte(msg, 4));
    assert(frame[5] == frame_byte(msg, 5));
    assert(frame[6] == frame_byte(msg, 6));
    assert(frame[7] == frame_byte(msg, 7));
    lemma_model_round_trip(msg.model);
    lemma_battery_round_trip(msg.left_battery);
    lemma_battery_round_trip(msg.right_battery);
    lemma_battery_round_trip(msg.case_battery);
    let got = message_of_frame(frame);
    assert(got.model == msg.model);
    assert(got.left_battery == msg.left_battery);
    assert(got.right_battery == msg.right_battery);
    assert(got.case_battery == msg.case_battery);
    assert(got.left_charging == msg.left_charging);
    assert(got.right_charging == msg.right_charging);
    assert(got.case_charging == msg.case_charging);
    assert(got.left_in_ear == msg.left_in_ear);
    assert(got.right_in_ear == msg.right_in_ear);
}

} // verus!
