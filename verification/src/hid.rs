use vstd::prelude::*;

verus! {

/// Discriminator byte that marks a report read over USB.
pub const USB_REPORT_DISCRIMINATOR: u8 = 0x1;

/// Discriminator byte that marks a report read over Bluetooth.
pub const BLUETOOTH_REPORT_DISCRIMINATOR: u8 = 0x31;

/// Length of the fixed report layout: everything after the discriminator.
pub const REPORT_PAYLOAD_LEN: usize = 63;

/// Smallest buffer `decode` accepts: discriminator plus payload.
pub const FULL_REPORT_LEN: usize = 64;

// Byte offsets of each field within the 63-byte payload.
pub const OFF_SEQUENCE_NUMBER: usize = 0;
pub const OFF_LEFT: usize = 1;
pub const OFF_RIGHT: usize = 3;
pub const OFF_TRIGGERS: usize = 5;
pub const OFF_BUTTONS: usize = 7;
pub const OFF_RESERVED: usize = 11;
pub const OFF_GYRO: usize = 15;
pub const OFF_ACCEL: usize = 21;
pub const OFF_SENSOR_TIMESTAMP: usize = 27;
pub const OFF_RESERVED2: usize = 31;
pub const OFF_TOUCHPAD: usize = 33;
pub const OFF_RESERVED3: usize = 41;
pub const OFF_BATTERY_STATE: usize = 52;
pub const OFF_PERIPHERAL_STATE: usize = 53;
pub const OFF_UNKNOWN: usize = 54;
pub const OFF_AES_CMAC: usize = 55;

/// Width of the button bitfield region in bytes.
pub const BUTTONS_LEN: usize = 4;

/// Width of one packed touchpoint in bytes.
pub const TOUCHPOINT_LEN: usize = 4;

/// Width of the trailing authentication tag in bytes.
pub const AES_CMAC_LEN: usize = 8;

/// The field table tiles the payload exactly: every field begins where
/// the previous one ends, and the trailing tag ends at byte 63.  A gap
/// or an overlap anywhere in the layout would falsify one of these
/// equations and silently corrupt every later field.
pub proof fn lemma_report_layout_total()
    ensures
        OFF_LEFT == OFF_SEQUENCE_NUMBER + 1,
        OFF_RIGHT == OFF_LEFT + 2,
        OFF_TRIGGERS == OFF_RIGHT + 2,
        OFF_BUTTONS == OFF_TRIGGERS + 2,
        OFF_RESERVED == OFF_BUTTONS + BUTTONS_LEN,
        OFF_GYRO == OFF_RESERVED + 4,
        OFF_ACCEL == OFF_GYRO + 6,
        OFF_SENSOR_TIMESTAMP == OFF_ACCEL + 6,
        OFF_RESERVED2 == OFF_SENSOR_TIMESTAMP + 4,
        OFF_TOUCHPAD == OFF_RESERVED2 + 2,
        OFF_TOUCHPAD == 0x21,
        OFF_RESERVED3 == OFF_TOUCHPAD + 2 * TOUCHPOINT_LEN,
        OFF_BATTERY_STATE == OFF_RESERVED3 + 11,
        OFF_PERIPHERAL_STATE == OFF_BATTERY_STATE + 1,
        OFF_UNKNOWN == OFF_PERIPHERAL_STATE + 1,
        OFF_AES_CMAC == OFF_UNKNOWN + 1,
        REPORT_PAYLOAD_LEN == OFF_AES_CMAC + AES_CMAC_LEN,
        FULL_REPORT_LEN == 1 + REPORT_PAYLOAD_LEN,
{
}

/// Transport over which an input report arrived, told apart by the
/// leading discriminator byte of the raw buffer.
#[derive(Debug, Clone, Copy, PartialEq, Eq, Structural)]
pub enum DualsenseReportType {
    USB,
    Bluetooth,
}

impl DualsenseReportType {
    /// Which transport a discriminator byte names, or `Err(())` for a
    /// byte that names none.
    pub open spec fn spec_try_from(value: u8) -> Result<DualsenseReportType, ()> {
        if value == USB_REPORT_DISCRIMINATOR {
            Ok(DualsenseReportType::USB)
        } else if value == BLUETOOTH_REPORT_DISCRIMINATOR {
            Ok(DualsenseReportType::Bluetooth)
        } else {
            Err(())
        }
    }

    /// Map a discriminator byte to its transport; every byte other than
    /// the two known discriminators is rejected.
    pub fn try_from(value: u8) -> (r: Result<DualsenseReportType, ()>)
        ensures
            r == DualsenseReportType::spec_try_from(value),
    {
        match value {
            0x1 => Ok(DualsenseReportType::USB),
            0x31 => Ok(DualsenseReportType::Bluetooth),
            _ => Err(()),
        }
    }
}

/// Why a raw buffer could not be decoded.
#[derive(Debug, Clone, Copy, PartialEq, Eq, Structural)]
pub enum DecodeError {
    /// The leading discriminator byte names no known transport; the
    /// caller should drop the buffer and read again, not retry the
    /// decode.
    UnknownTransport(u8),
    /// The buffer is shorter than the fixed layout requires.
    Truncated,
}

/// Direction reported by the D-pad.  The wire nibble 8 means the pad is
/// centered, with no direction held.
#[derive(Debug, Clone, Copy, PartialEq, Eq, Structural)]
pub enum DpadDirection {
    DpadUp,
    UpRight,
    Right,
    DownRight,
    Down,
    DownLeft,
    Left,
    UpLeft,
    Centered,
}

/// Direction that a D-pad nibble 0 through 8 stands for.
pub open spec fn spec_dpad_direction(nibble: u8) -> DpadDirection
    recommends
        nibble <= 8,
{
    if nibble == 0 {
        DpadDirection::DpadUp
    } else if nibble == 1 {
        DpadDirection::UpRight
    } else if nibble == 2 {
        DpadDirection::Right
    } else if nibble == 3 {
        DpadDirection::DownRight
    } else if nibble == 4 {
        DpadDirection::Down
    } else if nibble == 5 {
        DpadDirection::DownLeft
    } else if nibble == 6 {
        DpadDirection::Left
    } else if nibble == 7 {
        DpadDirection::UpLeft
    } else {
        DpadDirection::Centered
    }
}

/// Some nibble a real report can carry names direction `d`.
pub open spec fn spec_dpad_reachable(d: DpadDirection) -> bool {
    exists|n: u8| n <= 8 && #[trigger] spec_dpad_direction(n) == d
}

/// On the nine nibble values the device can report, the direction map
/// is a bijection: distinct nibbles name distinct directions, and every
/// direction is named by some nibble.
pub proof fn lemma_dpad_direction_bijective()
    ensures
        forall|a: u8, b: u8|
            a <= 8 && b <= 8 && #[trigger] spec_dpad_direction(a) == #[trigger] spec_dpad_direction(
                b,
            ) ==> a == b,
        forall|d: DpadDirection| #[trigger] spec_dpad_reachable(d),
{
    assert forall|d: DpadDirection| #[trigger] spec_dpad_reachable(d) by {
        match d {
            DpadDirection::DpadUp => assert(spec_dpad_direction(0) == d),
            DpadDirection::UpRight => assert(spec_dpad_direction(1) == d),
            DpadDirection::Right => assert(spec_dpad_direction(2) == d),
            DpadDirection::DownRight => assert(spec_dpad_direction(3) == d),
            DpadDirection::Down => assert(spec_dpad_direction(4) == d),
            DpadDirection::DownLeft => assert(spec_dpad_direction(5) == d),
            DpadDirection::Left => assert(spec_dpad_direction(6) == d),
            DpadDirection::UpLeft => assert(spec_dpad_direction(7) == d),
            DpadDirection::Centered => assert(spec_dpad_direction(8) == d),
        }
    }
}

/// Face buttons carried in the high nibble of byte 1 of the bitfield
/// region.
#[derive(Debug, Clone, Copy, PartialEq, Eq, Structural)]
pub enum ButtonsMask1 {
    Square,
    Cross,
    Circle,
    Triangle,
}

impl ButtonsMask1 {
    /// Bit the button occupies in byte 1 of the bitfield region.
    pub open spec fn spec_mask(self) -> u8 {
        match self {
            ButtonsMask1::Square => 0x10,
            ButtonsMask1::Cross => 0x20,
            ButtonsMask1::Circle => 0x40,
            ButtonsMask1::Triangle => 0x80,
        }
    }

    pub fn mask(self) -> (r: u8)
        ensures
            r == self.spec_mask(),
    {
        match self {
            ButtonsMask1::Square => 0x10,
            ButtonsMask1::Cross => 0x20,
            ButtonsMask1::Circle => 0x40,
            ButtonsMask1::Triangle => 0x80,
        }
    }
}

/// Buttons carried in byte 2 of the bitfield region.
#[derive(Debug, Clone, Copy, PartialEq, Eq, Structural)]
pub enum ButtonsMask2 {
    LeftTrigger,
    RightTrigger,
    LeftBumper,
    RightBumper,
    Create,
    Options,
    LeftStickPress,
    RightStickPress,
}

impl ButtonsMask2 {
    /// Bit the button occupies in byte 2 of the bitfield region.
    pub open spec fn spec_mask(self) -> u8 {
        match self {
            ButtonsMask2::LeftTrigger => 0x1,
            ButtonsMask2::RightTrigger => 0x2,
            ButtonsMask2::LeftBumper => 0x4,
            ButtonsMask2::RightBumper => 0x8,
            ButtonsMask2::Create => 0x10,
            ButtonsMask2::Options => 0x20,
            ButtonsMask2::LeftStickPress => 0x40,
            ButtonsMask2::RightStickPress => 0x80,
        }
    }

    pub fn mask(self) -> (r: u8)
        ensures
            r == self.spec_mask(),
    {
        match self {
            ButtonsMask2::LeftTrigger => 0x1,
            ButtonsMask2::RightTrigger => 0x2,
            ButtonsMask2::LeftBumper => 0x4,
            ButtonsMask2::RightBumper => 0x8,
            ButtonsMask2::Create => 0x10,
            ButtonsMask2::Options => 0x20,
            ButtonsMask2::LeftStickPress => 0x40,
            ButtonsMask2::RightStickPress => 0x80,
        }
    }
}

/// Buttons carried in byte 3 of the bitfield region.
#[derive(Debug, Clone, Copy, PartialEq, Eq, Structural)]
pub enum ButtonsMask3 {
    Home,
    /// Whether the touchpad is clicked down, not merely touched.
    Touchpad,
    /// Whether the mic mute button is pressed in, not the microphone state.
    MicMute,
}

impl ButtonsMask3 {
    /// Bit the button occupies in byte 3 of the bitfield region.
    pub open spec fn spec_mask(self) -> u8 {
        match self {
            ButtonsMask3::Home => 0x1,
            ButtonsMask3::Touchpad => 0x2,
            ButtonsMask3::MicMute => 0x4,
        }
    }

    pub fn mask(self) -> (r: u8)
        ensures
            r == self.spec_mask(),
    {
        match self {
            ButtonsMask3::Home => 0x1,
            ButtonsMask3::Touchpad => 0x2,
            ButtonsMask3::MicMute => 0x4,
        }
    }
}

/// Four-byte bitfield region of the report.  Byte 0 is reserved by the
/// wire format; byte 1 carries the D-pad nibble and the face buttons;
/// byte 2 carries bumpers, triggers-as-buttons, stick presses and the
/// Create and Options buttons; byte 3 carries Home, touchpad click and
/// the mic mute button.
#[derive(Debug, Clone, Copy, PartialEq, Eq)]
pub struct Buttons(pub [u8; 4]);

impl Buttons {
    /// Low four bits of byte 1: the D-pad direction code.
    pub open spec fn spec_dpad_nibble(self) -> u8 {
        self.0@[1] & 0xF
    }

    /// The D-pad nibble, always below 16; values 9 through 15 never
    /// come from the device and mark a corrupted report.
    pub fn dpad_nibble(&self) -> (r: u8)
        ensures
            r == self.spec_dpad_nibble(),
            r <= 15,
    {
        let b1 = self.0[1];
        proof {
            assert(b1 & 0xF <= 15) by (bit_vector);
        }
        b1 & 0xF
    }

    /// The direction held on the D-pad.  The caller must have checked
    /// that the nibble is a valid direction code; the device never
    /// emits 9 through 15, so such a value means the buffer was not a
    /// real report.
    pub fn dpad_direction(&self) -> (r: DpadDirection)
        requires
            self.spec_dpad_nibble() <= 8,
        ensures
            r == spec_dpad_direction(self.spec_dpad_nibble()),
    {
        let dpad_value = self.0[1] & 0xF;
        match dpad_value {
            0x0 => DpadDirection::DpadUp,
            0x1 => DpadDirection::UpRight,
            0x2 => DpadDirection::Right,
            0x3 => DpadDirection::DownRight,
            0x4 => DpadDirection::Down,
            0x5 => DpadDirection::DownLeft,
            0x6 => DpadDirection::Left,
            0x7 => DpadDirection::UpLeft,
            _ => DpadDirection::Centered,
        }
    }

    /// Whether a face button's bit is set in byte 1.
    pub open spec fn spec_mask1_pressed(self, mask: ButtonsMask1) -> bool {
        self.0@[1] & mask.spec_mask() != 0
    }

    pub fn mask1_pressed(&self, mask: ButtonsMask1) -> (r: bool)
        ensures
            r == self.spec_mask1_pressed(mask),
    {
        (self.0[1] & mask.mask()) != 0
    }

    /// Whether a button's bit is set in byte 2.
    pub open spec fn spec_mask2_pressed(self, mask: ButtonsMask2) -> bool {
        self.0@[2] & mask.spec_mask() != 0
    }

    pub fn mask2_pressed(&self, mask: ButtonsMask2) -> (r: bool)
        ensures
            r == self.spec_mask2_pressed(mask),
    {
        (self.0[2] & mask.mask()) != 0
    }

    /// Whether a button's bit is set in byte 3.
    pub open spec fn spec_mask3_pressed(self, mask: ButtonsMask3) -> bool {
        self.0@[3] & mask.spec_mask() != 0
    }

    pub fn mask3_pressed(&self, mask: ButtonsMask3) -> (r: bool)
        ensures
            r == self.spec_mask3_pressed(mask),
    {
        (self.0[3] & mask.mask()) != 0
    }
}

/// One tracked finger contact on the touchpad: a contact byte and two
/// 12-bit coordinates packed into three bytes.
#[derive(Debug, Clone, Copy, PartialEq, Eq)]
pub struct Touchpoint {
    /// Low 7 bits count contacts; the high bit set means inactive.
    pub contact: u8,
    /// X is byte 0 plus the low nibble of byte 1 as bits 8..12; Y is
    /// the high nibble of byte 1 plus byte 2 as bits 4..12.
    pub coordinates: [u8; 3],
}

impl Touchpoint {
    /// The high bit of the contact byte set means the point is
    /// inactive; the polarity is inverted.
    pub open spec fn spec_is_active(self) -> bool {
        self.contact & 0x80 == 0
    }

    pub fn is_active(&self) -> (r: bool)
        ensures
            r == self.spec_is_active(),
    {
        self.contact & 0x80 == 0
    }

    /// Contact count in the low 7 bits of the contact byte.
    pub open spec fn spec_touch_count(self) -> u8 {
        self.contact & 0x7F
    }

    pub fn touch_count(&self) -> (r: u8)
        ensures
            r == self.spec_touch_count(),
    {
        self.contact & 0x7F
    }

    /// X coordinate: byte 0 with the low nibble of byte 1 as the high
    /// four bits.
    pub open spec fn spec_x(self) -> u16 {
        (self.coordinates@[0] + (self.coordinates@[1] & 0x0F) * 0x100) as u16
    }

    pub fn x(&self) -> (r: u16)
        ensures
            r == self.spec_x(),
            r < 4096,
    {
        let c0 = self.coordinates[0];
        let c1 = self.coordinates[1];
        let x_low = c0 as u16;
        let x_high = (c1 as u16 & 0x0F) << 8;
        proof {
            assert((c0 as u16) | ((c1 as u16 & 0x0F) << 8) == c0 + (c1 & 0x0F) * 0x100 && c0 + (c1
                & 0x0F) * 0x100 < 4096) by (bit_vector);
        }
        x_low | x_high
    }

    /// Y coordinate: the high nibble of byte 1 with byte 2 as the high
    /// eight bits.
    pub open spec fn spec_y(self) -> u16 {
        (self.coordinates@[1] / 16 + self.coordinates@[2] * 16) as u16
    }

    pub fn y(&self) -> (r: u16)
        ensures
            r == self.spec_y(),
            r < 4096,
    {
        let c1 = self.coordinates[1];
        let c2 = self.coordinates[2];
        let y_low = (c1 as u16 >> 4) & 0x0F;
        let y_high = (c2 as u16) << 4;
        proof {
            assert(((c1 as u16 >> 4) & 0x0F) | ((c2 as u16) << 4) == c1 / 16 + c2 * 16 && c1 / 16
                + c2 * 16 < 4096) by (bit_vector);
        }
        y_low | y_high
    }
}

/// Peripheral status byte; opaque at this layer.
#[derive(Debug, Clone, Copy, PartialEq, Eq, Structural)]
pub struct PeripheralState(pub u8);

/// Battery status byte: the high nibble is the charging code, the low
/// nibble the capacity level.
#[derive(Debug, Clone, Copy, PartialEq, Eq, Structural)]
pub struct BatteryState(pub u8);

impl BatteryState {
    /// Four-bit charging code in the high nibble of the status byte.
    pub open spec fn spec_charging_code(self) -> u8 {
        self.0 >> 4
    }

    pub fn charging_code(&self) -> (r: u8)
        ensures
            r == self.spec_charging_code(),
            r <= 15,
    {
        let b = self.0;
        proof {
            assert(b >> 4 <= 15) by (bit_vector);
        }
        b >> 4
    }

    /// Classification of the charging code; codes the firmware has not
    /// documented resolve to `Unknown`, never to an error.
    pub fn charging_status(&self) -> (r: ChargingStatus)
        ensures
            r == spec_charging_status(self.spec_charging_code()),
    {
        let code = self.charging_code();
        ChargingStatus::from(code)
    }

    /// Battery capacity level in the low nibble of the status byte.
    pub open spec fn spec_capacity_level(self) -> u8 {
        self.0 & 0xF
    }

    pub fn capacity_level(&self) -> (r: u8)
        ensures
            r == self.spec_capacity_level(),
            r <= 15,
    {
        let b = self.0;
        proof {
            assert(b & 0xF <= 15) by (bit_vector);
        }
        b & 0xF
    }
}

/// Power-delivery state named by a battery charging code.
#[derive(Debug, Clone, Copy, PartialEq, Eq, Structural)]
pub enum ChargingStatus {
    Discharging,
    Charging,
    Charged,
    VoltageOrTemperatureOutOfRange,
    TemperatureError,
    ChargingError,
    /// A code no firmware revision documented so far; a decoded value,
    /// never a failure.
    Unknown,
}

/// Classification of a charging code byte: the six documented codes map
/// to their named states and every other value to `Unknown`.
pub open spec fn spec_charging_status(value: u8) -> ChargingStatus {
    if value == 0x0 {
        ChargingStatus::Discharging
    } else if value == 0x1 {
        ChargingStatus::Charging
    } else if value == 0x2 {
        ChargingStatus::Charged
    } else if value == 0xa {
        ChargingStatus::VoltageOrTemperatureOutOfRange
    } else if value == 0xb {
        ChargingStatus::TemperatureError
    } else if value == 0xf {
        ChargingStatus::ChargingError
    } else {
        ChargingStatus::Unknown
    }
}

impl From<u8> for ChargingStatus {
    fn from(value: u8) -> (r: Self) {
        match value {
            0x0 => ChargingStatus::Discharging,
            0x1 => ChargingStatus::Charging,
            0x2 => ChargingStatus::Charged,
            0xa => ChargingStatus::VoltageOrTemperatureOutOfRange,
            0xb => ChargingStatus::TemperatureError,
            0xf => ChargingStatus::ChargingError,
            _ => ChargingStatus::Unknown,
        }
    }
}

impl vstd::std_specs::convert::FromSpecImpl<u8> for ChargingStatus {
    open spec fn obeys_from_spec() -> bool {
        true
    }

    open spec fn from_spec(value: u8) -> Self {
        spec_charging_status(value)
    }
}

/// A pair of unsigned or signed axis values.
#[derive(Debug, Clone, Copy, PartialEq, Eq)]
pub struct XYAxis<T> {
    pub x: T,
    pub y: T,
}

/// A triple of axis values, one per spatial axis.
#[derive(Debug, Clone, Copy, PartialEq, Eq)]
pub struct XYZAxis<T> {
    pub x: T,
    pub y: T,
    pub z: T,
}

/// Every logical field of one input report, read out of the fixed
/// 63-byte layout that follows the discriminator byte.
#[derive(Debug, Clone, Copy, PartialEq, Eq)]
pub struct DualsenseInputReport {
    pub sequence_number: u8,
    pub left: XYAxis<u8>,
    pub right: XYAxis<u8>,
    pub triggers: XYAxis<u8>,
    pub buttons: Buttons,
    pub reserved: [u8; 4],
    pub gyro: XYZAxis<i16>,
    pub accel: XYZAxis<i16>,
    pub sensor_timestamp: u32,
    pub reserved2: [u8; 2],
    pub touchpad: [Touchpoint; 2],
    pub reserved3: [u8; 11],
    pub battery_state: BatteryState,
    pub peripheral_state: PeripheralState,
    pub unknown: u8,
    pub aes_cmac: [u8; 8],
}

/// Value of a signed 16-bit little-endian field stored as two bytes.
pub open spec fn spec_i16_le(lo: u8, hi: u8) -> int {
    if lo + hi * 0x100 < 0x8000 {
        lo + hi * 0x100
    } else {
        lo + hi * 0x100 - 0x10000
    }
}

/// Value of an unsigned 32-bit little-endian field stored as four bytes.
pub open spec fn spec_u32_le(b0: u8, b1: u8, b2: u8, b3: u8) -> u32 {
    (b0 + b1 * 0x100 + b2 * 0x10000 + b3 * 0x1000000) as u32
}

fn read_i16_le(lo: u8, hi: u8) -> (r: i16)
    ensures
        r as int == spec_i16_le(lo, hi),
{
    let v: u16 = (lo as u16) | ((hi as u16) << 8);
    proof {
        assert((lo as u16) | ((hi as u16) << 8) == lo + hi * 0x100) by (bit_vector);
    }
    if v < 0x8000 {
        v as i16
    } else {
        ((v as i32) - 0x10000) as i16
    }
}

fn read_u32_le(b0: u8, b1: u8, b2: u8, b3: u8) -> (r: u32)
    ensures
        r == spec_u32_le(b0, b1, b2, b3),
{
    let r: u32 = (b0 as u32) | ((b1 as u32) << 8) | ((b2 as u32) << 16) | ((b3 as u32) << 24);
    proof {
        assert((b0 as u32) | ((b1 as u32) << 8) | ((b2 as u32) << 16) | ((b3 as u32) << 24) == b0
            + b1 * 0x100 + b2 * 0x10000 + b3 * 0x1000000 && b0 + b1 * 0x100 + b2 * 0x10000 + b3
            * 0x1000000 < 0x100000000) by (bit_vector);
    }
    r
}

/// One touchpoint read from its four payload bytes.
pub open spec fn touchpoint_matches(t: Touchpoint, b: Seq<u8>) -> bool
    recommends
        b.len() == TOUCHPOINT_LEN,
{
    &&& t.contact == b[0]
    &&& t.coordinates@ == b.subrange(1, 4)
}

/// The layout table: how each field of a decoded report is read out of
/// the 63-byte payload.  Multi-byte sensor fields are little-endian;
/// no field crosses another's bytes.
pub open spec fn report_matches_payload(rep: DualsenseInputReport, p: Seq<u8>) -> bool
    recommends
        p.len() == REPORT_PAYLOAD_LEN,
{
    &&& rep.sequence_number == p[OFF_SEQUENCE_NUMBER as int]
    &&& rep.left.x == p[OFF_LEFT as int]
    &&& rep.left.y == p[OFF_LEFT + 1]
    &&& rep.right.x == p[OFF_RIGHT as int]
    &&& rep.right.y == p[OFF_RIGHT + 1]
    &&& rep.triggers.x == p[OFF_TRIGGERS as int]
    &&& rep.triggers.y == p[OFF_TRIGGERS + 1]
    &&& rep.buttons.0@ == p.subrange(OFF_BUTTONS as int, OFF_BUTTONS + BUTTONS_LEN)
    &&& rep.reserved@ == p.subrange(OFF_RESERVED as int, OFF_RESERVED + 4)
    &&& rep.gyro.x as int == spec_i16_le(p[OFF_GYRO as int], p[OFF_GYRO + 1])
    &&& rep.gyro.y as int == spec_i16_le(p[OFF_GYRO + 2], p[OFF_GYRO + 3])
    &&& rep.gyro.z as int == spec_i16_le(p[OFF_GYRO + 4], p[OFF_GYRO + 5])
    &&& rep.accel.x as int == spec_i16_le(p[OFF_ACCEL as int], p[OFF_ACCEL + 1])
    &&& rep.accel.y as int == spec_i16_le(p[OFF_ACCEL + 2], p[OFF_ACCEL + 3])
    &&& rep.accel.z as int == spec_i16_le(p[OFF_ACCEL + 4], p[OFF_ACCEL + 5])
    &&& rep.sensor_timestamp == spec_u32_le(
        p[OFF_SENSOR_TIMESTAMP as int],
        p[OFF_SENSOR_TIMESTAMP + 1],
        p[OFF_SENSOR_TIMESTAMP + 2],
        p[OFF_SENSOR_TIMESTAMP + 3],
    )
    &&& rep.reserved2@ == p.subrange(OFF_RESERVED2 as int, OFF_RESERVED2 + 2)
    &&& touchpoint_matches(
        rep.touchpad@[0],
        p.subrange(OFF_TOUCHPAD as int, OFF_TOUCHPAD + TOUCHPOINT_LEN),
    )
    &&& touchpoint_matches(
        rep.touchpad@[1],
        p.subrange(OFF_TOUCHPAD + TOUCHPOINT_LEN, OFF_TOUCHPAD + 2 * TOUCHPOINT_LEN),
    )
    &&& rep.reserved3@ == p.subrange(OFF_RESERVED3 as int, OFF_RESERVED3 + 11)
    &&& rep.battery_state.0 == p[OFF_BATTERY_STATE as int]
    &&& rep.peripheral_state.0 == p[OFF_PERIPHERAL_STATE as int]
    &&& rep.unknown == p[OFF_UNKNOWN as int]
    &&& rep.aes_cmac@ == p.subrange(OFF_AES_CMAC as int, OFF_AES_CMAC + AES_CMAC_LEN)
}

/// The payload of a raw buffer: the 63 bytes after the discriminator.
pub open spec fn spec_payload(buffer: Seq<u8>) -> Seq<u8>
    recommends
        buffer.len() >= FULL_REPORT_LEN,
{
    buffer.subrange(1, 1 + REPORT_PAYLOAD_LEN as int)
}

/// The layout table determines the report: two reports read from the
/// same payload are equal, so decoding is a function of the input
/// bytes.
pub proof fn lemma_report_determined(
    r1: DualsenseInputReport,
    r2: DualsenseInputReport,
    p: Seq<u8>,
)
    requires
        p.len() == REPORT_PAYLOAD_LEN,
        report_matches_payload(r1, p),
        report_matches_payload(r2, p),
    ensures
        r1 == r2,
{
    broadcast use vstd::array::group_array_axioms;

    assert(r1.buttons.0 =~= r2.buttons.0);
    assert(r1.reserved =~= r2.reserved);
    assert(r1.reserved2 =~= r2.reserved2);
    assert(r1.reserved3 =~= r2.reserved3);
    assert(r1.aes_cmac =~= r2.aes_cmac);
    assert(r1.touchpad@[0].coordinates =~= r2.touchpad@[0].coordinates);
    assert(r1.touchpad@[1].coordinates =~= r2.touchpad@[1].coordinates);
    assert(r1.touchpad@[0] == r2.touchpad@[0]);
    assert(r1.touchpad@[1] == r2.touchpad@[1]);
    assert(r1.touchpad =~= r2.touchpad);
    assert(r1.gyro == r2.gyro);
    assert(r1.accel == r2.accel);
}

/// Decode one raw report buffer: byte 0 picks the transport, bytes
/// 1..64 carry the fixed layout.  A short buffer is `Truncated`
/// whatever its first byte holds; an unknown discriminator on a
/// full-length buffer is `UnknownTransport`; on a full-length buffer
/// with a known discriminator decoding always succeeds and every field
/// of the result is the documented function of the payload bytes.
pub fn decode(buffer: &[u8]) -> (r: Result<DualsenseInputReport, DecodeError>)
    ensures
        buffer@.len() < FULL_REPORT_LEN <==> r == Result::<
            DualsenseInputReport,
            DecodeError,
        >::Err(DecodeError::Truncated),
        buffer@.len() >= FULL_REPORT_LEN && DualsenseReportType::spec_try_from(buffer@[0]) is Err
            <==> r == Result::<DualsenseInputReport, DecodeError>::Err(
            DecodeError::UnknownTransport(buffer@[0]),
        ),
        buffer@.len() >= FULL_REPORT_LEN && DualsenseReportType::spec_try_from(buffer@[0]) is Ok
            ==> r is Ok,
        r matches Ok(rep) ==> buffer@.len() >= FULL_REPORT_LEN
            && DualsenseReportType::spec_try_from(buffer@[0]) is Ok && report_matches_payload(
            rep,
            spec_payload(buffer@),
        ),
{
    if buffer.len() < 64 {
        return Err(DecodeError::Truncated);
    }
    let discriminator = buffer[0];
    if !(discriminator == 0x1 || discriminator == 0x31) {
        return Err(DecodeError::UnknownTransport(discriminator));
    }
    let report = DualsenseInputReport {
        sequence_number: buffer[1],
        left: XYAxis { x: buffer[2], y: buffer[3] },
        right: XYAxis { x: buffer[4], y: buffer[5] },
        triggers: XYAxis { x: buffer[6], y: buffer[7] },
        buttons: Buttons([buffer[8], buffer[9], buffer[10], buffer[11]]),
        reserved: [buffer[12], buffer[13], buffer[14], buffer[15]],
        gyro: XYZAxis {
            x: read_i16_le(buffer[16], buffer[17]),
            y: read_i16_le(buffer[18], buffer[19]),
            z: read_i16_le(buffer[20], buffer[21]),
        },
        accel: XYZAxis {
            x: read_i16_le(buffer[22], buffer[23]),
            y: read_i16_le(buffer[24], buffer[25]),
            z: read_i16_le(buffer[26], buffer[27]),
        },
        sensor_timestamp: read_u32_le(buffer[28], buffer[29], buffer[30], buffer[31]),
        reserved2: [buffer[32], buffer[33]],
        touchpad: [
            Touchpoint { contact: buffer[34], coordinates: [buffer[35], buffer[36], buffer[37]] },
            Touchpoint { contact: buffer[38], coordinates: [buffer[39], buffer[40], buffer[41]] },
        ],
        reserved3: [
            buffer[42],
            buffer[43],
            buffer[44],
            buffer[45],
            buffer[46],
            buffer[47],
            buffer[48],
            buffer[49],
            buffer[50],
            buffer[51],
            buffer[52],
        ],
        battery_state: BatteryState(buffer[53]),
        peripheral_state: PeripheralState(buffer[54]),
        unknown: buffer[55],
        aes_cmac: [
            buffer[56],
            buffer[57],
            buffer[58],
            buffer[59],
            buffer[60],
            buffer[61],
            buffer[62],
            buffer[63],
        ],
    };
    proof {
        let p = spec_payload(buffer@);
        assert(report.buttons.0@ =~= p.subrange(OFF_BUTTONS as int, OFF_BUTTONS + BUTTONS_LEN));
        assert(report.reserved@ =~= p.subrange(OFF_RESERVED as int, OFF_RESERVED + 4));
        assert(report.reserved2@ =~= p.subrange(OFF_RESERVED2 as int, OFF_RESERVED2 + 2));
        assert(report.touchpad@[0].coordinates@ =~= p.subrange(
            OFF_TOUCHPAD as int,
            OFF_TOUCHPAD + TOUCHPOINT_LEN,
        ).subrange(1, 4));
        assert(report.touchpad@[1].coordinates@ =~= p.subrange(
            OFF_TOUCHPAD + TOUCHPOINT_LEN,
            OFF_TOUCHPAD + 2 * TOUCHPOINT_LEN,
        ).subrange(1, 4));
        assert(report.reserved3@ =~= p.subrange(OFF_RESERVED3 as int, OFF_RESERVED3 + 11));
        assert(report.aes_cmac@ =~= p.subrange(OFF_AES_CMAC as int, OFF_AES_CMAC + AES_CMAC_LEN));
    }
    Ok(report)
}

} // verus!
