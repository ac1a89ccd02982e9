//! The registry of configuration parameters: each parameter has a 16-bit
//! address, and the address fixes how many bytes its value has and how they
//! are read.

use vstd::prelude::*;
use vstd::std_specs::convert::FromSpecImpl;

use crate::bytes::i16_at;
use crate::bytes::i8_from_byte;
use crate::bytes::le_bytes;
use crate::bytes::push_le;
use crate::bytes::push_le_signed;
use crate::bytes::read_i16;
use crate::bytes::read_u16;
use crate::bytes::read_u32;
use crate::bytes::signed;
use crate::bytes::signed_reads_back;
use crate::bytes::u16_at;
use crate::bytes::u32_at;
use crate::bytes::unsigned_reads_back;

verus! {

/// Number of channels that have a delay of their own.
pub const DELAY_CHANNELS: u8 = 32;

/// How many bytes the value at an address has: four in `0x6000..=0x6FFF`,
/// two in `0x3000..=0x4FFF`, one in `0x1000..=0x2FFF`, and none elsewhere,
/// where there is no parameter.
pub open spec fn width(id: u16) -> int {
    if 0x6000 <= id <= 0x6FFF {
        4
    } else if 0x3000 <= id <= 0x4FFF {
        2
    } else if 0x1000 <= id <= 0x2FFF {
        1
    } else {
        0
    }
}

/// How many bytes the value at an address has.
pub fn width_of(id: u16) -> (w: usize)
    ensures
        w == width(id),
        0x6000 <= id <= 0x6FFF ==> w == 4,
        0x3000 <= id <= 0x4FFF ==> w == 2,
        0x1000 <= id <= 0x2FFF ==> w == 1,
        !(0x1000 <= id <= 0x4FFF) && !(0x6000 <= id <= 0x6FFF) ==> w == 0,
{
    if 0x6000 <= id && id <= 0x6FFF {
        4
    } else if 0x3000 <= id && id <= 0x4FFF {
        2
    } else if 0x1000 <= id && id <= 0x2FFF {
        1
    } else {
        0
    }
}

/// The value of a parameter.
#[derive(Clone, Copy, Debug, PartialEq, Eq, Hash, Structural)]
pub enum Output {
    /// An unsigned value of four bytes.
    U32(u32),
    /// An unsigned value of two bytes.
    U16(u16),
    /// A signed value of two bytes.
    I16(i16),
    /// An unsigned value of one byte.
    U8(u8),
    /// A signed value of one byte.
    I8(i8),
}

impl Output {
    /// The value as a number.
    pub open spec fn number(self) -> int {
        match self {
            Output::U32(x) => x as int,
            Output::U16(x) => x as int,
            Output::I16(x) => x as int,
            Output::U8(x) => x as int,
            Output::I8(x) => x as int,
        }
    }

    /// How many bytes the value has.
    pub open spec fn size(self) -> nat {
        match self {
            Output::U32(_) => 4,
            Output::U16(_) => 2,
            Output::I16(_) => 2,
            Output::U8(_) => 1,
            Output::I8(_) => 1,
        }
    }

    /// Whether the value has the size and the sign of the values at `id`.
    pub open spec fn fits(self, id: u16) -> bool {
        match self {
            Output::U32(_) => 0x6000 <= id <= 0x6FFF,
            Output::U16(_) => 0x4000 <= id <= 0x4FFF,
            Output::I16(_) => 0x3000 <= id <= 0x3FFF,
            Output::U8(_) => 0x2000 <= id <= 0x2FFF,
            Output::I8(_) => 0x1000 <= id <= 0x1FFF,
        }
    }

    /// The bytes of the value on the wire, least significant first.
    pub open spec fn wire(self) -> Seq<u8> {
        le_bytes(self.number(), self.size())
    }

    /// The value that the bytes of `s` from `at` on hold for the parameter at
    /// `id`: the address alone says how many of them count and how they are
    /// read. `0x6000..=0x6FFF` holds unsigned values of four bytes,
    /// `0x4000..=0x4FFF` unsigned and `0x3000..=0x3FFF` signed values of two,
    /// `0x2000..=0x2FFF` unsigned and `0x1000..=0x1FFF` signed values of one.
    /// Elsewhere there is no parameter and no value.
    pub open spec fn read(id: u16, s: Seq<u8>, at: int) -> Option<Output>
        recommends
            0 <= at,
            at + width(id) <= s.len(),
    {
        if 0x6000 <= id <= 0x6FFF {
            Some(Output::U32(u32_at(s, at)))
        } else if 0x4000 <= id <= 0x4FFF {
            Some(Output::U16(u16_at(s, at)))
        } else if 0x3000 <= id <= 0x3FFF {
            Some(Output::I16(i16_at(s, at)))
        } else if 0x2000 <= id <= 0x2FFF {
            Some(Output::U8(s[at]))
        } else if 0x1000 <= id <= 0x1FFF {
            Some(Output::I8(signed(s[at] as int, 8) as i8))
        } else {
            None
        }
    }

    /// Reads the value of the parameter at `id` from the bytes of `v` from
    /// `at` on; `None` where the address belongs to no family of parameters.
    pub fn decode(id: u16, v: &[u8], at: usize) -> (r: Option<Output>)
        requires
            at + width(id) <= v.len(),
        ensures
            r == Output::read(id, v@, at as int),
            r is Some <==> width(id) > 0,
            r matches Some(value) ==> value.fits(id) && value.size() == width(id),
    {
        if 0x6000 <= id && id <= 0x6FFF {
            Some(Output::U32(read_u32(v, at)))
        } else if 0x4000 <= id && id <= 0x4FFF {
            Some(Output::U16(read_u16(v, at)))
        } else if 0x3000 <= id && id <= 0x3FFF {
            Some(Output::I16(read_i16(v, at)))
        } else if 0x2000 <= id && id <= 0x2FFF {
            Some(Output::U8(v[at]))
        } else if 0x1000 <= id && id <= 0x1FFF {
            Some(Output::I8(i8_from_byte(v[at])))
        } else {
            None
        }
    }

    /// Appends the bytes of the value, least significant first.
    pub fn append_to(&self, out: &mut Vec<u8>)
        ensures
            final(out)@ == old(out)@ + self.wire(),
    {
        match self {
            Output::U32(x) => push_le(out, *x, 4),
            Output::U16(x) => push_le(out, *x as u32, 2),
            Output::I16(x) => push_le_signed(out, *x as i32, 2),
            Output::U8(x) => push_le(out, *x as u32, 1),
            Output::I8(x) => push_le_signed(out, *x as i32, 1),
        }
    }

    /// The bytes of the value, least significant first.
    pub fn to_le_bytes(&self) -> (r: Vec<u8>)
        ensures
            r@ == self.wire(),
    {
        let mut r: Vec<u8> = Vec::new();
        self.append_to(&mut r);
        r
    }
}

/// The writable parameters with unsigned values of four bytes.
#[derive(Clone, Copy, Debug, PartialEq, Eq, Hash, Structural)]
pub enum ConfigParamWriteU32 {
    /// Which channels are switched on at start-up, as bit flags.
    ChStartupEnaBf,
    /// Key that guards a change of the start-up flags.
    ChStartupKey,
    /// Which channels are latched off on overcurrent, as bit flags.
    ChLatchoffEnaBf,
    /// Key that guards a change of the latch-off flags.
    ChLatchoffKey,
}

impl Default for ConfigParamWriteU32 {
    fn default() -> (r: Self)
        ensures
            r == ConfigParamWriteU32::ChStartupEnaBf,
    {
        ConfigParamWriteU32::ChStartupEnaBf
    }
}

impl ConfigParamWriteU32 {
    /// The parameter in the registry.
    pub open spec fn param(self) -> ConfigParamWrite {
        match self {
            ConfigParamWriteU32::ChStartupEnaBf => ConfigParamWrite::ChStartupEnaBf,
            ConfigParamWriteU32::ChStartupKey => ConfigParamWrite::ChStartupKey,
            ConfigParamWriteU32::ChLatchoffEnaBf => ConfigParamWrite::ChLatchoffEnaBf,
            ConfigParamWriteU32::ChLatchoffKey => ConfigParamWrite::ChLatchoffKey,
        }
    }
}

impl From<ConfigParamWriteU32> for ConfigParamWrite {
    fn from(p: ConfigParamWriteU32) -> (r: ConfigParamWrite) {
        match p {
            ConfigParamWriteU32::ChStartupEnaBf => ConfigParamWrite::ChStartupEnaBf,
            ConfigParamWriteU32::ChStartupKey => ConfigParamWrite::ChStartupKey,
            ConfigParamWriteU32::ChLatchoffEnaBf => ConfigParamWrite::ChLatchoffEnaBf,
            ConfigParamWriteU32::ChLatchoffKey => ConfigParamWrite::ChLatchoffKey,
        }
    }
}

impl FromSpecImpl<ConfigParamWriteU32> for ConfigParamWrite {
    open spec fn obeys_from_spec() -> bool {
        true
    }

    open spec fn from_spec(p: ConfigParamWriteU32) -> ConfigParamWrite {
        p.param()
    }
}

/// The writable parameters with unsigned values of two bytes.
#[derive(Clone, Copy, Debug, PartialEq, Eq, Hash, Structural)]
pub enum ConfigParamWriteU16 {
    /// Timeout of the communication watchdog.
    TtcWdgTimeout,
    /// Key that guards a change of the watchdog timeout.
    TtcWdgTimeoutKey,
    /// Start-up delay of one channel, by channel number.
    ChStartupDelay(u8),
    /// Latch-off delay of one channel, by channel number.
    ChLatchoffDelay(u8),
    /// Lower voltage threshold of safety mode.
    SafetyVoltLoThr,
    /// Upper voltage threshold of safety mode.
    SafetyVoltHiThr,
}

impl Default for ConfigParamWriteU16 {
    fn default() -> (r: Self)
        ensures
            r == ConfigParamWriteU16::TtcWdgTimeout,
    {
        ConfigParamWriteU16::TtcWdgTimeout
    }
}

impl ConfigParamWriteU16 {
    /// The parameter in the registry.
    pub open spec fn param(self) -> ConfigParamWrite {
        match self {
            ConfigParamWriteU16::TtcWdgTimeout => ConfigParamWrite::TtcWdgTimeout,
            ConfigParamWriteU16::TtcWdgTimeoutKey => ConfigParamWrite::TtcWdgTimeoutKey,
            ConfigParamWriteU16::ChStartupDelay(i) => ConfigParamWrite::ChStartupDelay(i),
            ConfigParamWriteU16::ChLatchoffDelay(i) => ConfigParamWrite::ChLatchoffDelay(i),
            ConfigParamWriteU16::SafetyVoltLoThr => ConfigParamWrite::SafetyVoltLoThr,
            ConfigParamWriteU16::SafetyVoltHiThr => ConfigParamWrite::SafetyVoltHiThr,
        }
    }
}

impl From<ConfigParamWriteU16> for ConfigParamWrite {
    fn from(p: ConfigParamWriteU16) -> (r: ConfigParamWrite) {
        match p {
            ConfigParamWriteU16::TtcWdgTimeout => ConfigParamWrite::TtcWdgTimeout,
            ConfigParamWriteU16::TtcWdgTimeoutKey => ConfigParamWrite::TtcWdgTimeoutKey,
            ConfigParamWriteU16::ChStartupDelay(i) => ConfigParamWrite::ChStartupDelay(i),
            ConfigParamWriteU16::ChLatchoffDelay(i) => ConfigParamWrite::ChLatchoffDelay(i),
            ConfigParamWriteU16::SafetyVoltLoThr => ConfigParamWrite::SafetyVoltLoThr,
            ConfigParamWriteU16::SafetyVoltHiThr => ConfigParamWrite::SafetyVoltHiThr,
        }
    }
}

impl FromSpecImpl<ConfigParamWriteU16> for ConfigParamWrite {
    open spec fn obeys_from_spec() -> bool {
        true
    }

    open spec fn from_spec(p: ConfigParamWriteU16) -> ConfigParamWrite {
        p.param()
    }
}

/// The writable parameters with signed values of two bytes.
#[derive(Clone, Copy, Debug, PartialEq, Eq, Hash, Structural)]
pub enum ConfigParamWriteI16 {
    /// Temperature below which the heater of battery pack 1 runs.
    LoThrBp1Heater,
    /// Temperature above which the heater of battery pack 1 stops.
    HiThrBp1Heater,
    /// Lower imbalance threshold of battery pack 1.
    LoThrBp1Unbal,
    /// Upper imbalance threshold of battery pack 1.
    HiThrBp1Unbal,
    /// Bias of the controller temperature.
    McuTempBias,
    /// Multiplier of the controller temperature.
    McuTempPremul,
    /// Divider of the controller temperature.
    McuTempPosDiv,
    /// Bias of temperature sensor 1 of battery pack 1.
    Bp1Temp1Bias,
    /// Bias of temperature sensor 2 of battery pack 1.
    Bp1Temp2Bias,
    /// Bias of temperature sensor 3 of battery pack 1.
    Bp1Temp3Bias,
    /// Multiplier of temperature sensor 1 of battery pack 1.
    Bp1Temp1Premul,
    /// Multiplier of temperature sensor 2 of battery pack 1.
    Bp1Temp2Premul,
    /// Multiplier of temperature sensor 3 of battery pack 1.
    Bp1Temp3Premul,
    /// Divider of temperature sensor 1 of battery pack 1.
    Bp1Temp1PosDiv,
    /// Divider of temperature sensor 2 of battery pack 1.
    Bp1Temp2PosDiv,
    /// Divider of temperature sensor 3 of battery pack 1.
    Bp1Temp3PosDiv,
}

impl Default for ConfigParamWriteI16 {
    fn default() -> (r: Self)
        ensures
            r == ConfigParamWriteI16::LoThrBp1Heater,
    {
        ConfigParamWriteI16::LoThrBp1Heater
    }
}

impl ConfigParamWriteI16 {
    /// The parameter in the registry.
    pub open spec fn param(self) -> ConfigParamWrite {
        match self {
            ConfigParamWriteI16::LoThrBp1Heater => ConfigParamWrite::LoThrBp1Heater,
            ConfigParamWriteI16::HiThrBp1Heater => ConfigParamWrite::HiThrBp1Heater,
            ConfigParamWriteI16::LoThrBp1Unbal => ConfigParamWrite::LoThrBp1Unbal,
            ConfigParamWriteI16::HiThrBp1Unbal => ConfigParamWrite::HiThrBp1Unbal,
            ConfigParamWriteI16::McuTempBias => ConfigParamWrite::McuTempBias,
            ConfigParamWriteI16::McuTempPremul => ConfigParamWrite::McuTempPremul,
            ConfigParamWriteI16::McuTempPosDiv => ConfigParamWrite::McuTempPosDiv,
            ConfigParamWriteI16::Bp1Temp1Bias => ConfigParamWrite::Bp1Temp1Bias,
            ConfigParamWriteI16::Bp1Temp2Bias => ConfigParamWrite::Bp1Temp2Bias,
            ConfigParamWriteI16::Bp1Temp3Bias => ConfigParamWrite::Bp1Temp3Bias,
            ConfigParamWriteI16::Bp1Temp1Premul => ConfigParamWrite::Bp1Temp1Premul,
            ConfigParamWriteI16::Bp1Temp2Premul => ConfigParamWrite::Bp1Temp2Premul,
            ConfigParamWriteI16::Bp1Temp3Premul => ConfigParamWrite::Bp1Temp3Premul,
            ConfigParamWriteI16::Bp1Temp1PosDiv => ConfigParamWrite::Bp1Temp1PosDiv,
            ConfigParamWriteI16::Bp1Temp2PosDiv => ConfigParamWrite::Bp1Temp2PosDiv,
            ConfigParamWriteI16::Bp1Temp3PosDiv => ConfigParamWrite::Bp1Temp3PosDiv,
        }
    }
}

impl From<ConfigParamWriteI16> for ConfigParamWrite {
    fn from(p: ConfigParamWriteI16) -> (r: ConfigParamWrite) {
        match p {
            ConfigParamWriteI16::LoThrBp1Heater => ConfigParamWrite::LoThrBp1Heater,
            ConfigParamWriteI16::HiThrBp1Heater => ConfigParamWrite::HiThrBp1Heater,
            ConfigParamWriteI16::LoThrBp1Unbal => ConfigParamWrite::LoThrBp1Unbal,
            ConfigParamWriteI16::HiThrBp1Unbal => ConfigParamWrite::HiThrBp1Unbal,
            ConfigParamWriteI16::McuTempBias => ConfigParamWrite::McuTempBias,
            ConfigParamWriteI16::McuTempPremul => ConfigParamWrite::McuTempPremul,
            ConfigParamWriteI16::McuTempPosDiv => ConfigParamWrite::McuTempPosDiv,
            ConfigParamWriteI16::Bp1Temp1Bias => ConfigParamWrite::Bp1Temp1Bias,
            ConfigParamWriteI16::Bp1Temp2Bias => ConfigParamWrite::Bp1Temp2Bias,
            ConfigParamWriteI16::Bp1Temp3Bias => ConfigParamWrite::Bp1Temp3Bias,
            ConfigParamWriteI16::Bp1Temp1Premul => ConfigParamWrite::Bp1Temp1Premul,
            ConfigParamWriteI16::Bp1Temp2Premul => ConfigParamWrite::Bp1Temp2Premul,
            ConfigParamWriteI16::Bp1Temp3Premul => ConfigParamWrite::Bp1Temp3Premul,
            ConfigParamWriteI16::Bp1Temp1PosDiv => ConfigParamWrite::Bp1Temp1PosDiv,
            ConfigParamWriteI16::Bp1Temp2PosDiv => ConfigParamWrite::Bp1Temp2PosDiv,
            ConfigParamWriteI16::Bp1Temp3PosDiv => ConfigParamWrite::Bp1Temp3PosDiv,
        }
    }
}

impl FromSpecImpl<ConfigParamWriteI16> for ConfigParamWrite {
    open spec fn obeys_from_spec() -> bool {
        true
    }

    open spec fn from_spec(p: ConfigParamWriteI16) -> ConfigParamWrite {
        p.param()
    }
}

/// The writable parameters with unsigned values of one byte.
#[derive(Clone, Copy, Debug, PartialEq, Eq, Hash, Structural)]
pub enum ConfigParamWriteU8 {
    /// Board identifier.
    BoardId,
    /// Key that guards a change of the board identifier.
    BoardIdKey,
    /// Strength of the running average, as a power of two.
    RavgStrengthP2,
}

impl Default for ConfigParamWriteU8 {
    fn default() -> (r: Self)
        ensures
            r == ConfigParamWriteU8::BoardId,
    {
        ConfigParamWriteU8::BoardId
    }
}

impl ConfigParamWriteU8 {
    /// The parameter in the registry.
    pub open spec fn param(self) -> ConfigParamWrite {
        match self {
            ConfigParamWriteU8::BoardId => ConfigParamWrite::BoardId,
            ConfigParamWriteU8::BoardIdKey => ConfigParamWrite::BoardIdKey,
            ConfigParamWriteU8::RavgStrengthP2 => ConfigParamWrite::RavgStrengthP2,
        }
    }
}

impl From<ConfigParamWriteU8> for ConfigParamWrite {
    fn from(p: ConfigParamWriteU8) -> (r: ConfigParamWrite) {
        match p {
            ConfigParamWriteU8::BoardId => ConfigParamWrite::BoardId,
            ConfigParamWriteU8::BoardIdKey => ConfigParamWrite::BoardIdKey,
            ConfigParamWriteU8::RavgStrengthP2 => ConfigParamWrite::RavgStrengthP2,
        }
    }
}

impl FromSpecImpl<ConfigParamWriteU8> for ConfigParamWrite {
    open spec fn obeys_from_spec() -> bool {
        true
    }

    open spec fn from_spec(p: ConfigParamWriteU8) -> ConfigParamWrite {
        p.param()
    }
}

/// The writable parameters with signed values of one byte. Those of battery
/// packs 2 and 3 have no address in the registry.
#[derive(Clone, Copy, Debug, PartialEq, Eq, Hash, Structural)]
pub enum ConfigParamWriteI8 {
    /// Whether battery pack 1 is heated automatically.
    AutoHeatEnaBP1,
    /// Whether battery pack 2 is heated automatically.
    AutoHeatEnaBP2,
    /// Whether battery pack 3 is heated automatically.
    AutoHeatEnaBP3,
    /// Whether battery pack 1 is balanced automatically.
    AutoBalEnaBP1,
    /// Whether battery pack 2 is balanced automatically.
    AutoBalEnaBP2,
    /// Whether battery pack 3 is balanced automatically.
    AutoBalEnaBP3,
    /// Whether voltage domain 1 is always on.
    Vd1AlwaysEna,
    /// Whether voltage domain 2 is always on.
    Vd2AlwaysEna,
    /// Whether voltage domain 3 is always on.
    Vd3AlwaysEna,
    /// Whether voltage domain 4 is always on.
    Vd4AlwaysEna,
    /// Whether voltage domain 5 is always on.
    Vd5AlwaysEna,
    /// Whether voltage domain 6 is always on.
    Vd6AlwaysEna,
    /// Whether voltage domain 1 is always off.
    Vd1AlwaysDisa,
    /// Whether voltage domain 2 is always off.
    Vd2AlwaysDisa,
    /// Whether voltage domain 3 is always off.
    Vd3AlwaysDisa,
    /// Whether voltage domain 4 is always off.
    Vd4AlwaysDisa,
    /// Whether voltage domain 5 is always off.
    Vd5AlwaysDisa,
    /// Whether voltage domain 6 is always off.
    Vd6AlwaysDisa,
}

impl Default for ConfigParamWriteI8 {
    fn default() -> (r: Self)
        ensures
            r == ConfigParamWriteI8::AutoHeatEnaBP1,
    {
        ConfigParamWriteI8::AutoHeatEnaBP1
    }
}

impl ConfigParamWriteI8 {
    /// The parameter in the registry, where there is one.
    pub open spec fn param(self) -> Option<ConfigParamWrite> {
        match self {
            ConfigParamWriteI8::AutoHeatEnaBP1 => Some(ConfigParamWrite::AutoHeatEnaBP1),
            ConfigParamWriteI8::AutoHeatEnaBP2 => None,
            ConfigParamWriteI8::AutoHeatEnaBP3 => None,
            ConfigParamWriteI8::AutoBalEnaBP1 => Some(ConfigParamWrite::AutoBalEnaBP1),
            ConfigParamWriteI8::AutoBalEnaBP2 => None,
            ConfigParamWriteI8::AutoBalEnaBP3 => None,
            ConfigParamWriteI8::Vd1AlwaysEna => Some(ConfigParamWrite::Vd1AlwaysEna),
            ConfigParamWriteI8::Vd2AlwaysEna => Some(ConfigParamWrite::Vd2AlwaysEna),
            ConfigParamWriteI8::Vd3AlwaysEna => Some(ConfigParamWrite::Vd3AlwaysEna),
            ConfigParamWriteI8::Vd4AlwaysEna => Some(ConfigParamWrite::Vd4AlwaysEna),
            ConfigParamWriteI8::Vd5AlwaysEna => Some(ConfigParamWrite::Vd5AlwaysEna),
            ConfigParamWriteI8::Vd6AlwaysEna => Some(ConfigParamWrite::Vd6AlwaysEna),
            ConfigParamWriteI8::Vd1AlwaysDisa => Some(ConfigParamWrite::Vd1AlwaysDisa),
            ConfigParamWriteI8::Vd2AlwaysDisa => Some(ConfigParamWrite::Vd2AlwaysDisa),
            ConfigParamWriteI8::Vd3AlwaysDisa => Some(ConfigParamWrite::Vd3AlwaysDisa),
            ConfigParamWriteI8::Vd4AlwaysDisa => Some(ConfigParamWrite::Vd4AlwaysDisa),
            ConfigParamWriteI8::Vd5AlwaysDisa => Some(ConfigParamWrite::Vd5AlwaysDisa),
            ConfigParamWriteI8::Vd6AlwaysDisa => Some(ConfigParamWrite::Vd6AlwaysDisa),
        }
    }

    /// The parameter in the registry, where there is one.
    pub fn to_param(&self) -> (r: Option<ConfigParamWrite>)
        ensures
            r == self.param(),
    {
        match self {
            ConfigParamWriteI8::AutoHeatEnaBP1 => Some(ConfigParamWrite::AutoHeatEnaBP1),
            ConfigParamWriteI8::AutoHeatEnaBP2 => None,
            ConfigParamWriteI8::AutoHeatEnaBP3 => None,
            ConfigParamWriteI8::AutoBalEnaBP1 => Some(ConfigParamWrite::AutoBalEnaBP1),
            ConfigParamWriteI8::AutoBalEnaBP2 => None,
            ConfigParamWriteI8::AutoBalEnaBP3 => None,
            ConfigParamWriteI8::Vd1AlwaysEna => Some(ConfigParamWrite::Vd1AlwaysEna),
            ConfigParamWriteI8::Vd2AlwaysEna => Some(ConfigParamWrite::Vd2AlwaysEna),
            ConfigParamWriteI8::Vd3AlwaysEna => Some(ConfigParamWrite::Vd3AlwaysEna),
            ConfigParamWriteI8::Vd4AlwaysEna => Some(ConfigParamWrite::Vd4AlwaysEna),
            ConfigParamWriteI8::Vd5AlwaysEna => Some(ConfigParamWrite::Vd5AlwaysEna),
            ConfigParamWriteI8::Vd6AlwaysEna => Some(ConfigParamWrite::Vd6AlwaysEna),
            ConfigParamWriteI8::Vd1AlwaysDisa => Some(ConfigParamWrite::Vd1AlwaysDisa),
            ConfigParamWriteI8::Vd2AlwaysDisa => Some(ConfigParamWrite::Vd2AlwaysDisa),
            ConfigParamWriteI8::Vd3AlwaysDisa => Some(ConfigParamWrite::Vd3AlwaysDisa),
            ConfigParamWriteI8::Vd4AlwaysDisa => Some(ConfigParamWrite::Vd4AlwaysDisa),
            ConfigParamWriteI8::Vd5AlwaysDisa => Some(ConfigParamWrite::Vd5AlwaysDisa),
            ConfigParamWriteI8::Vd6AlwaysDisa => Some(ConfigParamWrite::Vd6AlwaysDisa),
        }
    }
}

/// The writable configuration parameters. The two delays are families of
/// 32 parameters each, one per channel: the variant holds the channel's
/// number, which is below 32.
#[derive(Clone, Copy, Debug, PartialEq, Eq, Hash, Structural)]
pub enum ConfigParamWrite {
    /// Which channels are switched on at start-up, as bit flags.
    ChStartupEnaBf,
    /// Key that guards a change of the start-up flags.
    ChStartupKey,
    /// Which channels are latched off on overcurrent, as bit flags.
    ChLatchoffEnaBf,
    /// Key that guards a change of the latch-off flags.
    ChLatchoffKey,
    /// Timeout of the communication watchdog.
    TtcWdgTimeout,
    /// Key that guards a change of the watchdog timeout.
    TtcWdgTimeoutKey,
    /// Start-up delay of one channel, by channel number.
    ChStartupDelay(u8),
    /// Latch-off delay of one channel, by channel number.
    ChLatchoffDelay(u8),
    /// Lower voltage threshold of safety mode.
    SafetyVoltLoThr,
    /// Upper voltage threshold of safety mode.
    SafetyVoltHiThr,
    /// Temperature below which the heater of battery pack 1 runs.
    LoThrBp1Heater,
    /// Temperature above which the heater of battery pack 1 stops.
    HiThrBp1Heater,
    /// Lower imbalance threshold of battery pack 1.
    LoThrBp1Unbal,
    /// Upper imbalance threshold of battery pack 1.
    HiThrBp1Unbal,
    /// Bias of the controller temperature.
    McuTempBias,
    /// Multiplier of the controller temperature.
    McuTempPremul,
    /// Divider of the controller temperature.
    McuTempPosDiv,
    /// Bias of temperature sensor 1 of battery pack 1.
    Bp1Temp1Bias,
    /// Bias of temperature sensor 2 of battery pack 1.
    Bp1Temp2Bias,
    /// Bias of temperature sensor 3 of battery pack 1.
    Bp1Temp3Bias,
    /// Multiplier of temperature sensor 1 of battery pack 1.
    Bp1Temp1Premul,
    /// Multiplier of temperature sensor 2 of battery pack 1.
    Bp1Temp2Premul,
    /// Multiplier of temperature sensor 3 of battery pack 1.
    Bp1Temp3Premul,
    /// Divider of temperature sensor 1 of battery pack 1.
    Bp1Temp1PosDiv,
    /// Divider of temperature sensor 2 of battery pack 1.
    Bp1Temp2PosDiv,
    /// Divider of temperature sensor 3 of battery pack 1.
    Bp1Temp3PosDiv,
    /// Board identifier.
    BoardId,
    /// Key that guards a change of the board identifier.
    BoardIdKey,
    /// Strength of the running average, as a power of two.
    RavgStrengthP2,
    /// Whether battery pack 1 is heated automatically.
    AutoHeatEnaBP1,
    /// Whether battery pack 1 is balanced automatically.
    AutoBalEnaBP1,
    /// Whether voltage domain 1 is always on.
    Vd1AlwaysEna,
    /// Whether voltage domain 2 is always on.
    Vd2AlwaysEna,
    /// Whether voltage domain 3 is always on.
    Vd3AlwaysEna,
    /// Whether voltage domain 4 is always on.
    Vd4AlwaysEna,
    /// Whether voltage domain 5 is always on.
    Vd5AlwaysEna,
    /// Whether voltage domain 6 is always on.
    Vd6AlwaysEna,
    /// Whether voltage domain 1 is always off.
    Vd1AlwaysDisa,
    /// Whether voltage domain 2 is always off.
    Vd2AlwaysDisa,
    /// Whether voltage domain 3 is always off.
    Vd3AlwaysDisa,
    /// Whether voltage domain 4 is always off.
    Vd4AlwaysDisa,
    /// Whether voltage domain 5 is always off.
    Vd5AlwaysDisa,
    /// Whether voltage domain 6 is always off.
    Vd6AlwaysDisa,
}

impl Default for ConfigParamWrite {
    fn default() -> (r: Self)
        ensures
            r == ConfigParamWrite::BoardId,
    {
        ConfigParamWrite::BoardId
    }
}

impl ConfigParamWrite {
    /// Whether the parameter is one of the registry: a delay is, where its
    /// channel number is below 32; every other is.
    pub open spec fn declared(self) -> bool {
        match self {
            ConfigParamWrite::ChStartupDelay(i) => i < 32,
            ConfigParamWrite::ChLatchoffDelay(i) => i < 32,
            _ => true,
        }
    }

    /// The address of the parameter. A family of delays lies at 32 addresses
    /// in a row, the delay of channel 0 first.
    pub open spec fn address(self) -> u16
        recommends
            self.declared(),
    {
        match self {
            ConfigParamWrite::ChStartupEnaBf => 0x6002,
            ConfigParamWrite::ChStartupKey => 0x6003,
            ConfigParamWrite::ChLatchoffEnaBf => 0x6004,
            ConfigParamWrite::ChLatchoffKey => 0x6005,
            ConfigParamWrite::TtcWdgTimeout => 0x4000,
            ConfigParamWrite::TtcWdgTimeoutKey => 0x4001,
            ConfigParamWrite::ChStartupDelay(i) => (0x4002 + i) as u16,
            ConfigParamWrite::ChLatchoffDelay(i) => (0x4022 + i) as u16,
            ConfigParamWrite::SafetyVoltLoThr => 0x4042,
            ConfigParamWrite::SafetyVoltHiThr => 0x4043,
            ConfigParamWrite::LoThrBp1Heater => 0x3000,
            ConfigParamWrite::HiThrBp1Heater => 0x3003,
            ConfigParamWrite::LoThrBp1Unbal => 0x3006,
            ConfigParamWrite::HiThrBp1Unbal => 0x3009,
            ConfigParamWrite::McuTempBias => 0x300C,
            ConfigParamWrite::McuTempPremul => 0x300D,
            ConfigParamWrite::McuTempPosDiv => 0x300E,
            ConfigParamWrite::Bp1Temp1Bias => 0x300F,
            ConfigParamWrite::Bp1Temp2Bias => 0x3010,
            ConfigParamWrite::Bp1Temp3Bias => 0x3011,
            ConfigParamWrite::Bp1Temp1Premul => 0x3018,
            ConfigParamWrite::Bp1Temp2Premul => 0x3019,
            ConfigParamWrite::Bp1Temp3Premul => 0x301A,
            ConfigParamWrite::Bp1Temp1PosDiv => 0x3021,
            ConfigParamWrite::Bp1Temp2PosDiv => 0x3022,
            ConfigParamWrite::Bp1Temp3PosDiv => 0x3023,
            ConfigParamWrite::BoardId => 0x2000,
            ConfigParamWrite::BoardIdKey => 0x2001,
            ConfigParamWrite::RavgStrengthP2 => 0x2002,
            ConfigParamWrite::AutoHeatEnaBP1 => 0x1001,
            ConfigParamWrite::AutoBalEnaBP1 => 0x1004,
            ConfigParamWrite::Vd1AlwaysEna => 0x1007,
            ConfigParamWrite::Vd2AlwaysEna => 0x1008,
            ConfigParamWrite::Vd3AlwaysEna => 0x1009,
            ConfigParamWrite::Vd4AlwaysEna => 0x100A,
            ConfigParamWrite::Vd5AlwaysEna => 0x100B,
            ConfigParamWrite::Vd6AlwaysEna => 0x100C,
            ConfigParamWrite::Vd1AlwaysDisa => 0x100E,
            ConfigParamWrite::Vd2AlwaysDisa => 0x100F,
            ConfigParamWrite::Vd3AlwaysDisa => 0x1010,
            ConfigParamWrite::Vd4AlwaysDisa => 0x1011,
            ConfigParamWrite::Vd5AlwaysDisa => 0x1012,
            ConfigParamWrite::Vd6AlwaysDisa => 0x1013,
        }
    }

    /// The parameter at an address, where there is one.
    pub open spec fn identify(id: u16) -> Option<ConfigParamWrite> {
        if id == 0x1001 {
            Some(ConfigParamWrite::AutoHeatEnaBP1)
        } else if id == 0x1004 {
            Some(ConfigParamWrite::AutoBalEnaBP1)
        } else if id == 0x1007 {
            Some(ConfigParamWrite::Vd1AlwaysEna)
        } else if id == 0x1008 {
            Some(ConfigParamWrite::Vd2AlwaysEna)
        } else if id == 0x1009 {
            Some(ConfigParamWrite::Vd3AlwaysEna)
        } else if id == 0x100A {
            Some(ConfigParamWrite::Vd4AlwaysEna)
        } else if id == 0x100B {
            Some(ConfigParamWrite::Vd5AlwaysEna)
        } else if id == 0x100C {
            Some(ConfigParamWrite::Vd6AlwaysEna)
        } else if id == 0x100E {
            Some(ConfigParamWrite::Vd1AlwaysDisa)
        } else if id == 0x100F {
            Some(ConfigParamWrite::Vd2AlwaysDisa)
        } else if id == 0x1010 {
            Some(ConfigParamWrite::Vd3AlwaysDisa)
        } else if id == 0x1011 {
            Some(ConfigParamWrite::Vd4AlwaysDisa)
        } else if id == 0x1012 {
            Some(ConfigParamWrite::Vd5AlwaysDisa)
        } else if id == 0x1013 {
            Some(ConfigParamWrite::Vd6AlwaysDisa)
        } else if id == 0x2000 {
            Some(ConfigParamWrite::BoardId)
        } else if id == 0x2001 {
            Some(ConfigParamWrite::BoardIdKey)
        } else if id == 0x2002 {
            Some(ConfigParamWrite::RavgStrengthP2)
        } else if id == 0x3000 {
            Some(ConfigParamWrite::LoThrBp1Heater)
        } else if id == 0x3003 {
            Some(ConfigParamWrite::HiThrBp1Heater)
        } else if id == 0x3006 {
            Some(ConfigParamWrite::LoThrBp1Unbal)
        } else if id == 0x3009 {
            Some(ConfigParamWrite::HiThrBp1Unbal)
        } else if id == 0x300C {
            Some(ConfigParamWrite::McuTempBias)
        } else if id == 0x300D {
            Some(ConfigParamWrite::McuTempPremul)
        } else if id == 0x300E {
            Some(ConfigParamWrite::McuTempPosDiv)
        } else if id == 0x300F {
            Some(ConfigParamWrite::Bp1Temp1Bias)
        } else if id == 0x3010 {
            Some(ConfigParamWrite::Bp1Temp2Bias)
        } else if id == 0x3011 {
            Some(ConfigParamWrite::Bp1Temp3Bias)
        } else if id == 0x3018 {
            Some(ConfigParamWrite::Bp1Temp1Premul)
        } else if id == 0x3019 {
            Some(ConfigParamWrite::Bp1Temp2Premul)
        } else if id == 0x301A {
            Some(ConfigParamWrite::Bp1Temp3Premul)
        } else if id == 0x3021 {
            Some(ConfigParamWrite::Bp1Temp1PosDiv)
        } else if id == 0x3022 {
            Some(ConfigParamWrite::Bp1Temp2PosDiv)
        } else if id == 0x3023 {
            Some(ConfigParamWrite::Bp1Temp3PosDiv)
        } else if id == 0x4000 {
            Some(ConfigParamWrite::TtcWdgTimeout)
        } else if id == 0x4001 {
            Some(ConfigParamWrite::TtcWdgTimeoutKey)
        } else if 0x4002 <= id <= 0x4021 {
            Some(ConfigParamWrite::ChStartupDelay((id - 0x4002) as u8))
        } else if 0x4022 <= id <= 0x4041 {
            Some(ConfigParamWrite::ChLatchoffDelay((id - 0x4022) as u8))
        } else if id == 0x4042 {
            Some(ConfigParamWrite::SafetyVoltLoThr)
        } else if id == 0x4043 {
            Some(ConfigParamWrite::SafetyVoltHiThr)
        } else if id == 0x6002 {
            Some(ConfigParamWrite::ChStartupEnaBf)
        } else if id == 0x6003 {
            Some(ConfigParamWrite::ChStartupKey)
        } else if id == 0x6004 {
            Some(ConfigParamWrite::ChLatchoffEnaBf)
        } else if id == 0x6005 {
            Some(ConfigParamWrite::ChLatchoffKey)
        } else {
            None
        }
    }

    /// Whether the parameter is one of the registry.
    pub fn is_declared(&self) -> (b: bool)
        ensures
            b == self.declared(),
    {
        match self {
            ConfigParamWrite::ChStartupDelay(i) => *i < DELAY_CHANNELS,
            ConfigParamWrite::ChLatchoffDelay(i) => *i < DELAY_CHANNELS,
            _ => true,
        }
    }

    /// The address of the parameter.
    pub fn get_id(&self) -> (id: u16)
        requires
            self.declared(),
        ensures
            id == self.address(),
    {
        match self {
            ConfigParamWrite::ChStartupEnaBf => 0x6002,
            ConfigParamWrite::ChStartupKey => 0x6003,
            ConfigParamWrite::ChLatchoffEnaBf => 0x6004,
            ConfigParamWrite::ChLatchoffKey => 0x6005,
            ConfigParamWrite::TtcWdgTimeout => 0x4000,
            ConfigParamWrite::TtcWdgTimeoutKey => 0x4001,
            ConfigParamWrite::ChStartupDelay(i) => 0x4002 + *i as u16,
            ConfigParamWrite::ChLatchoffDelay(i) => 0x4022 + *i as u16,
            ConfigParamWrite::SafetyVoltLoThr => 0x4042,
            ConfigParamWrite::SafetyVoltHiThr => 0x4043,
            ConfigParamWrite::LoThrBp1Heater => 0x3000,
            ConfigParamWrite::HiThrBp1Heater => 0x3003,
            ConfigParamWrite::LoThrBp1Unbal => 0x3006,
            ConfigParamWrite::HiThrBp1Unbal => 0x3009,
            ConfigParamWrite::McuTempBias => 0x300C,
            ConfigParamWrite::McuTempPremul => 0x300D,
            ConfigParamWrite::McuTempPosDiv => 0x300E,
            ConfigParamWrite::Bp1Temp1Bias => 0x300F,
            ConfigParamWrite::Bp1Temp2Bias => 0x3010,
            ConfigParamWrite::Bp1Temp3Bias => 0x3011,
            ConfigParamWrite::Bp1Temp1Premul => 0x3018,
            ConfigParamWrite::Bp1Temp2Premul => 0x3019,
            ConfigParamWrite::Bp1Temp3Premul => 0x301A,
            ConfigParamWrite::Bp1Temp1PosDiv => 0x3021,
            ConfigParamWrite::Bp1Temp2PosDiv => 0x3022,
            ConfigParamWrite::Bp1Temp3PosDiv => 0x3023,
            ConfigParamWrite::BoardId => 0x2000,
            ConfigParamWrite::BoardIdKey => 0x2001,
            ConfigParamWrite::RavgStrengthP2 => 0x2002,
            ConfigParamWrite::AutoHeatEnaBP1 => 0x1001,
            ConfigParamWrite::AutoBalEnaBP1 => 0x1004,
            ConfigParamWrite::Vd1AlwaysEna => 0x1007,
            ConfigParamWrite::Vd2AlwaysEna => 0x1008,
            ConfigParamWrite::Vd3AlwaysEna => 0x1009,
            ConfigParamWrite::Vd4AlwaysEna => 0x100A,
            ConfigParamWrite::Vd5AlwaysEna => 0x100B,
            ConfigParamWrite::Vd6AlwaysEna => 0x100C,
            ConfigParamWrite::Vd1AlwaysDisa => 0x100E,
            ConfigParamWrite::Vd2AlwaysDisa => 0x100F,
            ConfigParamWrite::Vd3AlwaysDisa => 0x1010,
            ConfigParamWrite::Vd4AlwaysDisa => 0x1011,
            ConfigParamWrite::Vd5AlwaysDisa => 0x1012,
            ConfigParamWrite::Vd6AlwaysDisa => 0x1013,
        }
    }

    /// The parameter at an address; `None` where the registry has none there.
    /// This undoes `get_id`: what is found lies at the address that was asked
    /// for, and nothing is found only where no parameter lies.
    pub fn from_id(id: u16) -> (r: Option<Self>)
        ensures
            r == Self::identify(id),
            r matches Some(p) ==> p.declared() && p.address() == id,
            r is None ==> forall|p: ConfigParamWrite| p.declared() ==> #[trigger] p.address() != id,
    {
        proof {
            address_undoes_identify(id);
            assert forall|p: ConfigParamWrite| p.declared() implies #[trigger] p.address() != id
                || Self::identify(id) is Some by {
                identify_undoes_address(p);
            }
        }
        if id == 0x1001 {
            Some(ConfigParamWrite::AutoHeatEnaBP1)
        } else if id == 0x1004 {
            Some(ConfigParamWrite::AutoBalEnaBP1)
        } else if id == 0x1007 {
            Some(ConfigParamWrite::Vd1AlwaysEna)
        } else if id == 0x1008 {
            Some(ConfigParamWrite::Vd2AlwaysEna)
        } else if id == 0x1009 {
            Some(ConfigParamWrite::Vd3AlwaysEna)
        } else if id == 0x100A {
            Some(ConfigParamWrite::Vd4AlwaysEna)
        } else if id == 0x100B {
            Some(ConfigParamWrite::Vd5AlwaysEna)
        } else if id == 0x100C {
            Some(ConfigParamWrite::Vd6AlwaysEna)
        } else if id == 0x100E {
            Some(ConfigParamWrite::Vd1AlwaysDisa)
        } else if id == 0x100F {
            Some(ConfigParamWrite::Vd2AlwaysDisa)
        } else if id == 0x1010 {
            Some(ConfigParamWrite::Vd3AlwaysDisa)
        } else if id == 0x1011 {
            Some(ConfigParamWrite::Vd4AlwaysDisa)
        } else if id == 0x1012 {
            Some(ConfigParamWrite::Vd5AlwaysDisa)
        } else if id == 0x1013 {
            Some(ConfigParamWrite::Vd6AlwaysDisa)
        } else if id == 0x2000 {
            Some(ConfigParamWrite::BoardId)
        } else if id == 0x2001 {
            Some(ConfigParamWrite::BoardIdKey)
        } else if id == 0x2002 {
            Some(ConfigParamWrite::RavgStrengthP2)
        } else if id == 0x3000 {
            Some(ConfigParamWrite::LoThrBp1Heater)
        } else if id == 0x3003 {
            Some(ConfigParamWrite::HiThrBp1Heater)
        } else if id == 0x3006 {
            Some(ConfigParamWrite::LoThrBp1Unbal)
        } else if id == 0x3009 {
            Some(ConfigParamWrite::HiThrBp1Unbal)
        } else if id == 0x300C {
            Some(ConfigParamWrite::McuTempBias)
        } else if id == 0x300D {
            Some(ConfigParamWrite::McuTempPremul)
        } else if id == 0x300E {
            Some(ConfigParamWrite::McuTempPosDiv)
        } else if id == 0x300F {
            Some(ConfigParamWrite::Bp1Temp1Bias)
        } else if id == 0x3010 {
            Some(ConfigParamWrite::Bp1Temp2Bias)
        } else if id == 0x3011 {
            Some(ConfigParamWrite::Bp1Temp3Bias)
        } else if id == 0x3018 {
            Some(ConfigParamWrite::Bp1Temp1Premul)
        } else if id == 0x3019 {
            Some(ConfigParamWrite::Bp1Temp2Premul)
        } else if id == 0x301A {
            Some(ConfigParamWrite::Bp1Temp3Premul)
        } else if id == 0x3021 {
            Some(ConfigParamWrite::Bp1Temp1PosDiv)
        } else if id == 0x3022 {
            Some(ConfigParamWrite::Bp1Temp2PosDiv)
        } else if id == 0x3023 {
            Some(ConfigParamWrite::Bp1Temp3PosDiv)
        } else if id == 0x4000 {
            Some(ConfigParamWrite::TtcWdgTimeout)
        } else if id == 0x4001 {
            Some(ConfigParamWrite::TtcWdgTimeoutKey)
        } else if 0x4002 <= id && id <= 0x4021 {
            Some(ConfigParamWrite::ChStartupDelay((id - 0x4002) as u8))
        } else if 0x4022 <= id && id <= 0x4041 {
            Some(ConfigParamWrite::ChLatchoffDelay((id - 0x4022) as u8))
        } else if id == 0x4042 {
            Some(ConfigParamWrite::SafetyVoltLoThr)
        } else if id == 0x4043 {
            Some(ConfigParamWrite::SafetyVoltHiThr)
        } else if id == 0x6002 {
            Some(ConfigParamWrite::ChStartupEnaBf)
        } else if id == 0x6003 {
            Some(ConfigParamWrite::ChStartupKey)
        } else if id == 0x6004 {
            Some(ConfigParamWrite::ChLatchoffEnaBf)
        } else if id == 0x6005 {
            Some(ConfigParamWrite::ChLatchoffKey)
        } else {
            None
        }
    }

    /// How many bytes the value of the parameter has.
    pub fn get_len(&self) -> (n: usize)
        requires
            self.declared(),
        ensures
            n == width(self.address()),
    {
        width_of(self.get_id())
    }
}

/// The read-only parameters.
#[derive(Clone, Copy, Debug, PartialEq, Eq, Hash, Structural)]
pub enum ConfigParamRead {
    /// Channels forced on, as bit flags in use.
    ChForceEnaUseBf,
    /// Start-up flags in use.
    ChStartUpEnaUseBf,
    /// Latch-off flags in use.
    ChLatchoffEnaUseBf,
    /// Channels of voltage domain 1, as bit flags.
    Vd1AllocChBf,
    /// Channels of voltage domain 2, as bit flags.
    Vd2AllocChBf,
    /// Channels of voltage domain 3, as bit flags.
    Vd3AllocChBf,
    /// Channels of voltage domain 4, as bit flags.
    Vd4AllocChBf,
    /// Channels of voltage domain 5, as bit flags.
    Vd5AllocChBf,
    /// Channels of voltage domain 6, as bit flags.
    Vd6AllocChBf,
    /// Channels that commands may switch on, as bit flags.
    SwciChCmdEnaBf,
    /// Channels that commands may switch off, as bit flags.
    SwciChCmdDisaBf,
    /// Address of the unit on the bus.
    TtcI2cSlaveAddr,
    /// How often the configuration was saved.
    ConfNvmSaveCntr,
    /// Checksum of the saved configuration.
    ConfNvmSaveChks,
    /// Cause of the last reset.
    RstCause,
    /// Number of power-on resets.
    RstCntrPwron,
    /// Number of watchdog resets.
    RstCntrWdg,
    /// Number of commanded resets.
    RstCntrCmd,
    /// Number of controller resets.
    RstCntrMcu,
    /// Number of resets for low power.
    RstCntrEmlopo,
    /// Raw reset cause of the controller.
    RstCntrMcuRaw,
    /// Lower voltage threshold of the low-power mode.
    EmlopoVoltLoThr,
    /// Upper voltage threshold of the low-power mode.
    EmlopoVoltHiThr,
    /// Period of the low-power mode.
    EmlopoPeriod,
    /// Lower voltage threshold of safety mode, in use.
    SafetyVoltLoThrUsed,
    /// Upper voltage threshold of safety mode, in use.
    SafetyVoltHiThrUsed,
    /// Time for which safety mode lingers.
    SafetyLinger,
    /// Timeout of the communication watchdog, in use.
    TtcWdgTimeoutUsed,
    /// Time since the previous command.
    TtcPevCmdElapsed,
    /// Calibration of the controller temperature at 30 degrees.
    AdcMcuTempV25T30,
    /// Calibration of the controller temperature at 85 degrees.
    AdcMcuTempV25T85,
    /// System type identifier.
    Stid,
    /// Interface version.
    Ivid,
    /// Board identifier in use.
    BidUsed,
    /// Whether the unit resumes after a short power loss.
    BootResumeShort,
    /// Whether the configuration changed since it was loaded or saved.
    ConfParamChanged,
}

impl Default for ConfigParamRead {
    fn default() -> (r: Self)
        ensures
            r == ConfigParamRead::Stid,
    {
        ConfigParamRead::Stid
    }
}

impl ConfigParamRead {
    /// The address of the parameter.
    pub open spec fn address(self) -> u16 {
        match self {
            ConfigParamRead::ChForceEnaUseBf => 0x6809,
            ConfigParamRead::ChStartUpEnaUseBf => 0x680A,
            ConfigParamRead::ChLatchoffEnaUseBf => 0x680B,
            ConfigParamRead::Vd1AllocChBf => 0x680C,
            ConfigParamRead::Vd2AllocChBf => 0x680D,
            ConfigParamRead::Vd3AllocChBf => 0x680E,
            ConfigParamRead::Vd4AllocChBf => 0x680F,
            ConfigParamRead::Vd5AllocChBf => 0x6810,
            ConfigParamRead::Vd6AllocChBf => 0x6811,
            ConfigParamRead::SwciChCmdEnaBf => 0x6813,
            ConfigParamRead::SwciChCmdDisaBf => 0x6814,
            ConfigParamRead::TtcI2cSlaveAddr => 0x4800,
            ConfigParamRead::ConfNvmSaveCntr => 0x4801,
            ConfigParamRead::ConfNvmSaveChks => 0x4802,
            ConfigParamRead::RstCause => 0x4803,
            ConfigParamRead::RstCntrPwron => 0x4804,
            ConfigParamRead::RstCntrWdg => 0x4805,
            ConfigParamRead::RstCntrCmd => 0x4806,
            ConfigParamRead::RstCntrMcu => 0x4807,
            ConfigParamRead::RstCntrEmlopo => 0x4808,
            ConfigParamRead::RstCntrMcuRaw => 0x4809,
            ConfigParamRead::EmlopoVoltLoThr => 0x480A,
            ConfigParamRead::EmlopoVoltHiThr => 0x480B,
            ConfigParamRead::EmlopoPeriod => 0x480C,
            ConfigParamRead::SafetyVoltLoThrUsed => 0x480D,
            ConfigParamRead::SafetyVoltHiThrUsed => 0x480E,
            ConfigParamRead::SafetyLinger => 0x480F,
            ConfigParamRead::TtcWdgTimeoutUsed => 0x4810,
            ConfigParamRead::TtcPevCmdElapsed => 0x4811,
            ConfigParamRead::AdcMcuTempV25T30 => 0x3800,
            ConfigParamRead::AdcMcuTempV25T85 => 0x3801,
            ConfigParamRead::Stid => 0x2800,
            ConfigParamRead::Ivid => 0x2801,
            ConfigParamRead::BidUsed => 0x2802,
            ConfigParamRead::BootResumeShort => 0x2803,
            ConfigParamRead::ConfParamChanged => 0x1800,
        }
    }

    /// The address of the parameter.
    pub fn get_id(&self) -> (id: u16)
        ensures
            id == self.address(),
    {
        match self {
            ConfigParamRead::ChForceEnaUseBf => 0x6809,
            ConfigParamRead::ChStartUpEnaUseBf => 0x680A,
            ConfigParamRead::ChLatchoffEnaUseBf => 0x680B,
            ConfigParamRead::Vd1AllocChBf => 0x680C,
            ConfigParamRead::Vd2AllocChBf => 0x680D,
            ConfigParamRead::Vd3AllocChBf => 0x680E,
            ConfigParamRead::Vd4AllocChBf => 0x680F,
            ConfigParamRead::Vd5AllocChBf => 0x6810,
            ConfigParamRead::Vd6AllocChBf => 0x6811,
            ConfigParamRead::SwciChCmdEnaBf => 0x6813,
            ConfigParamRead::SwciChCmdDisaBf => 0x6814,
            ConfigParamRead::TtcI2cSlaveAddr => 0x4800,
            ConfigParamRead::ConfNvmSaveCntr => 0x4801,
            ConfigParamRead::ConfNvmSaveChks => 0x4802,
            ConfigParamRead::RstCause => 0x4803,
            ConfigParamRead::RstCntrPwron => 0x4804,
            ConfigParamRead::RstCntrWdg => 0x4805,
            ConfigParamRead::RstCntrCmd => 0x4806,
            ConfigParamRead::RstCntrMcu => 0x4807,
            ConfigParamRead::RstCntrEmlopo => 0x4808,
            ConfigParamRead::RstCntrMcuRaw => 0x4809,
            ConfigParamRead::EmlopoVoltLoThr => 0x480A,
            ConfigParamRead::EmlopoVoltHiThr => 0x480B,
            ConfigParamRead::EmlopoPeriod => 0x480C,
            ConfigParamRead::SafetyVoltLoThrUsed => 0x480D,
            ConfigParamRead::SafetyVoltHiThrUsed => 0x480E,
            ConfigParamRead::SafetyLinger => 0x480F,
            ConfigParamRead::TtcWdgTimeoutUsed => 0x4810,
            ConfigParamRead::TtcPevCmdElapsed => 0x4811,
            ConfigParamRead::AdcMcuTempV25T30 => 0x3800,
            ConfigParamRead::AdcMcuTempV25T85 => 0x3801,
            ConfigParamRead::Stid => 0x2800,
            ConfigParamRead::Ivid => 0x2801,
            ConfigParamRead::BidUsed => 0x2802,
            ConfigParamRead::BootResumeShort => 0x2803,
            ConfigParamRead::ConfParamChanged => 0x1800,
        }
    }

    /// How many bytes the value of the parameter has.
    pub fn get_len(&self) -> (n: usize)
        ensures
            n == width(self.address()),
    {
        width_of(self.get_id())
    }
}

/// Whether `ids` holds the addresses of the registry's writable parameters,
/// each once, in ascending order.
pub open spec fn is_registry(ids: Seq<u16>) -> bool {
    &&& forall|i: int, j: int| 0 <= i < j < ids.len() ==> ids[i] < ids[j]
    &&& forall|id: u16| ids.contains(id) <==> ConfigParamWrite::identify(id) is Some
}

impl ConfigParamWrite {
    /// The addresses of the registry's writable parameters, each once, in
    /// ascending order.
    pub fn iter_id() -> (ids: Vec<u16>)
        ensures
            is_registry(ids@),
    {
        let mut ids: Vec<u16> = Vec::new();
        let mut next: u32 = 0;
        while next <= 0xFFFF
            invariant
                next <= 0x1_0000,
                forall|i: int, j: int| 0 <= i < j < ids@.len() ==> ids@[i] < ids@[j],
                forall|i: int| 0 <= i < ids@.len() ==> ids@[i] < next,
                forall|id: u16| ids@.contains(id) <==> id < next && Self::identify(id) is Some,
            decreases 0x1_0000 - next,
        {
            let id: u16 = next as u16;
            let ghost before = ids@;
            if Self::from_id(id).is_some() {
                ids.push(id);
                proof {
                    assert(ids@[before.len() as int] == id);
                    assert forall|x: u16| ids@.contains(x) <==> x <= id && Self::identify(x) is Some by {
                        if before.contains(x) {
                            let i = choose|i: int| 0 <= i < before.len() && before[i] == x;
                            assert(ids@[i] == x);
                        }
                        if ids@.contains(x) {
                            let i = choose|i: int| 0 <= i < ids@.len() && ids@[i] == x;
                            if i < before.len() {
                                assert(before[i] == x);
                            }
                        }
                    }
                }
            }
            next = next + 1;
        }
        ids
    }
}

/// A parameter of the registry is found again at its address, and so is its
/// address.
pub proof fn identify_undoes_address(p: ConfigParamWrite)
    requires
        p.declared(),
    ensures
        ConfigParamWrite::identify(p.address()) == Some(p),
        ConfigParamWrite::identify(p.address())->Some_0.address() == p.address(),
{
}

/// What is found at an address is a parameter of the registry that lies at
/// that address: no delay of a channel from 32 on is ever found.
pub proof fn address_undoes_identify(id: u16)
    ensures
        ConfigParamWrite::identify(id) matches Some(p) ==> p.declared() && p.address() == id,
{
}

/// The delays of a family lie in a row: that of channel 0 at the base of the
/// family, that of channel 31 at the base and 31, and each is found there.
pub proof fn delays_lie_in_a_row(i: u8)
    requires
        i < 32,
    ensures
        ConfigParamWrite::ChStartupDelay(i).address() == 0x4002 + i,
        ConfigParamWrite::ChLatchoffDelay(i).address() == 0x4022 + i,
        ConfigParamWrite::identify((0x4002 + i) as u16) == Some(ConfigParamWrite::ChStartupDelay(i)),
        ConfigParamWrite::identify((0x4022 + i) as u16) == Some(ConfigParamWrite::ChLatchoffDelay(i)),
{
}

/// No two writable parameters of the registry share an address.
pub proof fn write_addresses_differ(p: ConfigParamWrite, q: ConfigParamWrite)
    requires
        p.declared(),
        q.declared(),
        p.address() == q.address(),
    ensures
        p == q,
{
    identify_undoes_address(p);
    identify_undoes_address(q);
}

/// The addresses of the registry begin with the lowest, 0x1001, and end
/// with the highest, 0x6005; at each of them lies a parameter with a value.
pub proof fn registry_bounds(ids: Seq<u16>)
    requires
        is_registry(ids),
    ensures
        ids.len() > 0,
        ids[0] == 0x1001,
        ids[ids.len() - 1] == 0x6005,
        forall|i: int| 0 <= i < ids.len() ==> width(#[trigger] ids[i]) > 0,
{
    assert(ConfigParamWrite::identify(0x1001) is Some);
    assert(ConfigParamWrite::identify(0x6005) is Some);
    assert(ids.contains(0x1001u16));
    assert(ids.contains(0x6005u16));
    let low = choose|i: int| 0 <= i < ids.len() && ids[i] == 0x1001u16;
    let high = choose|i: int| 0 <= i < ids.len() && ids[i] == 0x6005u16;
    assert(ids.contains(ids[0]));
    assert(ids.contains(ids[ids.len() - 1]));
    assert forall|i: int| 0 <= i < ids.len() implies width(#[trigger] ids[i]) > 0 by {
        assert(ids.contains(ids[i]));
        address_undoes_identify(ids[i]);
        parameters_have_values(ConfigParamWrite::identify(ids[i])->Some_0, ConfigParamRead::Stid);
    }
}

proof fn lemma_same_start(a: Seq<u16>, b: Seq<u16>, n: nat)
    requires
        is_registry(a),
        is_registry(b),
        n <= a.len(),
    ensures
        n <= b.len(),
        forall|i: int| 0 <= i < n ==> a[i] == b[i],
    decreases n,
{
    if n > 0 {
        lemma_same_start(a, b, (n - 1) as nat);
        let last = n - 1;
        assert(a.contains(a[last]));
        assert(b.contains(a[last]));
        let j = choose|j: int| 0 <= j < b.len() && b[j] == a[last];
        if j < last {
            assert(a[j] < a[last]);
        }
        assert(b.contains(b[last]));
        assert(a.contains(b[last]));
        let k = choose|k: int| 0 <= k < a.len() && a[k] == b[last];
        if k < last {
            assert(b[k] < b[last]);
        }
        if k > last {
            assert(a[last] < a[k]);
        }
        if j > last {
            assert(b[last] < b[j]);
        }
    }
}

/// There is one sequence of the registry's addresses, and no other.
pub proof fn registry_is_unique(a: Seq<u16>, b: Seq<u16>)
    requires
        is_registry(a),
        is_registry(b),
    ensures
        a == b,
{
    lemma_same_start(a, b, a.len());
    lemma_same_start(b, a, b.len());
    assert(a =~= b);
}

/// A value is read back from its own bytes: what is written to a parameter
/// and comes back unchanged is the value that was written.
pub proof fn value_reads_back(id: u16, value: Output)
    requires
        value.fits(id),
    ensures
        value.wire().len() == width(id),
        Output::read(id, value.wire(), 0) == Some(value),
{
    let n = value.number();
    if n >= 0 {
        unsigned_reads_back(n);
    }
    if -0x8000 <= n < 0x8000 {
        signed_reads_back(n);
    }
}

/// Every parameter has a value: its address lies where values have one, two
/// or four bytes. A read-only parameter lies 0x0800 above the writable
/// parameters of its size, so no read-only parameter shares an address with a
/// writable one.
pub proof fn parameters_have_values(p: ConfigParamWrite, q: ConfigParamRead)
    requires
        p.declared(),
    ensures
        width(p.address()) > 0,
        width(q.address()) > 0,
        p.address() % 0x1000 < 0x0800,
        q.address() % 0x1000 >= 0x0800,
        p.address() != q.address(),
{
}

} // verus!
