//! The values that requests name and that responses carry: modes, reset
//! causes, and the housekeeping telemetry of the unit and its boards.
//!
//! A telemetry record lies at fixed places in a response. Each record type
//! states its layout as a function from bytes to the record, with every
//! multi-byte value least significant byte first.

use vstd::prelude::*;
use vstd::std_specs::convert::FromSpecImpl;

use crate::bytes::flag_is_set;
use crate::bytes::has_bit;
use crate::bytes::i16_at;
use crate::bytes::read_i16;
use crate::bytes::read_u16;
use crate::bytes::read_u32;
use crate::bytes::signed;
use crate::bytes::u16_at;
use crate::bytes::u32_at;
use crate::channels::BusChannelState;
use crate::error::EpsError;
use crate::error::EpsResult;

verus! {

/// Which part of the unit a request addresses.
#[derive(Clone, Copy, Debug, PartialEq, Eq, Hash, Structural)]
pub enum StID {
    /// The power distribution unit.
    PduStid,
    /// The power battery unit.
    PbuStid,
    /// The power conditioning unit.
    PcuStid,
    /// The power integration unit: the unit as a whole.
    PiuStid,
    /// Whichever part is present.
    OverrideStid,
}

/// The mode that a mode switch asks for.
#[derive(Clone, Copy, Debug, PartialEq, Eq, Hash, Structural)]
pub enum ModeSwitch {
    /// Nominal mode.
    Nominal,
    /// Safety mode.
    Safety,
}

impl Default for ModeSwitch {
    fn default() -> (r: Self)
        ensures
            r == ModeSwitch::Nominal,
    {
        ModeSwitch::Nominal
    }
}

/// The mode that the unit is in.
#[derive(Clone, Copy, Debug, PartialEq, Eq, Hash, Structural)]
pub enum EpsMode {
    /// Starting up.
    Startup,
    /// Nominal mode.
    Nominal,
    /// Safety mode.
    Safety,
    /// Emergency low power.
    Contigency,
}

impl Default for EpsMode {
    fn default() -> (r: Self)
        ensures
            r == EpsMode::Startup,
    {
        EpsMode::Startup
    }
}

impl EpsMode {
    /// The mode that a byte names: 0 to 3 in the order of the variants.
    pub open spec fn of_byte(v: u8) -> EpsResult<EpsMode> {
        if v == 0 {
            Ok(EpsMode::Startup)
        } else if v == 1 {
            Ok(EpsMode::Nominal)
        } else if v == 2 {
            Ok(EpsMode::Safety)
        } else if v == 3 {
            Ok(EpsMode::Contigency)
        } else {
            Err(EpsError::InvalidEpsMode)
        }
    }

    /// Reads a mode from its byte; any byte above 3 is an error.
    pub fn try_from(v: u8) -> (r: EpsResult<EpsMode>)
        ensures
            r == Self::of_byte(v),
    {
        match v {
            0 => Ok(EpsMode::Startup),
            1 => Ok(EpsMode::Nominal),
            2 => Ok(EpsMode::Safety),
            3 => Ok(EpsMode::Contigency),
            _ => Err(EpsError::InvalidEpsMode),
        }
    }
}

/// Why the unit was last reset.
#[derive(Clone, Copy, Debug, PartialEq, Eq, Hash, Structural)]
pub enum ResetCause {
    /// Power was applied.
    PowerOn,
    /// The watchdog ran out.
    Watchdog,
    /// A command asked for it.
    Commanded,
    /// The controller was upset.
    EpsUpset,
    /// Power was too low.
    EmergLowPwr,
}

impl Default for ResetCause {
    fn default() -> (r: Self)
        ensures
            r == ResetCause::PowerOn,
    {
        ResetCause::PowerOn
    }
}

impl ResetCause {
    /// The reset cause that a byte names: 0 to 4 in the order of the variants.
    pub open spec fn of_byte(v: u8) -> EpsResult<ResetCause> {
        if v == 0 {
            Ok(ResetCause::PowerOn)
        } else if v == 1 {
            Ok(ResetCause::Watchdog)
        } else if v == 2 {
            Ok(ResetCause::Commanded)
        } else if v == 3 {
            Ok(ResetCause::EpsUpset)
        } else if v == 4 {
            Ok(ResetCause::EmergLowPwr)
        } else {
            Err(EpsError::InvalidResetCause)
        }
    }

    /// Reads a reset cause from its byte; any byte above 4 is an error.
    pub fn try_from(v: u8) -> (r: EpsResult<ResetCause>)
        ensures
            r == Self::of_byte(v),
    {
        match v {
            0 => Ok(ResetCause::PowerOn),
            1 => Ok(ResetCause::Watchdog),
            2 => Ok(ResetCause::Commanded),
            3 => Ok(ResetCause::EpsUpset),
            4 => Ok(ResetCause::EmergLowPwr),
            _ => Err(EpsError::InvalidResetCause),
        }
    }
}

/// Which housekeeping data of the power distribution unit a request asks for.
#[derive(Clone, Copy, Debug, PartialEq, Eq, Hash, Structural)]
pub enum PDUHkSel {
    /// Raw readings.
    PDURawHK,
    /// Engineering values.
    PDUEngHK,
    /// Running averages of the engineering values.
    PDUAvgHK,
}

impl Default for PDUHkSel {
    fn default() -> (r: Self)
        ensures
            r == PDUHkSel::PDUEngHK,
    {
        PDUHkSel::PDUEngHK
    }
}

/// Which housekeeping data of the power battery unit a request asks for.
#[derive(Clone, Copy, Debug, PartialEq, Eq, Hash, Structural)]
pub enum PBUHkSel {
    /// Raw readings.
    PBURawHK,
    /// Engineering values.
    PBUEngHK,
    /// Running averages of the engineering values.
    PBUAvgHK,
}

impl Default for PBUHkSel {
    fn default() -> (r: Self)
        ensures
            r == PBUHkSel::PBUEngHK,
    {
        PBUHkSel::PBUEngHK
    }
}

/// Which housekeeping data of the power conditioning unit a request asks for.
#[derive(Clone, Copy, Debug, PartialEq, Eq, Hash, Structural)]
pub enum PCUHkSel {
    /// Raw readings.
    PCURawHK,
    /// Engineering values.
    PCUEngHK,
    /// Running averages of the engineering values.
    PCUAvgHK,
}

impl Default for PCUHkSel {
    fn default() -> (r: Self)
        ensures
            r == PCUHkSel::PCUEngHK,
    {
        PCUHkSel::PCUEngHK
    }
}

/// Which housekeeping data of the unit as a whole a request asks for.
#[derive(Clone, Copy, Debug, PartialEq, Eq, Hash, Structural)]
pub enum PIUHkSel {
    /// Raw readings.
    PIURawHK,
    /// Engineering values.
    PIUEngHK,
    /// Running averages of the engineering values.
    PIUAvgHK,
}

impl Default for PIUHkSel {
    fn default() -> (r: Self)
        ensures
            r == PIUHkSel::PIUEngHK,
    {
        PIUHkSel::PIUEngHK
    }
}

/// Voltage, current and power as raw readings.
#[derive(Clone, Copy, Debug, Default, PartialEq, Eq, Hash, Structural)]
pub struct VIPRawData {
    /// Voltage, raw.
    pub volt_raw: i16,
    /// Current, raw.
    pub curr_raw: i16,
    /// Power, raw.
    pub pwr_raw: i16,
}

/// Ten times a power reading, which counts units of ten: the product as a
/// 16-bit value in two's complement, so that a product beyond the 16 bits
/// wraps around.
pub open spec fn times_ten(raw: i16) -> i16 {
    signed((10 * raw) % 0x1_0000, 16) as i16
}

/// Voltage, current and power.
#[derive(Clone, Copy, Debug, Default, PartialEq, Eq, Hash, Structural)]
pub struct VIPData {
    /// Voltage.
    pub volt: i16,
    /// Current.
    pub curr: i16,
    /// Power: ten times the reading on the wire.
    pub pwr: i16,
}

impl VIPData {
    /// Number of bytes that the record takes.
    pub const SIZE: usize = 6;

    /// The record that lies in `s` from `at` on.
    pub open spec fn parse(s: Seq<u8>, at: int) -> VIPData
        recommends
            0 <= at,
            at + 6 <= s.len(),
    {
        VIPData {
            volt: i16_at(s, at),
            curr: i16_at(s, at + 2),
            pwr: times_ten(i16_at(s, at + 4)),
        }
    }

    /// Reads the record that lies in `v` from `at` on.
    pub fn from_bytes(v: &[u8], at: usize) -> (r: VIPData)
        requires
            at + 6 <= v.len(),
        ensures
            r == Self::parse(v@, at as int),
    {
        VIPData {
            volt: read_i16(v, at),
            curr: read_i16(v, at + 2),
            pwr: read_i16(v, at + 4).wrapping_mul(10),
        }
    }
}

/// A battery pack as raw readings.
#[derive(Clone, Copy, Debug, Default, PartialEq, Eq, Hash, Structural)]
pub struct BattPackRawData {
    /// Output of the pack.
    pub vip_bp_output_raw: VIPRawData,
    /// Status flags of the pack.
    pub stat_bp_raw: u16,
    /// Voltage of cell 1.
    pub volt_cell1_raw: u16,
    /// Voltage of cell 2.
    pub volt_cell2_raw: u16,
    /// Voltage of cell 3.
    pub volt_cell3_raw: u16,
    /// Voltage of cell 4.
    pub volt_cell4_raw: u16,
    /// Temperature sensor 1.
    pub bat_temp1_raw: u16,
    /// Temperature sensor 2.
    pub bat_temp2_raw: u16,
    /// Temperature sensor 3.
    pub bat_temp3_raw: u16,
}

/// The status flags of a battery pack.
#[derive(Clone, Copy, Debug, Default, PartialEq, Eq, Hash, Structural)]
pub struct BattPackStatus {
    /// Cell 1 is under voltage: bit 0.
    pub batt1_under: bool,
    /// Cell 2 is under voltage: bit 1.
    pub batt2_under: bool,
    /// Cell 3 is under voltage: bit 2.
    pub batt3_under: bool,
    /// Cell 4 is under voltage: bit 3.
    pub batt4_under: bool,
    /// Cell 1 is over voltage: bit 4.
    pub batt1_over: bool,
    /// Cell 2 is over voltage: bit 5.
    pub batt2_over: bool,
    /// Cell 3 is over voltage: bit 6.
    pub batt3_over: bool,
    /// Cell 4 is over voltage: bit 7.
    pub batt4_over: bool,
    /// Cell 1 is being balanced: bit 8.
    pub batt1_balancing: bool,
    /// Cell 2 is being balanced: bit 9.
    pub batt2_balancing: bool,
    /// Cell 3 is being balanced: bit 10.
    pub batt3_balancing: bool,
    /// Cell 4 is being balanced: bit 11.
    pub batt4_balancing: bool,
    /// The heater runs: bit 12.
    pub heater: bool,
    /// The pack is enabled: bit 15.
    pub enabled: bool,
}

impl BattPackStatus {
    /// The record that bit flags stand for: each field is the bit that its
    /// description names, counted from the least significant.
    pub open spec fn from_flags(flags: u16) -> BattPackStatus {
        BattPackStatus {
            batt1_under: has_bit(flags, 0),
            batt2_under: has_bit(flags, 1),
            batt3_under: has_bit(flags, 2),
            batt4_under: has_bit(flags, 3),
            batt1_over: has_bit(flags, 4),
            batt2_over: has_bit(flags, 5),
            batt3_over: has_bit(flags, 6),
            batt4_over: has_bit(flags, 7),
            batt1_balancing: has_bit(flags, 8),
            batt2_balancing: has_bit(flags, 9),
            batt3_balancing: has_bit(flags, 10),
            batt4_balancing: has_bit(flags, 11),
            heater: has_bit(flags, 12),
            enabled: has_bit(flags, 15),
        }
    }
}

impl From<u16> for BattPackStatus {
    fn from(u: u16) -> (r: BattPackStatus) {
        BattPackStatus {
            batt1_under: flag_is_set(u, 0),
            batt2_under: flag_is_set(u, 1),
            batt3_under: flag_is_set(u, 2),
            batt4_under: flag_is_set(u, 3),
            batt1_over: flag_is_set(u, 4),
            batt2_over: flag_is_set(u, 5),
            batt3_over: flag_is_set(u, 6),
            batt4_over: flag_is_set(u, 7),
            batt1_balancing: flag_is_set(u, 8),
            batt2_balancing: flag_is_set(u, 9),
            batt3_balancing: flag_is_set(u, 10),
            batt4_balancing: flag_is_set(u, 11),
            heater: flag_is_set(u, 12),
            enabled: flag_is_set(u, 15),
        }
    }
}

impl FromSpecImpl<u16> for BattPackStatus {
    open spec fn obeys_from_spec() -> bool {
        true
    }

    open spec fn from_spec(u: u16) -> BattPackStatus {
        BattPackStatus::from_flags(u)
    }
}

/// A battery pack.
#[derive(Clone, Copy, Debug, Default, PartialEq, Eq, Hash, Structural)]
pub struct BattPackData {
    /// Output of the pack.
    pub vip_bp_output: VIPData,
    /// Status flags of the pack.
    pub stat_bp: u16,
    /// Voltage of cell 1.
    pub volt_cell1: i16,
    /// Voltage of cell 2.
    pub volt_cell2: i16,
    /// Voltage of cell 3.
    pub volt_cell3: i16,
    /// Voltage of cell 4.
    pub volt_cell4: i16,
    /// Temperature sensor 1.
    pub bat_temp1: i16,
    /// Temperature sensor 2.
    pub bat_temp2: i16,
    /// Temperature sensor 3.
    pub bat_temp3: i16,
}

impl BattPackData {
    /// Number of bytes that the record takes.
    pub const SIZE: usize = 22;

    /// The record that lies in `s` from `at` on.
    pub open spec fn parse(s: Seq<u8>, at: int) -> BattPackData
        recommends
            0 <= at,
            at + 22 <= s.len(),
    {
        BattPackData {
            vip_bp_output: VIPData::parse(s, at),
            stat_bp: u16_at(s, at + 6),
            volt_cell1: i16_at(s, at + 8),
            volt_cell2: i16_at(s, at + 10),
            volt_cell3: i16_at(s, at + 12),
            volt_cell4: i16_at(s, at + 14),
            bat_temp1: i16_at(s, at + 16),
            bat_temp2: i16_at(s, at + 18),
            bat_temp3: i16_at(s, at + 20),
        }
    }

    /// Reads the record that lies in `v` from `at` on.
    pub fn from_bytes(v: &[u8], at: usize) -> (r: BattPackData)
        requires
            at + 22 <= v.len(),
        ensures
            r == Self::parse(v@, at as int),
    {
        BattPackData {
            vip_bp_output: VIPData::from_bytes(v, at),
            stat_bp: read_u16(v, at + 6),
            volt_cell1: read_i16(v, at + 8),
            volt_cell2: read_i16(v, at + 10),
            volt_cell3: read_i16(v, at + 12),
            volt_cell4: read_i16(v, at + 14),
            bat_temp1: read_i16(v, at + 16),
            bat_temp2: read_i16(v, at + 18),
            bat_temp3: read_i16(v, at + 20),
        }
    }
}

/// A conditioning chain as raw readings.
#[derive(Clone, Copy, Debug, Default, PartialEq, Eq, Hash, Structural)]
pub struct CondChnRawData {
    /// Output of the chain.
    pub vip_cc_output_raw: VIPData,
    /// Input voltage of the tracker.
    pub volt_in_mppt_raw: u16,
    /// Input current of the tracker.
    pub curr_in_mppt_raw: u16,
    /// Output voltage of the tracker.
    pub volt_out_mppt_raw: u16,
    /// Output current of the tracker.
    pub curr_out_mppt_raw: u16,
}

/// A conditioning chain.
#[derive(Clone, Copy, Debug, Default, PartialEq, Eq, Hash, Structural)]
pub struct CondChnData {
    /// Output of the chain.
    pub vip_cc_output: VIPData,
    /// Input voltage of the tracker.
    pub volt_in_mppt: i16,
    /// Input current of the tracker.
    pub curr_in_mppt: i16,
    /// Output voltage of the tracker.
    pub volt_out_mppt: i16,
    /// Output current of the tracker.
    pub curr_out_mppt: i16,
}

impl CondChnData {
    /// Number of bytes that the record takes.
    pub const SIZE: usize = 14;

    /// The record that lies in `s` from `at` on.
    pub open spec fn parse(s: Seq<u8>, at: int) -> CondChnData
        recommends
            0 <= at,
            at + 14 <= s.len(),
    {
        CondChnData {
            vip_cc_output: VIPData::parse(s, at),
            volt_in_mppt: i16_at(s, at + 6),
            curr_in_mppt: i16_at(s, at + 8),
            volt_out_mppt: i16_at(s, at + 10),
            curr_out_mppt: i16_at(s, at + 12),
        }
    }

    /// Reads the record that lies in `v` from `at` on.
    pub fn from_bytes(v: &[u8], at: usize) -> (r: CondChnData)
        requires
            at + 14 <= v.len(),
        ensures
            r == Self::parse(v@, at as int),
    {
        CondChnData {
            vip_cc_output: VIPData::from_bytes(v, at),
            volt_in_mppt: read_i16(v, at + 6),
            curr_in_mppt: read_i16(v, at + 8),
            volt_out_mppt: read_i16(v, at + 10),
            curr_out_mppt: read_i16(v, at + 12),
        }
    }
}

/// A conditioning chain without its output, as raw readings.
#[derive(Clone, Copy, Debug, Default, PartialEq, Eq, Hash, Structural)]
pub struct CondChnShortRawData {
    /// Input voltage of the tracker.
    pub volt_in_mppt_raw: u16,
    /// Input current of the tracker.
    pub curr_in_mppt_raw: u16,
    /// Output voltage of the tracker.
    pub volt_out_mppt_raw: u16,
    /// Output current of the tracker.
    pub curr_out_mppt_raw: u16,
}

/// A conditioning chain without its output.
#[derive(Clone, Copy, Debug, Default, PartialEq, Eq, Hash, Structural)]
pub struct CondChnShortData {
    /// Input voltage of the tracker.
    pub volt_in_mppt: i16,
    /// Input current of the tracker.
    pub curr_in_mppt: i16,
    /// Output voltage of the tracker.
    pub volt_out_mppt: i16,
    /// Output current of the tracker.
    pub curr_out_mppt: i16,
}

impl CondChnShortData {
    /// Number of bytes that the record takes.
    pub const SIZE: usize = 8;

    /// The record that lies in `s` from `at` on.
    pub open spec fn parse(s: Seq<u8>, at: int) -> CondChnShortData
        recommends
            0 <= at,
            at + 8 <= s.len(),
    {
        CondChnShortData {
            volt_in_mppt: i16_at(s, at),
            curr_in_mppt: i16_at(s, at + 2),
            volt_out_mppt: i16_at(s, at + 4),
            curr_out_mppt: i16_at(s, at + 6),
        }
    }

    /// Reads the record that lies in `v` from `at` on.
    pub fn from_bytes(v: &[u8], at: usize) -> (r: CondChnShortData)
        requires
            at + 8 <= v.len(),
        ensures
            r == Self::parse(v@, at as int),
    {
        CondChnShortData {
            volt_in_mppt: read_i16(v, at),
            curr_in_mppt: read_i16(v, at + 2),
            volt_out_mppt: read_i16(v, at + 4),
            curr_out_mppt: read_i16(v, at + 6),
        }
    }
}

/// The status of the unit.
#[derive(Clone, Copy, Debug, Default, PartialEq, Eq, Hash, Structural)]
pub struct SystemStatus {
    /// Mode of the unit.
    pub mode: EpsMode,
    /// Whether the configuration changed since it was loaded or saved.
    pub conf: bool,
    /// Cause of the last reset.
    pub reset_cause: ResetCause,
    /// Seconds since the unit started.
    pub uptime: u32,
    /// First internal error of the control cycle.
    pub error: u16,
    /// Number of power-on resets.
    pub rc_cnt_pwron: u16,
    /// Number of watchdog resets.
    pub rc_cnt_wdg: u16,
    /// Number of commanded resets.
    pub rc_cnt_cmd: u16,
    /// Number of controller resets.
    pub rc_cnt_mcu: u16,
    /// Number of resets for low power.
    pub rc_cnt_lowpwr: u16,
    /// Time between the previous command and this one.
    pub prevcmd_elapsed: u16,
    /// Seconds since 1970.
    pub unix_time: u32,
    /// Year, without the century.
    pub unix_year: u8,
    /// Month.
    pub unix_month: u8,
    /// Day of the month.
    pub unix_day: u8,
    /// Hour.
    pub unix_hour: u8,
    /// Minute.
    pub unix_minute: u8,
    /// Second.
    pub unix_second: u8,
}

impl SystemStatus {
    /// Number of bytes that the record takes.
    pub const SIZE: usize = 31;

    /// The record that lies in `s` from `at` on, where its first byte names a
    /// mode and its third a reset cause; else the error of the mode, or, where
    /// the mode is right, that of the reset cause.
    pub open spec fn parse(s: Seq<u8>, at: int) -> EpsResult<SystemStatus>
        recommends
            0 <= at,
            at + 31 <= s.len(),
    {
        match (EpsMode::of_byte(s[at]), ResetCause::of_byte(s[at + 2])) {
            (Err(e), _) => Err(e),
            (Ok(_), Err(e)) => Err(e),
            (Ok(mode), Ok(reset_cause)) => Ok(
                SystemStatus {
                    mode,
                    conf: s[at + 1] % 2 == 1,
                    reset_cause,
                    uptime: u32_at(s, at + 3),
                    error: u16_at(s, at + 7),
                    rc_cnt_pwron: u16_at(s, at + 9),
                    rc_cnt_wdg: u16_at(s, at + 11),
                    rc_cnt_cmd: u16_at(s, at + 13),
                    rc_cnt_mcu: u16_at(s, at + 15),
                    rc_cnt_lowpwr: u16_at(s, at + 17),
                    prevcmd_elapsed: u16_at(s, at + 19),
                    unix_time: u32_at(s, at + 21),
                    unix_year: s[at + 25],
                    unix_month: s[at + 26],
                    unix_day: s[at + 27],
                    unix_hour: s[at + 28],
                    unix_minute: s[at + 29],
                    unix_second: s[at + 30],
                },
            ),
        }
    }

    /// Reads the record that lies in `v` from `at` on.
    pub fn from_bytes(v: &[u8], at: usize) -> (r: EpsResult<SystemStatus>)
        requires
            at + 31 <= v.len(),
        ensures
            r == Self::parse(v@, at as int),
    {
        let mode = match EpsMode::try_from(v[at]) {
            Ok(m) => m,
            Err(e) => {
                return Err(e);
            },
        };
        let reset_cause = match ResetCause::try_from(v[at + 2]) {
            Ok(c) => c,
            Err(e) => {
                return Err(e);
            },
        };
        let low: u8 = v[at + 1];
        assert(low & 0x01 != 0 <==> low % 2 == 1) by (bit_vector);
        Ok(
            SystemStatus {
                mode,
                conf: v[at + 1] & 0x01 != 0,
                reset_cause,
                uptime: read_u32(v, at + 3),
                error: read_u16(v, at + 7),
                rc_cnt_pwron: read_u16(v, at + 9),
                rc_cnt_wdg: read_u16(v, at + 11),
                rc_cnt_cmd: read_u16(v, at + 13),
                rc_cnt_mcu: read_u16(v, at + 15),
                rc_cnt_lowpwr: read_u16(v, at + 17),
                prevcmd_elapsed: read_u16(v, at + 19),
                unix_time: read_u32(v, at + 21),
                unix_year: v[at + 25],
                unix_month: v[at + 26],
                unix_day: v[at + 27],
                unix_hour: v[at + 28],
                unix_minute: v[at + 29],
                unix_second: v[at + 30],
            },
        )
    }
}

/// For each of sixteen channels, whether it was latched off for overcurrent.
#[derive(Clone, Copy, Debug, Default, PartialEq, Eq, Hash, Structural)]
pub struct ChannelOverCurrentState {
    /// Channel 0: bit 0.
    pub ch00: bool,
    /// Channel 1: bit 1.
    pub ch01: bool,
    /// Channel 2: bit 2.
    pub ch02: bool,
    /// Channel 3: bit 3.
    pub ch03: bool,
    /// Channel 4: bit 4.
    pub ch04: bool,
    /// Channel 5: bit 5.
    pub ch05: bool,
    /// Channel 6: bit 6.
    pub ch06: bool,
    /// Channel 7: bit 7.
    pub ch07: bool,
    /// Channel 8: bit 8.
    pub ch08: bool,
    /// Channel 9: bit 9.
    pub ch09: bool,
    /// Channel 10: bit 10.
    pub ch10: bool,
    /// Channel 11: bit 11.
    pub ch11: bool,
    /// Channel 12: bit 12.
    pub ch12: bool,
    /// Channel 13: bit 13.
    pub ch13: bool,
    /// Channel 14: bit 14.
    pub ch14: bool,
    /// Channel 15: bit 15.
    pub ch15: bool,
}

impl ChannelOverCurrentState {
    /// The record that bit flags stand for: each field is the bit that its
    /// description names, counted from the least significant.
    pub open spec fn from_flags(flags: u16) -> ChannelOverCurrentState {
        ChannelOverCurrentState {
            ch00: has_bit(flags, 0),
            ch01: has_bit(flags, 1),
            ch02: has_bit(flags, 2),
            ch03: has_bit(flags, 3),
            ch04: has_bit(flags, 4),
            ch05: has_bit(flags, 5),
            ch06: has_bit(flags, 6),
            ch07: has_bit(flags, 7),
            ch08: has_bit(flags, 8),
            ch09: has_bit(flags, 9),
            ch10: has_bit(flags, 10),
            ch11: has_bit(flags, 11),
            ch12: has_bit(flags, 12),
            ch13: has_bit(flags, 13),
            ch14: has_bit(flags, 14),
            ch15: has_bit(flags, 15),
        }
    }
}

impl From<u16> for ChannelOverCurrentState {
    fn from(u: u16) -> (r: ChannelOverCurrentState) {
        ChannelOverCurrentState {
            ch00: flag_is_set(u, 0),
            ch01: flag_is_set(u, 1),
            ch02: flag_is_set(u, 2),
            ch03: flag_is_set(u, 3),
            ch04: flag_is_set(u, 4),
            ch05: flag_is_set(u, 5),
            ch06: flag_is_set(u, 6),
            ch07: flag_is_set(u, 7),
            ch08: flag_is_set(u, 8),
            ch09: flag_is_set(u, 9),
            ch10: flag_is_set(u, 10),
            ch11: flag_is_set(u, 11),
            ch12: flag_is_set(u, 12),
            ch13: flag_is_set(u, 13),
            ch14: flag_is_set(u, 14),
            ch15: flag_is_set(u, 15),
        }
    }
}

impl FromSpecImpl<u16> for ChannelOverCurrentState {
    open spec fn obeys_from_spec() -> bool {
        true
    }

    open spec fn from_spec(u: u16) -> ChannelOverCurrentState {
        ChannelOverCurrentState::from_flags(u)
    }
}

/// The overcurrent faults of the output channels.
#[derive(Clone, Copy, Debug, Default, PartialEq, Eq, Hash, Structural)]
pub struct OverCurrentFaultState {
    /// Which of channels 0 to 15 are on.
    pub stat_ch_on: BusChannelState,
    /// Which of channels 16 to 31 are on.
    pub stat_ch_ext_on: BusChannelState,
    /// Which of channels 0 to 15 are latched off for overcurrent.
    pub stat_ch_ocf: ChannelOverCurrentState,
    /// Which of channels 16 to 31 are latched off for overcurrent.
    pub stat_ch_ext_ocf: ChannelOverCurrentState,
    /// Number of overcurrent faults of channel 0 (VD0_0, 3.3 V).
    pub ocf_cnt_ch00: u16,
    /// Number of overcurrent faults of channel 1 (VD1_0, 5 V).
    pub ocf_cnt_ch01: u16,
    /// Number of overcurrent faults of channel 2 (VD1_1, 5 V).
    pub ocf_cnt_ch02: u16,
    /// Number of overcurrent faults of channel 3 (VD1_2, 5 V).
    pub ocf_cnt_ch03: u16,
    /// Number of overcurrent faults of channel 4 (VD1_3, 3.3 V).
    pub ocf_cnt_ch04: u16,
    /// Number of overcurrent faults of channel 5 (VD2_0, 3.3 V).
    pub ocf_cnt_ch05: u16,
    /// Number of overcurrent faults of channel 6 (VD2_1, 3.3 V).
    pub ocf_cnt_ch06: u16,
    /// Number of overcurrent faults of channel 7 (VD2_2, 3.3 V).
    pub ocf_cnt_ch07: u16,
    /// Number of overcurrent faults of channel 8 (VD2_3, 3.3 V).
    pub ocf_cnt_ch08: u16,
    /// Number of overcurrent faults of channel 9 (VD0_1, 3.3 V).
    pub ocf_cnt_ch09: u16,
    /// Number of overcurrent faults of channel 10 (VD0_2, 3.3 V).
    pub ocf_cnt_ch10: u16,
    /// Number of overcurrent faults of channel 11 (VD0_3, 3.3 V).
    pub ocf_cnt_ch11: u16,
    /// Number of overcurrent faults of channel 12 (VD3_0, 5.4 V).
    pub ocf_cnt_ch12: u16,
    /// Number of overcurrent faults of channel 13 (VD3_1, 5.4 V).
    pub ocf_cnt_ch13: u16,
    /// Number of overcurrent faults of channel 14 (VD4_0, 12 V).
    pub ocf_cnt_ch14: u16,
    /// Number of overcurrent faults of channel 15 (VD4_1, 12 V).
    pub ocf_cnt_ch15: u16,
    /// Number of overcurrent faults of channel 16 (VD5_0, 28.2 V).
    pub ocf_cnt_ch16: u16,
}

impl OverCurrentFaultState {
    /// Number of bytes that the record takes.
    pub const SIZE: usize = 42;

    /// The record that lies in `s` from `at` on.
    pub open spec fn parse(s: Seq<u8>, at: int) -> OverCurrentFaultState
        recommends
            0 <= at,
            at + 42 <= s.len(),
    {
        OverCurrentFaultState {
            stat_ch_on: BusChannelState::from_flags(u16_at(s, at)),
            stat_ch_ext_on: BusChannelState::from_flags(u16_at(s, at + 2)),
            stat_ch_ocf: ChannelOverCurrentState::from_flags(u16_at(s, at + 4)),
            stat_ch_ext_ocf: ChannelOverCurrentState::from_flags(u16_at(s, at + 6)),
            ocf_cnt_ch00: u16_at(s, at + 8),
            ocf_cnt_ch01: u16_at(s, at + 10),
            ocf_cnt_ch02: u16_at(s, at + 12),
            ocf_cnt_ch03: u16_at(s, at + 14),
            ocf_cnt_ch04: u16_at(s, at + 16),
            ocf_cnt_ch05: u16_at(s, at + 18),
            ocf_cnt_ch06: u16_at(s, at + 20),
            ocf_cnt_ch07: u16_at(s, at + 22),
            ocf_cnt_ch08: u16_at(s, at + 24),
            ocf_cnt_ch09: u16_at(s, at + 26),
            ocf_cnt_ch10: u16_at(s, at + 28),
            ocf_cnt_ch11: u16_at(s, at + 30),
            ocf_cnt_ch12: u16_at(s, at + 32),
            ocf_cnt_ch13: u16_at(s, at + 34),
            ocf_cnt_ch14: u16_at(s, at + 36),
            ocf_cnt_ch15: u16_at(s, at + 38),
            ocf_cnt_ch16: u16_at(s, at + 40),
        }
    }

    /// Reads the record that lies in `v` from `at` on.
    pub fn from_bytes(v: &[u8], at: usize) -> (r: OverCurrentFaultState)
        requires
            at + 42 <= v.len(),
        ensures
            r == Self::parse(v@, at as int),
    {
        OverCurrentFaultState {
            stat_ch_on: BusChannelState::from(read_u16(v, at)),
            stat_ch_ext_on: BusChannelState::from(read_u16(v, at + 2)),
            stat_ch_ocf: ChannelOverCurrentState::from(read_u16(v, at + 4)),
            stat_ch_ext_ocf: ChannelOverCurrentState::from(read_u16(v, at + 6)),
            ocf_cnt_ch00: read_u16(v, at + 8),
            ocf_cnt_ch01: read_u16(v, at + 10),
            ocf_cnt_ch02: read_u16(v, at + 12),
            ocf_cnt_ch03: read_u16(v, at + 14),
            ocf_cnt_ch04: read_u16(v, at + 16),
            ocf_cnt_ch05: read_u16(v, at + 18),
            ocf_cnt_ch06: read_u16(v, at + 20),
            ocf_cnt_ch07: read_u16(v, at + 22),
            ocf_cnt_ch08: read_u16(v, at + 24),
            ocf_cnt_ch09: read_u16(v, at + 26),
            ocf_cnt_ch10: read_u16(v, at + 28),
            ocf_cnt_ch11: read_u16(v, at + 30),
            ocf_cnt_ch12: read_u16(v, at + 32),
            ocf_cnt_ch13: read_u16(v, at + 34),
            ocf_cnt_ch14: read_u16(v, at + 36),
            ocf_cnt_ch15: read_u16(v, at + 38),
            ocf_cnt_ch16: read_u16(v, at + 40),
        }
    }
}

/// Housekeeping data of the power distribution unit.
#[derive(Clone, Copy, Debug, Default, PartialEq, Eq, Hash, Structural)]
pub struct PDUHk {
    /// Voltage of the board supply.
    pub volt_brdsup: i16,
    /// Temperature of the controller.
    pub temp: i16,
    /// Input of the unit.
    pub vip_input: VIPData,
    /// Which of channels 0 to 15 are on.
    pub stat_ch_on: BusChannelState,
    /// Which of channels 16 to 31 are on.
    pub stat_ch_ext_on: BusChannelState,
    /// Which of channels 0 to 15 are latched off for overcurrent.
    pub stat_ch_ocf: ChannelOverCurrentState,
    /// Which of channels 16 to 31 are latched off for overcurrent.
    pub stat_ch_ext_ocf: ChannelOverCurrentState,
    /// Output of voltage domain 0.
    pub vip_vd0: VIPData,
    /// Output of voltage domain 1.
    pub vip_vd1: VIPData,
    /// Output of voltage domain 2.
    pub vip_vd2: VIPData,
    /// Output of voltage domain 3.
    pub vip_vd3: VIPData,
    /// Output of voltage domain 4.
    pub vip_vd4: VIPData,
    /// Output of voltage domain 5.
    pub vip_vd5: VIPData,
    /// Output of voltage domain 6.
    pub vip_vd6: VIPData,
    /// Output of channel 0 (VD0_0, 3.3 V).
    pub vip_cnt_ch00: VIPData,
    /// Output of channel 1 (VD1_0, 5 V).
    pub vip_cnt_ch01: VIPData,
    /// Output of channel 2 (VD1_1, 5 V).
    pub vip_cnt_ch02: VIPData,
    /// Output of channel 3 (VD1_2, 5 V).
    pub vip_cnt_ch03: VIPData,
    /// Output of channel 4 (VD1_3, 3.3 V).
    pub vip_cnt_ch04: VIPData,
    /// Output of channel 5 (VD2_0, 3.3 V).
    pub vip_cnt_ch05: VIPData,
    /// Output of channel 6 (VD2_1, 3.3 V).
    pub vip_cnt_ch06: VIPData,
    /// Output of channel 7 (VD2_2, 3.3 V).
    pub vip_cnt_ch07: VIPData,
    /// Output of channel 8 (VD2_3, 3.3 V).
    pub vip_cnt_ch08: VIPData,
    /// Output of channel 9 (VD0_1, 3.3 V).
    pub vip_cnt_ch09: VIPData,
    /// Output of channel 10 (VD0_2, 3.3 V).
    pub vip_cnt_ch10: VIPData,
    /// Output of channel 11 (VD0_3, 3.3 V).
    pub vip_cnt_ch11: VIPData,
    /// Output of channel 12 (VD3_0, 5.4 V).
    pub vip_cnt_ch12: VIPData,
    /// Output of channel 13 (VD3_1, 5.4 V).
    pub vip_cnt_ch13: VIPData,
    /// Output of channel 14 (VD4_0, 12 V).
    pub vip_cnt_ch14: VIPData,
    /// Output of channel 15 (VD4_1, 12 V).
    pub vip_cnt_ch15: VIPData,
}

impl PDUHk {
    /// Number of bytes that the record takes.
    pub const SIZE: usize = 156;

    /// The record that lies in `s` from `at` on.
    pub open spec fn parse(s: Seq<u8>, at: int) -> PDUHk
        recommends
            0 <= at,
            at + 156 <= s.len(),
    {
        PDUHk {
            volt_brdsup: i16_at(s, at),
            temp: i16_at(s, at + 2),
            vip_input: VIPData::parse(s, at + 4),
            stat_ch_on: BusChannelState::from_flags(u16_at(s, at + 10)),
            stat_ch_ext_on: BusChannelState::from_flags(u16_at(s, at + 12)),
            stat_ch_ocf: ChannelOverCurrentState::from_flags(u16_at(s, at + 14)),
            stat_ch_ext_ocf: ChannelOverCurrentState::from_flags(u16_at(s, at + 16)),
            vip_vd0: VIPData::parse(s, at + 18),
            vip_vd1: VIPData::parse(s, at + 24),
            vip_vd2: VIPData::parse(s, at + 30),
            vip_vd3: VIPData::parse(s, at + 36),
            vip_vd4: VIPData::parse(s, at + 42),
            vip_vd5: VIPData::parse(s, at + 48),
            vip_vd6: VIPData::parse(s, at + 54),
            vip_cnt_ch00: VIPData::parse(s, at + 60),
            vip_cnt_ch01: VIPData::parse(s, at + 66),
            vip_cnt_ch02: VIPData::parse(s, at + 72),
            vip_cnt_ch03: VIPData::parse(s, at + 78),
            vip_cnt_ch04: VIPData::parse(s, at + 84),
            vip_cnt_ch05: VIPData::parse(s, at + 90),
            vip_cnt_ch06: VIPData::parse(s, at + 96),
            vip_cnt_ch07: VIPData::parse(s, at + 102),
            vip_cnt_ch08: VIPData::parse(s, at + 108),
            vip_cnt_ch09: VIPData::parse(s, at + 114),
            vip_cnt_ch10: VIPData::parse(s, at + 120),
            vip_cnt_ch11: VIPData::parse(s, at + 126),
            vip_cnt_ch12: VIPData::parse(s, at + 132),
            vip_cnt_ch13: VIPData::parse(s, at + 138),
            vip_cnt_ch14: VIPData::parse(s, at + 144),
            vip_cnt_ch15: VIPData::parse(s, at + 150),
        }
    }

    /// Reads the record that lies in `v` from `at` on.
    pub fn from_bytes(v: &[u8], at: usize) -> (r: PDUHk)
        requires
            at + 156 <= v.len(),
        ensures
            r == Self::parse(v@, at as int),
    {
        PDUHk {
            volt_brdsup: read_i16(v, at),
            temp: read_i16(v, at + 2),
            vip_input: VIPData::from_bytes(v, at + 4),
            stat_ch_on: BusChannelState::from(read_u16(v, at + 10)),
            stat_ch_ext_on: BusChannelState::from(read_u16(v, at + 12)),
            stat_ch_ocf: ChannelOverCurrentState::from(read_u16(v, at + 14)),
            stat_ch_ext_ocf: ChannelOverCurrentState::from(read_u16(v, at + 16)),
            vip_vd0: VIPData::from_bytes(v, at + 18),
            vip_vd1: VIPData::from_bytes(v, at + 24),
            vip_vd2: VIPData::from_bytes(v, at + 30),
            vip_vd3: VIPData::from_bytes(v, at + 36),
            vip_vd4: VIPData::from_bytes(v, at + 42),
            vip_vd5: VIPData::from_bytes(v, at + 48),
            vip_vd6: VIPData::from_bytes(v, at + 54),
            vip_cnt_ch00: VIPData::from_bytes(v, at + 60),
            vip_cnt_ch01: VIPData::from_bytes(v, at + 66),
            vip_cnt_ch02: VIPData::from_bytes(v, at + 72),
            vip_cnt_ch03: VIPData::from_bytes(v, at + 78),
            vip_cnt_ch04: VIPData::from_bytes(v, at + 84),
            vip_cnt_ch05: VIPData::from_bytes(v, at + 90),
            vip_cnt_ch06: VIPData::from_bytes(v, at + 96),
            vip_cnt_ch07: VIPData::from_bytes(v, at + 102),
            vip_cnt_ch08: VIPData::from_bytes(v, at + 108),
            vip_cnt_ch09: VIPData::from_bytes(v, at + 114),
            vip_cnt_ch10: VIPData::from_bytes(v, at + 120),
            vip_cnt_ch11: VIPData::from_bytes(v, at + 126),
            vip_cnt_ch12: VIPData::from_bytes(v, at + 132),
            vip_cnt_ch13: VIPData::from_bytes(v, at + 138),
            vip_cnt_ch14: VIPData::from_bytes(v, at + 144),
            vip_cnt_ch15: VIPData::from_bytes(v, at + 150),
        }
    }
}

/// Housekeeping data of the power battery unit.
#[derive(Clone, Copy, Debug, Default, PartialEq, Eq, Hash, Structural)]
pub struct PBUHk {
    /// Voltage of the board supply.
    pub volt_brdsup: i16,
    /// Temperature of the controller.
    pub temp: i16,
    /// Input of the unit.
    pub vip_input: VIPData,
    /// Status flags of the battery.
    pub stat_bu: BattPackStatus,
    /// Battery pack 1.
    pub bp1: BattPackData,
}

impl PBUHk {
    /// Number of bytes that the record takes.
    pub const SIZE: usize = 34;

    /// The record that lies in `s` from `at` on.
    pub open spec fn parse(s: Seq<u8>, at: int) -> PBUHk
        recommends
            0 <= at,
            at + 34 <= s.len(),
    {
        PBUHk {
            volt_brdsup: i16_at(s, at),
            temp: i16_at(s, at + 2),
            vip_input: VIPData::parse(s, at + 4),
            stat_bu: BattPackStatus::from_flags(u16_at(s, at + 10)),
            bp1: BattPackData::parse(s, at + 12),
        }
    }

    /// Reads the record that lies in `v` from `at` on.
    pub fn from_bytes(v: &[u8], at: usize) -> (r: PBUHk)
        requires
            at + 34 <= v.len(),
        ensures
            r == Self::parse(v@, at as int),
    {
        PBUHk {
            volt_brdsup: read_i16(v, at),
            temp: read_i16(v, at + 2),
            vip_input: VIPData::from_bytes(v, at + 4),
            stat_bu: BattPackStatus::from(read_u16(v, at + 10)),
            bp1: BattPackData::from_bytes(v, at + 12),
        }
    }
}

/// Housekeeping data of the power conditioning unit.
#[derive(Clone, Copy, Debug, Default, PartialEq, Eq, Hash, Structural)]
pub struct PCUHk {
    /// Voltage of the board supply.
    pub volt_brdsup: i16,
    /// Temperature of the controller.
    pub temp: i16,
    /// Output of the unit.
    pub vip_output: VIPData,
    /// Conditioning chain 1.
    pub ccd1: CondChnData,
    /// Conditioning chain 2.
    pub ccd2: CondChnData,
    /// Conditioning chain 3.
    pub ccd3: CondChnData,
    /// Conditioning chain 4.
    pub ccd4: CondChnData,
}

impl PCUHk {
    /// Number of bytes that the record takes.
    pub const SIZE: usize = 66;

    /// The record that lies in `s` from `at` on.
    pub open spec fn parse(s: Seq<u8>, at: int) -> PCUHk
        recommends
            0 <= at,
            at + 66 <= s.len(),
    {
        PCUHk {
            volt_brdsup: i16_at(s, at),
            temp: i16_at(s, at + 2),
            vip_output: VIPData::parse(s, at + 4),
            ccd1: CondChnData::parse(s, at + 10),
            ccd2: CondChnData::parse(s, at + 24),
            ccd3: CondChnData::parse(s, at + 38),
            ccd4: CondChnData::parse(s, at + 52),
        }
    }

    /// Reads the record that lies in `v` from `at` on.
    pub fn from_bytes(v: &[u8], at: usize) -> (r: PCUHk)
        requires
            at + 66 <= v.len(),
        ensures
            r == Self::parse(v@, at as int),
    {
        PCUHk {
            volt_brdsup: read_i16(v, at),
            temp: read_i16(v, at + 2),
            vip_output: VIPData::from_bytes(v, at + 4),
            ccd1: CondChnData::from_bytes(v, at + 10),
            ccd2: CondChnData::from_bytes(v, at + 24),
            ccd3: CondChnData::from_bytes(v, at + 38),
            ccd4: CondChnData::from_bytes(v, at + 52),
        }
    }
}

/// Housekeeping data of the unit as a whole.
#[derive(Clone, Copy, Debug, Default, PartialEq, Eq, Hash, Structural)]
pub struct PIUHk {
    /// Voltage of the board supply.
    pub volt_brdsup: i16,
    /// Temperature of the controller.
    pub temp: i16,
    /// Input of the distribution part.
    pub vip_dist_input: VIPData,
    /// Input of the battery part.
    pub vip_batt_input: VIPData,
    /// Which of channels 0 to 15 are on, as bit flags.
    pub stat_ch_on: u16,
    /// Which of channels 0 to 15 are latched off for overcurrent, as bit flags.
    pub stat_ch_ocf: u16,
    /// Status flags of the battery.
    pub batt_stat: u16,
    /// Temperature sensor 2 of the battery.
    pub batt_temp2: i16,
    /// Temperature sensor 3 of the battery.
    pub batt_temp3: i16,
    /// Voltage of domain 0.
    pub volt_vd0: i16,
    /// Voltage of domain 1.
    pub volt_vd1: i16,
    /// Voltage of domain 2.
    pub volt_vd2: i16,
    /// Output of channel 0 (VD0_0, 3.3 V).
    pub vip_cnt_ch00: VIPData,
    /// Output of channel 1 (VD1_0, 5 V).
    pub vip_cnt_ch01: VIPData,
    /// Output of channel 2 (VD1_1, 5 V).
    pub vip_cnt_ch02: VIPData,
    /// Output of channel 3 (VD1_2, 5 V).
    pub vip_cnt_ch03: VIPData,
    /// Output of channel 4 (VD1_3, 3.3 V).
    pub vip_cnt_ch04: VIPData,
    /// Output of channel 5 (VD2_0, 3.3 V).
    pub vip_cnt_ch05: VIPData,
    /// Output of channel 6 (VD2_1, 3.3 V).
    pub vip_cnt_ch06: VIPData,
    /// Output of channel 7 (VD2_2, 3.3 V).
    pub vip_cnt_ch07: VIPData,
    /// Output of channel 8 (VD2_3, 3.3 V).
    pub vip_cnt_ch08: VIPData,
    /// Conditioning chain 1.
    pub ccd1: CondChnShortData,
    /// Conditioning chain 2.
    pub ccd2: CondChnShortData,
    /// Conditioning chain 3.
    pub ccd3: CondChnShortData,
    /// Output of channel 9 (VD0_1, 3.3 V).
    pub vip_cnt_ch09: VIPData,
    /// Output of channel 10 (VD0_2, 3.3 V).
    pub vip_cnt_ch10: VIPData,
    /// Output of channel 11 (VD0_3, 3.3 V).
    pub vip_cnt_ch11: VIPData,
    /// Output of channel 12 (VD3_0, 5.4 V).
    pub vip_cnt_ch12: VIPData,
    /// Output of channel 13 (VD3_1, 5.4 V).
    pub vip_cnt_ch13: VIPData,
    /// Output of channel 14 (VD4_0, 12 V).
    pub vip_cnt_ch14: VIPData,
    /// Output of channel 15 (VD4_1, 12 V).
    pub vip_cnt_ch15: VIPData,
    /// Conditioning chain 4.
    pub ccd4: CondChnShortData,
    /// Conditioning chain 5.
    pub ccd5: CondChnShortData,
    /// Which of channels 16 to 31 are on, as bit flags.
    pub stat_ch_ext_on: u16,
    /// Which of channels 16 to 31 are latched off for overcurrent, as bit flags.
    pub stat_ch_ext_ocf: u16,
    /// Output of channel 16 (VD5_0, 28.2 V).
    pub vip_cnt_ch16: VIPData,
}

impl PIUHk {
    /// Number of bytes that the record takes.
    pub const SIZE: usize = 178;

    /// The record that lies in `s` from `at` on.
    pub open spec fn parse(s: Seq<u8>, at: int) -> PIUHk
        recommends
            0 <= at,
            at + 178 <= s.len(),
    {
        PIUHk {
            volt_brdsup: i16_at(s, at),
            temp: i16_at(s, at + 2),
            vip_dist_input: VIPData::parse(s, at + 4),
            vip_batt_input: VIPData::parse(s, at + 10),
            stat_ch_on: u16_at(s, at + 16),
            stat_ch_ocf: u16_at(s, at + 18),
            batt_stat: u16_at(s, at + 20),
            batt_temp2: i16_at(s, at + 22),
            batt_temp3: i16_at(s, at + 24),
            volt_vd0: i16_at(s, at + 26),
            volt_vd1: i16_at(s, at + 28),
            volt_vd2: i16_at(s, at + 30),
            vip_cnt_ch00: VIPData::parse(s, at + 32),
            vip_cnt_ch01: VIPData::parse(s, at + 38),
            vip_cnt_ch02: VIPData::parse(s, at + 44),
            vip_cnt_ch03: VIPData::parse(s, at + 50),
            vip_cnt_ch04: VIPData::parse(s, at + 56),
            vip_cnt_ch05: VIPData::parse(s, at + 62),
            vip_cnt_ch06: VIPData::parse(s, at + 68),
            vip_cnt_ch07: VIPData::parse(s, at + 74),
            vip_cnt_ch08: VIPData::parse(s, at + 80),
            ccd1: CondChnShortData::parse(s, at + 86),
            ccd2: CondChnShortData::parse(s, at + 94),
            ccd3: CondChnShortData::parse(s, at + 102),
            vip_cnt_ch09: VIPData::parse(s, at + 110),
            vip_cnt_ch10: VIPData::parse(s, at + 116),
            vip_cnt_ch11: VIPData::parse(s, at + 122),
            vip_cnt_ch12: VIPData::parse(s, at + 128),
            vip_cnt_ch13: VIPData::parse(s, at + 134),
            vip_cnt_ch14: VIPData::parse(s, at + 140),
            vip_cnt_ch15: VIPData::parse(s, at + 146),
            ccd4: CondChnShortData::parse(s, at + 152),
            ccd5: CondChnShortData::parse(s, at + 160),
            stat_ch_ext_on: u16_at(s, at + 168),
            stat_ch_ext_ocf: u16_at(s, at + 170),
            vip_cnt_ch16: VIPData::parse(s, at + 172),
        }
    }

    /// Reads the record that lies in `v` from `at` on.
    pub fn from_bytes(v: &[u8], at: usize) -> (r: PIUHk)
        requires
            at + 178 <= v.len(),
        ensures
            r == Self::parse(v@, at as int),
    {
        PIUHk {
            volt_brdsup: read_i16(v, at),
            temp: read_i16(v, at + 2),
            vip_dist_input: VIPData::from_bytes(v, at + 4),
            vip_batt_input: VIPData::from_bytes(v, at + 10),
            stat_ch_on: read_u16(v, at + 16),
            stat_ch_ocf: read_u16(v, at + 18),
            batt_stat: read_u16(v, at + 20),
            batt_temp2: read_i16(v, at + 22),
            batt_temp3: read_i16(v, at + 24),
            volt_vd0: read_i16(v, at + 26),
            volt_vd1: read_i16(v, at + 28),
            volt_vd2: read_i16(v, at + 30),
            vip_cnt_ch00: VIPData::from_bytes(v, at + 32),
            vip_cnt_ch01: VIPData::from_bytes(v, at + 38),
            vip_cnt_ch02: VIPData::from_bytes(v, at + 44),
            vip_cnt_ch03: VIPData::from_bytes(v, at + 50),
            vip_cnt_ch04: VIPData::from_bytes(v, at + 56),
            vip_cnt_ch05: VIPData::from_bytes(v, at + 62),
            vip_cnt_ch06: VIPData::from_bytes(v, at + 68),
            vip_cnt_ch07: VIPData::from_bytes(v, at + 74),
            vip_cnt_ch08: VIPData::from_bytes(v, at + 80),
            ccd1: CondChnShortData::from_bytes(v, at + 86),
            ccd2: CondChnShortData::from_bytes(v, at + 94),
            ccd3: CondChnShortData::from_bytes(v, at + 102),
            vip_cnt_ch09: VIPData::from_bytes(v, at + 110),
            vip_cnt_ch10: VIPData::from_bytes(v, at + 116),
            vip_cnt_ch11: VIPData::from_bytes(v, at + 122),
            vip_cnt_ch12: VIPData::from_bytes(v, at + 128),
            vip_cnt_ch13: VIPData::from_bytes(v, at + 134),
            vip_cnt_ch14: VIPData::from_bytes(v, at + 140),
            vip_cnt_ch15: VIPData::from_bytes(v, at + 146),
            ccd4: CondChnShortData::from_bytes(v, at + 152),
            ccd5: CondChnShortData::from_bytes(v, at + 160),
            stat_ch_ext_on: read_u16(v, at + 168),
            stat_ch_ext_ocf: read_u16(v, at + 170),
            vip_cnt_ch16: VIPData::from_bytes(v, at + 172),
        }
    }
}

} // verus!
