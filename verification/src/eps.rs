//! The operations of the unit, each as the transfer that asks for it and
//! the reading of the response that comes back. Nothing here touches the
//! bus: a transfer says what is to be written and how many bytes are to be
//! read, and a response is the bytes that were read.

use vstd::prelude::*;

use crate::bytes::le_bytes;
use crate::bytes::push_le;
use crate::bytes::push_le_signed;
use crate::channels::channel_flags;
use crate::channels::channel_flags_name_the_channels;
use crate::channels::flags_are_unique;
use crate::channels::BusChannel;
use crate::channels::BusChannelState;
use crate::channels::BusGroup;
use crate::config::width;
use crate::config::width_of;
use crate::config::ConfigParamRead;
use crate::config::ConfigParamWrite;
use crate::config::ConfigParamWriteI16;
use crate::config::ConfigParamWriteI8;
use crate::config::ConfigParamWriteU16;
use crate::config::ConfigParamWriteU32;
use crate::config::ConfigParamWriteU8;
use crate::config::Output;
use crate::error::EpsError;
use crate::error::EpsResult;
use crate::match_stat;
use crate::objects::ModeSwitch;
use crate::objects::OverCurrentFaultState;
use crate::objects::PBUHk;
use crate::objects::PBUHkSel;
use crate::objects::PCUHk;
use crate::objects::PCUHkSel;
use crate::objects::PDUHk;
use crate::objects::PDUHkSel;
use crate::objects::PIUHk;
use crate::objects::PIUHkSel;
use crate::objects::SystemStatus;
use crate::stat_result;
use crate::ALL_IVID;
use crate::CANCEL_OP;
use crate::CONFIG_KEY;
use crate::CORRECT_TIME;
use crate::DELAY_MS;
use crate::GET_CONFIG_PARA;
use crate::GET_PBU_HK_DATA_AVRG;
use crate::GET_PBU_HK_DATA_ENG;
use crate::GET_PBU_HK_DATA_RAW;
use crate::GET_PCU_HK_DATA_AVRG;
use crate::GET_PCU_HK_DATA_ENG;
use crate::GET_PCU_HK_DATA_RAW;
use crate::GET_PDU_HK_DATA_AVRG;
use crate::GET_PDU_HK_DATA_ENG;
use crate::GET_PDU_HK_DATA_RAW;
use crate::GET_PDU_OC_FAULT_STATE;
use crate::GET_PIU_HK_DATA_AVRG;
use crate::GET_PIU_HK_DATA_ENG;
use crate::GET_PIU_HK_DATA_RAW;
use crate::GET_SYS_STATUS;
use crate::LOAD_CONFIG;
use crate::NO_OP;
use crate::OUTPUT_BUS_CHANNEL_OFF;
use crate::OUTPUT_BUS_CHANNEL_ON;
use crate::OUTPUT_BUS_GROUP_OFF;
use crate::OUTPUT_BUS_GROUP_ON;
use crate::OUTPUT_BUS_GROUP_STATE;
use crate::OVERRIDE_BID;
use crate::PIU_STID;
use crate::RESET_CONFIG_ALL;
use crate::RESET_CONFIG_PARA;
use crate::RST_CAUSE_CNTR;
use crate::SAVE_CONFIG;
use crate::SET_CONFIG_PARA;
use crate::STAT_AT;
use crate::SWITCH_TO_NOMINAL_MODE;
use crate::SWITCH_TO_SAFETY_MODE;
use crate::SYS_RESET;
use crate::WATCHDOG;

verus! {

/// Length of a response that carries a status and nothing else.
pub const STATUS_RX_LEN: usize = 5;

/// Place of a housekeeping record in its response.
pub const HK_AT: usize = 6;

/// Place of a parameter's value in its response.
pub const VALUE_AT: usize = 8;

/// Place of the status record in its response.
pub const SYSTEM_STATUS_AT: usize = 5;

/// The highest number that names a single output channel.
pub const LAST_CHANNEL: u8 = 0x10;

/// The bytes of a request after the system type identifier: interface
/// version, command code and board identifier, then what the command takes.
pub open spec fn frame(cmd_code: u8, payload: Seq<u8>) -> Seq<u8> {
    seq![ALL_IVID, cmd_code, OVERRIDE_BID] + payload
}

/// One exchange on the bus: what to write, how many bytes to read back, and
/// how long to pause in between.
#[derive(Clone, Debug, PartialEq, Eq)]
pub struct Transfer {
    /// The first byte written, the system type identifier.
    pub cmd: u8,
    /// The bytes written after it.
    pub data: Vec<u8>,
    /// Number of bytes to read back.
    pub rx_len: usize,
    /// Pause between writing and reading, in milliseconds.
    pub delay_ms: u64,
}

impl Transfer {
    /// Whether this is the transfer of the command `cmd_code` with
    /// `payload`, to the unit as a whole, that reads `rx_len` bytes back.
    pub open spec fn carries(&self, cmd_code: u8, payload: Seq<u8>, rx_len: int) -> bool {
        &&& self.cmd == PIU_STID
        &&& self.data@ == frame(cmd_code, payload)
        &&& self.rx_len == rx_len
        &&& self.delay_ms == DELAY_MS
    }
}

fn request(cmd_code: u8, payload: Vec<u8>, rx_len: usize) -> (t: Transfer)
    ensures
        t.carries(cmd_code, payload@, rx_len as int),
{
    let mut data: Vec<u8> = Vec::new();
    data.push(ALL_IVID);
    data.push(cmd_code);
    data.push(OVERRIDE_BID);
    let mut rest = payload;
    data.append(&mut rest);
    assert(data@ =~= frame(cmd_code, payload@));
    Transfer { cmd: PIU_STID, data, rx_len, delay_ms: DELAY_MS }
}

fn one_byte(b: u8) -> (v: Vec<u8>)
    ensures
        v@ == seq![b],
{
    let mut v: Vec<u8> = Vec::new();
    v.push(b);
    assert(v@ =~= seq![b]);
    v
}

fn address_bytes(id: u16) -> (v: Vec<u8>)
    ensures
        v@ == le_bytes(id as int, 2),
{
    let mut v: Vec<u8> = Vec::new();
    push_le(&mut v, id as u32, 2);
    assert(v@ =~= le_bytes(id as int, 2));
    v
}

/// The command code of a group command.
pub open spec fn group_code(typ_group: BusGroup) -> u8 {
    match typ_group {
        BusGroup::BusGroupOn => OUTPUT_BUS_GROUP_ON,
        BusGroup::BusGroupOff => OUTPUT_BUS_GROUP_OFF,
        BusGroup::BusGroupState => OUTPUT_BUS_GROUP_STATE,
    }
}

/// Asks whether the unit is there, and changes nothing.
pub fn eps_ping() -> (t: Transfer)
    ensures
        t.carries(NO_OP, Seq::empty(), 5),
{
    request(NO_OP, Vec::new(), STATUS_RX_LEN)
}

/// Resets the unit. The unit accepts the command only with the key 0xA6.
pub fn sys_reset(ret_key: u8) -> (t: Transfer)
    ensures
        t.carries(SYS_RESET, seq![ret_key], 5),
{
    request(SYS_RESET, one_byte(ret_key), STATUS_RX_LEN)
}

/// Switches off every output channel that commands switched on.
pub fn shutdown_all() -> (t: Transfer)
    ensures
        t.carries(CANCEL_OP, Seq::empty(), 5),
{
    request(CANCEL_OP, Vec::new(), STATUS_RX_LEN)
}

/// Restarts the watchdog timer.
pub fn watchdog_reset() -> (t: Transfer)
    ensures
        t.carries(WATCHDOG, Seq::empty(), 5),
{
    request(WATCHDOG, Vec::new(), STATUS_RX_LEN)
}

/// Switches the output channels named by number, all in one command. A
/// number from 16 on names no channel and is an error, found before anything
/// is sent. The command that sets every channel wants each of them on or off;
/// naming channels leaves the others open, so it ends in the same error.
pub fn set_group_outputs(typ_group: BusGroup, channels: Vec<u8>) -> (r: EpsResult<Transfer>)
    ensures
        r is Ok <==> typ_group != BusGroup::BusGroupState && forall|i: int|
            0 <= i < channels@.len() ==> channels@[i] < 16,
        r matches Ok(t) ==> t.carries(
            group_code(typ_group),
            le_bytes(channel_flags(channels@) as int, 2),
            5,
        ),
        r matches Err(e) ==> e == EpsError::InvalidBusChannelState,
{
    let ghost all = channels@;
    let cmd_code: u8 = match typ_group {
        BusGroup::BusGroupOn => OUTPUT_BUS_GROUP_ON,
        BusGroup::BusGroupOff => OUTPUT_BUS_GROUP_OFF,
        BusGroup::BusGroupState => OUTPUT_BUS_GROUP_STATE,
    };
    let bus_channels = match BusChannelState::set(typ_group, channels) {
        Ok(s) => s,
        Err(e) => {
            return Err(EpsError::InvalidBusChannelState);
        },
    };
    let flags: u16 = match typ_group {
        BusGroup::BusGroupOn => bus_channels.on(),
        BusGroup::BusGroupOff => bus_channels.off(),
        BusGroup::BusGroupState => match bus_channels.state() {
            Ok(x) => x,
            Err(e) => {
                return Err(EpsError::InvalidBusChannelState);
            },
        },
    };
    proof {
        let named = BusChannelState::chosen(all, BusChannel::On);
        assert(named.marks(flags, BusChannel::On));
        channel_flags_name_the_channels(all);
        flags_are_unique(named, flags, channel_flags(all), BusChannel::On);
    }
    Ok(request(cmd_code, address_bytes(flags), STATUS_RX_LEN))
}

/// Switches one output channel on or off. Channels 0 to 16 can be named;
/// a higher number, or the state that leaves a channel as it is, is an
/// error, found before anything is sent.
pub fn set_single_output(typ_channel: BusChannel, eps_ch_idx: u8) -> (r: EpsResult<Transfer>)
    ensures
        r is Ok <==> eps_ch_idx <= 0x10 && typ_channel != BusChannel::Keep,
        r matches Ok(t) ==> t.carries(
            if typ_channel == BusChannel::On {
                OUTPUT_BUS_CHANNEL_ON
            } else {
                OUTPUT_BUS_CHANNEL_OFF
            },
            seq![eps_ch_idx],
            5,
        ),
        r matches Err(e) ==> e == EpsError::InvalidInput,
{
    if eps_ch_idx > LAST_CHANNEL {
        return Err(EpsError::InvalidInput);
    }
    let cmd_code: u8 = match typ_channel {
        BusChannel::On => OUTPUT_BUS_CHANNEL_ON,
        BusChannel::Off => OUTPUT_BUS_CHANNEL_OFF,
        BusChannel::Keep => {
            return Err(EpsError::InvalidInput);
        },
    };
    Ok(request(cmd_code, one_byte(eps_ch_idx), STATUS_RX_LEN))
}

/// Switches the unit to nominal or to safety mode.
pub fn mode_switch(mode: ModeSwitch) -> (t: Transfer)
    ensures
        t.carries(
            match mode {
                ModeSwitch::Nominal => SWITCH_TO_NOMINAL_MODE,
                ModeSwitch::Safety => SWITCH_TO_SAFETY_MODE,
            },
            Seq::empty(),
            5,
        ),
{
    let cmd_code: u8 = match mode {
        ModeSwitch::Nominal => SWITCH_TO_NOMINAL_MODE,
        ModeSwitch::Safety => SWITCH_TO_SAFETY_MODE,
    };
    request(cmd_code, Vec::new(), STATUS_RX_LEN)
}

/// Asks for the status of the unit.
pub fn system_status() -> (t: Transfer)
    ensures
        t.carries(GET_SYS_STATUS, Seq::empty(), 36),
{
    request(GET_SYS_STATUS, Vec::new(), 36)
}

/// Asks for the overcurrent faults of the output channels.
pub fn overcurrent_state() -> (t: Transfer)
    ensures
        t.carries(GET_PDU_OC_FAULT_STATE, Seq::empty(), 78),
{
    request(GET_PDU_OC_FAULT_STATE, Vec::new(), 78)
}

/// Asks for housekeeping data of the power distribution unit.
pub fn pdu_hk(mode: PDUHkSel) -> (t: Transfer)
    ensures
        t.carries(
            match mode {
                PDUHkSel::PDURawHK => GET_PDU_HK_DATA_RAW,
                PDUHkSel::PDUEngHK => GET_PDU_HK_DATA_ENG,
                PDUHkSel::PDUAvgHK => GET_PDU_HK_DATA_AVRG,
            },
            Seq::empty(),
            258,
        ),
{
    let cmd_code: u8 = match mode {
        PDUHkSel::PDURawHK => GET_PDU_HK_DATA_RAW,
        PDUHkSel::PDUEngHK => GET_PDU_HK_DATA_ENG,
        PDUHkSel::PDUAvgHK => GET_PDU_HK_DATA_AVRG,
    };
    request(cmd_code, Vec::new(), 258)
}

/// Asks for housekeeping data of the power battery unit.
pub fn pbu_hk(mode: PBUHkSel) -> (t: Transfer)
    ensures
        t.carries(
            match mode {
                PBUHkSel::PBURawHK => GET_PBU_HK_DATA_RAW,
                PBUHkSel::PBUEngHK => GET_PBU_HK_DATA_ENG,
                PBUHkSel::PBUAvgHK => GET_PBU_HK_DATA_AVRG,
            },
            Seq::empty(),
            84,
        ),
{
    let cmd_code: u8 = match mode {
        PBUHkSel::PBURawHK => GET_PBU_HK_DATA_RAW,
        PBUHkSel::PBUEngHK => GET_PBU_HK_DATA_ENG,
        PBUHkSel::PBUAvgHK => GET_PBU_HK_DATA_AVRG,
    };
    request(cmd_code, Vec::new(), 84)
}

/// Asks for housekeeping data of the power conditioning unit.
pub fn pcu_hk(mode: PCUHkSel) -> (t: Transfer)
    ensures
        t.carries(
            match mode {
                PCUHkSel::PCURawHK => GET_PCU_HK_DATA_RAW,
                PCUHkSel::PCUEngHK => GET_PCU_HK_DATA_ENG,
                PCUHkSel::PCUAvgHK => GET_PCU_HK_DATA_AVRG,
            },
            Seq::empty(),
            72,
        ),
{
    let cmd_code: u8 = match mode {
        PCUHkSel::PCURawHK => GET_PCU_HK_DATA_RAW,
        PCUHkSel::PCUEngHK => GET_PCU_HK_DATA_ENG,
        PCUHkSel::PCUAvgHK => GET_PCU_HK_DATA_AVRG,
    };
    request(cmd_code, Vec::new(), 72)
}

/// Asks for housekeeping data of the unit as a whole.
pub fn piu_hk(mode: PIUHkSel) -> (t: Transfer)
    ensures
        t.carries(
            match mode {
                PIUHkSel::PIURawHK => GET_PIU_HK_DATA_RAW,
                PIUHkSel::PIUEngHK => GET_PIU_HK_DATA_ENG,
                PIUHkSel::PIUAvgHK => GET_PIU_HK_DATA_AVRG,
            },
            Seq::empty(),
            274,
        ),
{
    let cmd_code: u8 = match mode {
        PIUHkSel::PIURawHK => GET_PIU_HK_DATA_RAW,
        PIUHkSel::PIUEngHK => GET_PIU_HK_DATA_ENG,
        PIUHkSel::PIUAvgHK => GET_PIU_HK_DATA_AVRG,
    };
    request(cmd_code, Vec::new(), 274)
}

/// Moves the unit's clock by a number of seconds, forwards or backwards.
pub fn correct_time(time_correction: i32) -> (t: Transfer)
    ensures
        t.carries(CORRECT_TIME, le_bytes(time_correction as int, 4), 5),
{
    let mut payload: Vec<u8> = Vec::new();
    push_le_signed(&mut payload, time_correction, 4);
    assert(payload@ =~= le_bytes(time_correction as int, 4));
    request(CORRECT_TIME, payload, STATUS_RX_LEN)
}

/// Clears the counters of reset causes.
pub fn reset_all_counters() -> (t: Transfer)
    ensures
        t.carries(RST_CAUSE_CNTR, seq![CONFIG_KEY], 5),
{
    request(RST_CAUSE_CNTR, one_byte(CONFIG_KEY), STATUS_RX_LEN)
}

/// Reads a response that carries a status and nothing else.
pub fn status_reply(x: &[u8]) -> (r: EpsResult<()>)
    requires
        x.len() >= 5,
    ensures
        r == stat_result(x@[4]),
{
    match_stat(x[STAT_AT])
}

/// Reads the response to a request for the status of the unit: the record
/// after the status byte, where the unit accepted the request.
pub fn system_status_reply(x: &[u8]) -> (r: EpsResult<SystemStatus>)
    requires
        x.len() >= 36,
    ensures
        r == match stat_result(x@[4]) {
            Ok(_) => SystemStatus::parse(x@, 5),
            Err(e) => Err(e),
        },
{
    match match_stat(x[STAT_AT]) {
        Ok(()) => SystemStatus::from_bytes(x, SYSTEM_STATUS_AT),
        Err(e) => Err(e),
    }
}

/// Reads the response to a request for the overcurrent faults.
pub fn overcurrent_state_reply(x: &[u8]) -> (r: EpsResult<OverCurrentFaultState>)
    requires
        x.len() >= 48,
    ensures
        r == match stat_result(x@[4]) {
            Ok(_) => Ok::<OverCurrentFaultState, EpsError>(OverCurrentFaultState::parse(x@, 6)),
            Err(e) => Err(e),
        },
{
    match match_stat(x[STAT_AT]) {
        Ok(()) => Ok(OverCurrentFaultState::from_bytes(x, HK_AT)),
        Err(e) => Err(e),
    }
}

/// Reads the response to a request for housekeeping data of the power
/// distribution unit.
pub fn pdu_hk_reply(x: &[u8]) -> (r: EpsResult<PDUHk>)
    requires
        x.len() >= 162,
    ensures
        r == match stat_result(x@[4]) {
            Ok(_) => Ok::<PDUHk, EpsError>(PDUHk::parse(x@, 6)),
            Err(e) => Err(e),
        },
{
    match match_stat(x[STAT_AT]) {
        Ok(()) => Ok(PDUHk::from_bytes(x, HK_AT)),
        Err(e) => Err(e),
    }
}

/// Reads the response to a request for housekeeping data of the power
/// battery unit.
pub fn pbu_hk_reply(x: &[u8]) -> (r: EpsResult<PBUHk>)
    requires
        x.len() >= 40,
    ensures
        r == match stat_result(x@[4]) {
            Ok(_) => Ok::<PBUHk, EpsError>(PBUHk::parse(x@, 6)),
            Err(e) => Err(e),
        },
{
    match match_stat(x[STAT_AT]) {
        Ok(()) => Ok(PBUHk::from_bytes(x, HK_AT)),
        Err(e) => Err(e),
    }
}

/// Reads the response to a request for housekeeping data of the power
/// conditioning unit.
pub fn pcu_hk_reply(x: &[u8]) -> (r: EpsResult<PCUHk>)
    requires
        x.len() >= 72,
    ensures
        r == match stat_result(x@[4]) {
            Ok(_) => Ok::<PCUHk, EpsError>(PCUHk::parse(x@, 6)),
            Err(e) => Err(e),
        },
{
    match match_stat(x[STAT_AT]) {
        Ok(()) => Ok(PCUHk::from_bytes(x, HK_AT)),
        Err(e) => Err(e),
    }
}

/// Reads the response to a request for housekeeping data of the unit as a
/// whole.
pub fn piu_hk_reply(x: &[u8]) -> (r: EpsResult<PIUHk>)
    requires
        x.len() >= 184,
    ensures
        r == match stat_result(x@[4]) {
            Ok(_) => Ok::<PIUHk, EpsError>(PIUHk::parse(x@, 6)),
            Err(e) => Err(e),
        },
{
    match match_stat(x[STAT_AT]) {
        Ok(()) => Ok(PIUHk::from_bytes(x, HK_AT)),
        Err(e) => Err(e),
    }
}

/// The payload of a command that changes the parameter at `id` to a value
/// of `size` bytes: the address, then the value.
pub open spec fn setting(id: u16, value: int, size: nat) -> Seq<u8> {
    le_bytes(id as int, 2) + le_bytes(value, size)
}

pub(crate) fn parameter_request(cmd_code: u8, id: u16) -> (t: Transfer)
    requires
        width(id) > 0,
    ensures
        t.carries(cmd_code, le_bytes(id as int, 2), 8 + width(id)),
{
    request(cmd_code, address_bytes(id), VALUE_AT + width_of(id))
}

fn set_request(id: u16, value: Output) -> (t: Transfer)
    requires
        width(id) == value.size(),
    ensures
        t.carries(SET_CONFIG_PARA, setting(id, value.number(), value.size()), 8 + width(id)),
{
    let mut payload = address_bytes(id);
    value.append_to(&mut payload);
    request(SET_CONFIG_PARA, payload, VALUE_AT + width_of(id))
}

/// Asks for the value of a writable parameter. A delay of a channel from 32
/// on is no parameter: an error, found before anything is sent.
pub fn get_config_para_write(param: ConfigParamWrite) -> (r: EpsResult<Transfer>)
    ensures
        r is Ok <==> param.declared(),
        r matches Ok(t) ==> t.carries(
            GET_CONFIG_PARA,
            le_bytes(param.address() as int, 2),
            8 + width(param.address()),
        ),
        r matches Err(e) ==> e == EpsError::InvalidInput,
{
    if !param.is_declared() {
        return Err(EpsError::InvalidInput);
    }
    proof {
        crate::config::parameters_have_values(param, ConfigParamRead::Stid);
    }
    Ok(parameter_request(GET_CONFIG_PARA, param.get_id()))
}

/// Asks for the value of a read-only parameter.
pub fn get_config_para_read(param: ConfigParamRead) -> (t: Transfer)
    ensures
        t.carries(GET_CONFIG_PARA, le_bytes(param.address() as int, 2), 8 + width(param.address())),
{
    proof {
        crate::config::parameters_have_values(ConfigParamWrite::BoardId, param);
    }
    parameter_request(GET_CONFIG_PARA, param.get_id())
}

/// Changes a parameter with an unsigned value of four bytes.
pub fn set_config_para_u32(param: ConfigParamWriteU32, input: u32) -> (t: Transfer)
    ensures
        t.carries(SET_CONFIG_PARA, setting(param.param().address(), input as int, 4), 12),
{
    let p = ConfigParamWrite::from(param);
    set_request(p.get_id(), Output::U32(input))
}

/// Changes a parameter with an unsigned value of two bytes. A delay of a
/// channel from 32 on is no parameter: an error, found before anything is
/// sent.
pub fn set_config_para_u16(param: ConfigParamWriteU16, input: u16) -> (r: EpsResult<Transfer>)
    ensures
        r is Ok <==> param.param().declared(),
        r matches Ok(t) ==> t.carries(
            SET_CONFIG_PARA,
            setting(param.param().address(), input as int, 2),
            10,
        ),
        r matches Err(e) ==> e == EpsError::InvalidInput,
{
    let p = ConfigParamWrite::from(param);
    if !p.is_declared() {
        return Err(EpsError::InvalidInput);
    }
    Ok(set_request(p.get_id(), Output::U16(input)))
}

/// Changes a parameter with a signed value of two bytes.
pub fn set_config_para_i16(param: ConfigParamWriteI16, input: i16) -> (t: Transfer)
    ensures
        t.carries(SET_CONFIG_PARA, setting(param.param().address(), input as int, 2), 10),
{
    let p = ConfigParamWrite::from(param);
    set_request(p.get_id(), Output::I16(input))
}

/// Changes a parameter with an unsigned value of one byte.
pub fn set_config_para_u8(param: ConfigParamWriteU8, input: u8) -> (t: Transfer)
    ensures
        t.carries(SET_CONFIG_PARA, setting(param.param().address(), input as int, 1), 9),
{
    let p = ConfigParamWrite::from(param);
    set_request(p.get_id(), Output::U8(input))
}

/// Changes a parameter with a signed value of one byte. The parameters of
/// battery packs 2 and 3 have no address: an error, found before anything is
/// sent.
pub fn set_config_para_i8(param: ConfigParamWriteI8, input: i8) -> (r: EpsResult<Transfer>)
    ensures
        r is Ok <==> param.param() is Some,
        r matches Ok(t) ==> t.carries(
            SET_CONFIG_PARA,
            setting(param.param()->Some_0.address(), input as int, 1),
            9,
        ),
        r matches Err(e) ==> e == EpsError::InvalidInput,
{
    match param.to_param() {
        Some(p) => Ok(set_request(p.get_id(), Output::I8(input))),
        None => Err(EpsError::InvalidInput),
    }
}

/// Puts a writable parameter back to its default. A delay of a channel from
/// 32 on is no parameter: an error, found before anything is sent.
pub fn reset_param(param: ConfigParamWrite) -> (r: EpsResult<Transfer>)
    ensures
        r is Ok <==> param.declared(),
        r matches Ok(t) ==> t.carries(
            RESET_CONFIG_PARA,
            le_bytes(param.address() as int, 2),
            8 + width(param.address()),
        ),
        r matches Err(e) ==> e == EpsError::InvalidInput,
{
    if !param.is_declared() {
        return Err(EpsError::InvalidInput);
    }
    proof {
        crate::config::parameters_have_values(param, ConfigParamRead::Stid);
    }
    Ok(parameter_request(RESET_CONFIG_PARA, param.get_id()))
}

/// Puts every parameter back to its default.
pub fn reset_all_conf() -> (t: Transfer)
    ensures
        t.carries(RESET_CONFIG_ALL, seq![CONFIG_KEY], 5),
{
    request(RESET_CONFIG_ALL, one_byte(CONFIG_KEY), STATUS_RX_LEN)
}

/// Loads the stored configuration.
pub fn load_config() -> (t: Transfer)
    ensures
        t.carries(LOAD_CONFIG, seq![CONFIG_KEY], 5),
{
    request(LOAD_CONFIG, one_byte(CONFIG_KEY), STATUS_RX_LEN)
}

/// Stores the configuration without a checksum: a single zero byte stands
/// in its place and tells the unit not to compare.
pub fn save_config_force() -> (t: Transfer)
    ensures
        t.carries(SAVE_CONFIG, seq![CONFIG_KEY, 0u8], 5),
{
    let mut payload = one_byte(CONFIG_KEY);
    payload.push(0x00);
    assert(payload@ =~= seq![CONFIG_KEY, 0u8]);
    request(SAVE_CONFIG, payload, STATUS_RX_LEN)
}

/// Stores the configuration under a checksum, which the unit compares with
/// its own.
pub fn save_config(checksum: u16) -> (t: Transfer)
    ensures
        t.carries(SAVE_CONFIG, seq![CONFIG_KEY] + le_bytes(checksum as int, 2), 5),
{
    let mut payload = one_byte(CONFIG_KEY);
    push_le(&mut payload, checksum as u32, 2);
    request(SAVE_CONFIG, payload, STATUS_RX_LEN)
}

/// What a response says of the value of the parameter at `id`. An address
/// outside every family of parameters has no value, whatever the response
/// holds. Else the status byte decides: where the unit accepted the request,
/// the value follows at the place and in the size that the address fixes;
/// where it did not, its error stands and nothing else is read.
pub open spec fn config_value(id: u16, s: Seq<u8>) -> EpsResult<Output>
    recommends
        s.len() >= 8 + width(id),
{
    if width(id) == 0 {
        Err(EpsError::InvalidInput)
    } else {
        match stat_result(s[4]) {
            Ok(_) => Ok(Output::read(id, s, 8)->Some_0),
            Err(e) => Err(e),
        }
    }
}

/// Reads the response that carries the value of the parameter at `id`:
/// to a request for it, to a change of it, or to its reset.
pub fn config_reply(id: u16, x: &[u8]) -> (r: EpsResult<Output>)
    requires
        width(id) > 0 ==> x.len() >= 8 + width(id),
    ensures
        r == config_value(id, x@),
        r matches Ok(value) ==> value.size() == width(id),
{
    if width_of(id) == 0 {
        return Err(EpsError::InvalidInput);
    }
    match match_stat(x[STAT_AT]) {
        Ok(()) => match Output::decode(id, x, VALUE_AT) {
            Some(value) => Ok(value),
            None => Err(EpsError::InvalidInput),
        },
        Err(e) => Err(e),
    }
}

/// A response that the unit accepted, and that holds the bytes of a value
/// at the place of the value, is read as that value: what was written to a
/// parameter and comes back is what was written.
pub proof fn accepted_value_is_read(id: u16, value: Output, x: Seq<u8>)
    requires
        value.fits(id),
        x.len() >= 8 + width(id),
        stat_result(x[4]) is Ok,
        x.subrange(8, 8 + width(id)) == value.wire(),
    ensures
        config_value(id, x) == Ok::<Output, EpsError>(value),
{
    crate::config::value_reads_back(id, value);
    let bytes = value.wire();
    assert forall|k: int| 0 <= k < width(id) implies x[8 + k] == #[trigger] bytes[k] by {
        assert(x.subrange(8, 8 + width(id))[k] == x[8 + k]);
    }
    assert(Output::read(id, x, 8) == Output::read(id, bytes, 0));
}

} // verus!
