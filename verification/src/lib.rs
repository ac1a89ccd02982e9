//! Command and telemetry protocol of a satellite power unit: typed
//! operations are turned into request frames for the bus, and the unit's
//! response frames are turned back into typed values.

use vstd::prelude::*;

pub mod bytes;
pub mod channels;
pub mod config;
pub mod crc;
pub mod eps;
pub mod error;
pub mod objects;
pub mod session;

pub use crate::channels::BusChannel;
pub use crate::channels::BusChannelState;
pub use crate::channels::BusGroup;
pub use crate::config::ConfigParamRead;
pub use crate::config::ConfigParamWrite;
pub use crate::config::ConfigParamWriteI16;
pub use crate::config::ConfigParamWriteI8;
pub use crate::config::ConfigParamWriteU16;
pub use crate::config::ConfigParamWriteU32;
pub use crate::config::ConfigParamWriteU8;
pub use crate::config::Output;
pub use crate::eps::Transfer;
pub use crate::error::EpsError;
pub use crate::error::EpsResult;
pub use crate::error::ServiceError;
pub use crate::objects::BattPackData;
pub use crate::objects::BattPackRawData;
pub use crate::objects::BattPackStatus;
pub use crate::objects::ChannelOverCurrentState;
pub use crate::objects::CondChnData;
pub use crate::objects::CondChnRawData;
pub use crate::objects::CondChnShortData;
pub use crate::objects::CondChnShortRawData;
pub use crate::objects::EpsMode;
pub use crate::objects::ModeSwitch;
pub use crate::objects::OverCurrentFaultState;
pub use crate::objects::PBUHk;
pub use crate::objects::PBUHkSel;
pub use crate::objects::PCUHk;
pub use crate::objects::PCUHkSel;
pub use crate::objects::PDUHk;
pub use crate::objects::PDUHkSel;
pub use crate::objects::PIUHk;
pub use crate::objects::PIUHkSel;
pub use crate::objects::ResetCause;
pub use crate::objects::StID;
pub use crate::objects::SystemStatus;
pub use crate::objects::VIPData;
pub use crate::objects::VIPRawData;
pub use crate::session::BusReply;
pub use crate::session::ConfigOutcome;
pub use crate::session::ConfigPass;
pub use crate::session::ConfigStep;
pub use crate::session::ConfigTask;

verus! {

/// System type identifier of the unit as a whole, the first byte on the bus.
pub const PIU_STID: u8 = 0x1A;

/// Interface version that every request names.
pub const ALL_IVID: u8 = 0x07;

/// Board identifier that addresses whichever board is present.
pub const OVERRIDE_BID: u8 = 0x00;

/// Key that the unit asks for before it changes or stores its configuration
/// or clears its counters.
pub const CONFIG_KEY: u8 = 0xA7;

/// Key that the unit asks for before it resets.
pub const RESET_KEY: u8 = 0xA6;

/// Pause between the write and the read of a transfer, in milliseconds.
pub const DELAY_MS: u64 = 50;

/// Place of the status byte in every response.
pub const STAT_AT: usize = 4;

/// Resets the unit; takes a key.
pub const SYS_RESET: u8 = 0xAA;

/// Does nothing, and shows that the unit answers.
pub const NO_OP: u8 = 0x02;

/// Switches off the output channels that commands switched on.
pub const CANCEL_OP: u8 = 0x04;

/// Restarts the watchdog timer.
pub const WATCHDOG: u8 = 0x06;

/// Moves the unit's clock; takes a signed number of seconds in four bytes.
pub const CORRECT_TIME: u8 = 0xC4;

/// Clears the counters of reset causes; takes the key.
pub const RST_CAUSE_CNTR: u8 = 0xC6;

/// Switches the flagged output channels on; takes flags in two bytes.
pub const OUTPUT_BUS_GROUP_ON: u8 = 0x10;

/// Switches the flagged output channels off; takes flags in two bytes.
pub const OUTPUT_BUS_GROUP_OFF: u8 = 0x12;

/// Sets every output channel on or off; takes flags in two bytes.
pub const OUTPUT_BUS_GROUP_STATE: u8 = 0x14;

/// Switches one output channel on; takes its number.
pub const OUTPUT_BUS_CHANNEL_ON: u8 = 0x16;

/// Switches one output channel off; takes its number.
pub const OUTPUT_BUS_CHANNEL_OFF: u8 = 0x18;

/// Switches to nominal mode.
pub const SWITCH_TO_NOMINAL_MODE: u8 = 0x30;

/// Switches to safety mode.
pub const SWITCH_TO_SAFETY_MODE: u8 = 0x32;

/// Asks for the status of the unit.
pub const GET_SYS_STATUS: u8 = 0x40;

/// Asks for the overcurrent faults of the output channels.
pub const GET_PDU_OC_FAULT_STATE: u8 = 0x42;

/// Asks for the raw housekeeping data of the power distribution unit.
pub const GET_PDU_HK_DATA_RAW: u8 = 0x50;

/// Asks for the housekeeping data of the power distribution unit.
pub const GET_PDU_HK_DATA_ENG: u8 = 0x52;

/// Asks for the averaged housekeeping data of the power distribution unit.
pub const GET_PDU_HK_DATA_AVRG: u8 = 0x54;

/// Asks for the raw housekeeping data of the power battery unit.
pub const GET_PBU_HK_DATA_RAW: u8 = 0x60;

/// Asks for the housekeeping data of the power battery unit.
pub const GET_PBU_HK_DATA_ENG: u8 = 0x62;

/// Asks for the averaged housekeeping data of the power battery unit.
pub const GET_PBU_HK_DATA_AVRG: u8 = 0x64;

/// Asks for the raw housekeeping data of the power conditioning unit.
pub const GET_PCU_HK_DATA_RAW: u8 = 0x70;

/// Asks for the housekeeping data of the power conditioning unit.
pub const GET_PCU_HK_DATA_ENG: u8 = 0x72;

/// Asks for the averaged housekeeping data of the power conditioning unit.
pub const GET_PCU_HK_DATA_AVRG: u8 = 0x74;

/// Asks for the raw housekeeping data of the unit as a whole.
pub const GET_PIU_HK_DATA_RAW: u8 = 0xA0;

/// Asks for the housekeeping data of the unit as a whole.
pub const GET_PIU_HK_DATA_ENG: u8 = 0xA2;

/// Asks for the averaged housekeeping data of the unit as a whole.
pub const GET_PIU_HK_DATA_AVRG: u8 = 0xA4;

/// Asks for the value of a parameter; takes its address.
pub const GET_CONFIG_PARA: u8 = 0x82;

/// Changes a parameter; takes its address and the value.
pub const SET_CONFIG_PARA: u8 = 0x84;

/// Puts a parameter back to its default; takes its address.
pub const RESET_CONFIG_PARA: u8 = 0x86;

/// Puts every parameter back to its default; takes the key.
pub const RESET_CONFIG_ALL: u8 = 0x90;

/// Loads the stored configuration; takes the key.
pub const LOAD_CONFIG: u8 = 0x92;

/// Stores the configuration; takes the key and a checksum.
pub const SAVE_CONFIG: u8 = 0x94;

/// What a status byte says: `Ok` for both codes of acceptance, else the
/// error that the unit reported.
pub open spec fn stat_result(typ: u8) -> EpsResult<()> {
    if typ == 0x00 || typ == 0x80 {
        Ok(())
    } else if typ == 0x01 {
        Err(EpsError::Rejected)
    } else if typ == 0x02 {
        Err(EpsError::InvalidCommandCode)
    } else if typ == 0x03 {
        Err(EpsError::ParameterMissing)
    } else if typ == 0x04 {
        Err(EpsError::Parameterinvalid)
    } else if typ == 0x05 {
        Err(EpsError::UnavailableMode)
    } else if typ == 0x06 {
        Err(EpsError::InvalidSystemType)
    } else {
        Err(EpsError::InternalProcessing)
    }
}

/// Reads the status byte of a response: zero, and 0x80 for a response that
/// is read for the first time, say that the unit accepted the request; 1 to 6
/// name the reason for which it did not; any other byte counts as a failure
/// inside the unit.
pub fn match_stat(typ: u8) -> (r: EpsResult<()>)
    ensures
        r == stat_result(typ),
        r is Ok <==> typ == 0x00 || typ == 0x80,
{
    match typ {
        0x00 => Ok(()),
        0x80 => Ok(()),
        0x01 => Err(EpsError::Rejected),
        0x02 => Err(EpsError::InvalidCommandCode),
        0x03 => Err(EpsError::ParameterMissing),
        0x04 => Err(EpsError::Parameterinvalid),
        0x05 => Err(EpsError::UnavailableMode),
        0x06 => Err(EpsError::InvalidSystemType),
        _ => Err(EpsError::InternalProcessing),
    }
}

} // verus!
