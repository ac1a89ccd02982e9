use eps_api::eps::correct_time;
use eps_api::eps::eps_ping;
use eps_api::eps::get_config_para_read;
use eps_api::eps::get_config_para_write;
use eps_api::eps::load_config;
use eps_api::eps::mode_switch;
use eps_api::eps::overcurrent_state;
use eps_api::eps::pbu_hk;
use eps_api::eps::pcu_hk;
use eps_api::eps::pdu_hk;
use eps_api::eps::piu_hk;
use eps_api::eps::reset_all_conf;
use eps_api::eps::reset_all_counters;
use eps_api::eps::reset_param;
use eps_api::eps::save_config;
use eps_api::eps::save_config_force;
use eps_api::eps::set_config_para_i16;
use eps_api::eps::set_config_para_i8;
use eps_api::eps::set_config_para_u16;
use eps_api::eps::set_config_para_u32;
use eps_api::eps::set_config_para_u8;
use eps_api::eps::set_group_outputs;
use eps_api::eps::set_single_output;
use eps_api::eps::shutdown_all;
use eps_api::eps::sys_reset;
use eps_api::eps::system_status;
use eps_api::eps::watchdog_reset;
use eps_api::BusChannel;
use eps_api::BusGroup;
use eps_api::ConfigParamRead;
use eps_api::ConfigParamWrite;
use eps_api::ConfigParamWriteI16;
use eps_api::ConfigParamWriteI8;
use eps_api::ConfigParamWriteU16;
use eps_api::ConfigParamWriteU32;
use eps_api::ConfigParamWriteU8;
use eps_api::EpsError;
use eps_api::ModeSwitch;
use eps_api::PBUHkSel;
use eps_api::PCUHkSel;
use eps_api::PDUHkSel;
use eps_api::PIUHkSel;
use eps_api::Transfer;

fn transfer(data: Vec<u8>, rx_len: usize) -> Transfer {
    Transfer { cmd: 0x1A, data, rx_len, delay_ms: 50 }
}

#[test]
fn commands_without_arguments() {
    assert_eq!(eps_ping(), transfer(vec![0x07, 0x02, 0x00], 5));
    assert_eq!(shutdown_all(), transfer(vec![0x07, 0x04, 0x00], 5));
    assert_eq!(watchdog_reset(), transfer(vec![0x07, 0x06, 0x00], 5));
    assert_eq!(system_status(), transfer(vec![0x07, 0x40, 0x00], 36));
    assert_eq!(overcurrent_state(), transfer(vec![0x07, 0x42, 0x00], 78));
}

#[test]
fn commands_with_a_key() {
    assert_eq!(sys_reset(0xA6), transfer(vec![0x07, 0xAA, 0x00, 0xA6], 5));
    assert_eq!(sys_reset(0x00), transfer(vec![0x07, 0xAA, 0x00, 0x00], 5));
    assert_eq!(reset_all_counters(), transfer(vec![0x07, 0xC6, 0x00, 0xA7], 5));
    assert_eq!(reset_all_conf(), transfer(vec![0x07, 0x90, 0x00, 0xA7], 5));
    assert_eq!(load_config(), transfer(vec![0x07, 0x92, 0x00, 0xA7], 5));
}

#[test]
fn saving_with_and_without_a_checksum() {
    assert_eq!(save_config_force(), transfer(vec![0x07, 0x94, 0x00, 0xA7, 0x00], 5));
    assert_eq!(save_config(0x29B1), transfer(vec![0x07, 0x94, 0x00, 0xA7, 0xB1, 0x29], 5));
    assert_eq!(save_config(0x0000), transfer(vec![0x07, 0x94, 0x00, 0xA7, 0x00, 0x00], 5));
}

#[test]
fn mode_switches() {
    assert_eq!(mode_switch(ModeSwitch::Nominal), transfer(vec![0x07, 0x30, 0x00], 5));
    assert_eq!(mode_switch(ModeSwitch::Safety), transfer(vec![0x07, 0x32, 0x00], 5));
}

#[test]
fn housekeeping_requests() {
    assert_eq!(pdu_hk(PDUHkSel::PDURawHK), transfer(vec![0x07, 0x50, 0x00], 258));
    assert_eq!(pdu_hk(PDUHkSel::PDUEngHK), transfer(vec![0x07, 0x52, 0x00], 258));
    assert_eq!(pdu_hk(PDUHkSel::PDUAvgHK), transfer(vec![0x07, 0x54, 0x00], 258));
    assert_eq!(pbu_hk(PBUHkSel::PBURawHK), transfer(vec![0x07, 0x60, 0x00], 84));
    assert_eq!(pbu_hk(PBUHkSel::PBUEngHK), transfer(vec![0x07, 0x62, 0x00], 84));
    assert_eq!(pbu_hk(PBUHkSel::PBUAvgHK), transfer(vec![0x07, 0x64, 0x00], 84));
    assert_eq!(pcu_hk(PCUHkSel::PCURawHK), transfer(vec![0x07, 0x70, 0x00], 72));
    assert_eq!(pcu_hk(PCUHkSel::PCUEngHK), transfer(vec![0x07, 0x72, 0x00], 72));
    assert_eq!(pcu_hk(PCUHkSel::PCUAvgHK), transfer(vec![0x07, 0x74, 0x00], 72));
    assert_eq!(piu_hk(PIUHkSel::PIURawHK), transfer(vec![0x07, 0xA0, 0x00], 274));
    assert_eq!(piu_hk(PIUHkSel::PIUEngHK), transfer(vec![0x07, 0xA2, 0x00], 274));
    assert_eq!(piu_hk(PIUHkSel::PIUAvgHK), transfer(vec![0x07, 0xA4, 0x00], 274));
}

#[test]
fn time_correction_is_four_signed_bytes() {
    assert_eq!(correct_time(3600), transfer(vec![0x07, 0xC4, 0x00, 0x10, 0x0E, 0x00, 0x00], 5));
    assert_eq!(correct_time(-1), transfer(vec![0x07, 0xC4, 0x00, 0xFF, 0xFF, 0xFF, 0xFF], 5));
    assert_eq!(correct_time(0), transfer(vec![0x07, 0xC4, 0x00, 0, 0, 0, 0], 5));
    assert_eq!(correct_time(i32::MIN), transfer(vec![0x07, 0xC4, 0x00, 0, 0, 0, 0x80], 5));
}

#[test]
fn group_commands_carry_the_flags_of_the_named_channels() {
    assert_eq!(
        set_group_outputs(BusGroup::BusGroupOn, vec![0, 1, 4, 6]),
        Ok(transfer(vec![0x07, 0x10, 0x00, 0x53, 0x00], 5))
    );
    assert_eq!(
        set_group_outputs(BusGroup::BusGroupOff, vec![15, 8]),
        Ok(transfer(vec![0x07, 0x12, 0x00, 0x00, 0x81], 5))
    );
    assert_eq!(
        set_group_outputs(BusGroup::BusGroupOn, vec![]),
        Ok(transfer(vec![0x07, 0x10, 0x00, 0x00, 0x00], 5))
    );
    assert_eq!(
        set_group_outputs(BusGroup::BusGroupOn, vec![3, 3, 3]),
        Ok(transfer(vec![0x07, 0x10, 0x00, 0x08, 0x00], 5))
    );
}

#[test]
fn group_commands_reject_a_number_that_is_no_channel() {
    assert_eq!(set_group_outputs(BusGroup::BusGroupOn, vec![16]), Err(EpsError::InvalidBusChannelState));
    assert_eq!(set_group_outputs(BusGroup::BusGroupOff, vec![1, 200]), Err(EpsError::InvalidBusChannelState));
    assert_eq!(set_group_outputs(BusGroup::BusGroupState, vec![16]), Err(EpsError::InvalidBusChannelState));
}

#[test]
fn group_state_command_cannot_be_given_by_naming_channels() {
    assert_eq!(set_group_outputs(BusGroup::BusGroupState, vec![0, 1]), Err(EpsError::InvalidBusChannelState));
    assert_eq!(set_group_outputs(BusGroup::BusGroupState, vec![]), Err(EpsError::InvalidBusChannelState));
    let all: Vec<u8> = (0..16).collect();
    assert_eq!(set_group_outputs(BusGroup::BusGroupState, all), Err(EpsError::InvalidBusChannelState));
}

#[test]
fn single_channel_commands() {
    assert_eq!(set_single_output(BusChannel::On, 0), Ok(transfer(vec![0x07, 0x16, 0x00, 0x00], 5)));
    assert_eq!(set_single_output(BusChannel::Off, 9), Ok(transfer(vec![0x07, 0x18, 0x00, 0x09], 5)));
    assert_eq!(set_single_output(BusChannel::On, 16), Ok(transfer(vec![0x07, 0x16, 0x00, 0x10], 5)));
    assert_eq!(set_single_output(BusChannel::Off, 16), Ok(transfer(vec![0x07, 0x18, 0x00, 0x10], 5)));
}

#[test]
fn single_channel_commands_reject_channel_17_and_keep() {
    assert_eq!(set_single_output(BusChannel::On, 17), Err(EpsError::InvalidInput));
    assert_eq!(set_single_output(BusChannel::Off, 255), Err(EpsError::InvalidInput));
    assert_eq!(set_single_output(BusChannel::Keep, 0), Err(EpsError::InvalidInput));
    assert_eq!(set_single_output(BusChannel::Keep, 17), Err(EpsError::InvalidInput));
}

#[test]
fn get_requests_name_the_address_and_read_the_width() {
    assert_eq!(
        get_config_para_write(ConfigParamWrite::SafetyVoltLoThr),
        Ok(transfer(vec![0x07, 0x82, 0x00, 0x42, 0x40], 10))
    );
    assert_eq!(
        get_config_para_write(ConfigParamWrite::ChStartupKey),
        Ok(transfer(vec![0x07, 0x82, 0x00, 0x03, 0x60], 12))
    );
    assert_eq!(
        get_config_para_write(ConfigParamWrite::LoThrBp1Heater),
        Ok(transfer(vec![0x07, 0x82, 0x00, 0x00, 0x30], 10))
    );
    assert_eq!(
        get_config_para_write(ConfigParamWrite::BoardId),
        Ok(transfer(vec![0x07, 0x82, 0x00, 0x00, 0x20], 9))
    );
    assert_eq!(
        get_config_para_write(ConfigParamWrite::Vd1AlwaysEna),
        Ok(transfer(vec![0x07, 0x82, 0x00, 0x07, 0x10], 9))
    );
    assert_eq!(
        get_config_para_write(ConfigParamWrite::ChLatchoffDelay(31)),
        Ok(transfer(vec![0x07, 0x82, 0x00, 0x41, 0x40], 10))
    );
    assert_eq!(get_config_para_read(ConfigParamRead::Vd6AllocChBf), transfer(vec![0x07, 0x82, 0x00, 0x11, 0x68], 12));
    assert_eq!(get_config_para_read(ConfigParamRead::RstCause), transfer(vec![0x07, 0x82, 0x00, 0x03, 0x48], 10));
    assert_eq!(get_config_para_read(ConfigParamRead::AdcMcuTempV25T85), transfer(vec![0x07, 0x82, 0x00, 0x01, 0x38], 10));
    assert_eq!(get_config_para_read(ConfigParamRead::Ivid), transfer(vec![0x07, 0x82, 0x00, 0x01, 0x28], 9));
    assert_eq!(get_config_para_read(ConfigParamRead::ConfParamChanged), transfer(vec![0x07, 0x82, 0x00, 0x00, 0x18], 9));
}

#[test]
fn requests_for_an_undeclared_delay_are_refused_before_sending() {
    assert_eq!(get_config_para_write(ConfigParamWrite::ChStartupDelay(32)), Err(EpsError::InvalidInput));
    assert_eq!(get_config_para_write(ConfigParamWrite::ChLatchoffDelay(200)), Err(EpsError::InvalidInput));
    assert_eq!(reset_param(ConfigParamWrite::ChStartupDelay(32)), Err(EpsError::InvalidInput));
    assert_eq!(set_config_para_u16(ConfigParamWriteU16::ChLatchoffDelay(32), 1), Err(EpsError::InvalidInput));
    assert_eq!(set_config_para_i8(ConfigParamWriteI8::AutoHeatEnaBP2, 1), Err(EpsError::InvalidInput));
    assert_eq!(set_config_para_i8(ConfigParamWriteI8::AutoBalEnaBP3, 1), Err(EpsError::InvalidInput));
}

#[test]
fn set_requests_carry_address_and_value() {
    assert_eq!(
        set_config_para_u16(ConfigParamWriteU16::SafetyVoltLoThr, 300),
        Ok(transfer(vec![0x07, 0x84, 0x00, 0x42, 0x40, 0x2C, 0x01], 10))
    );
    assert_eq!(
        set_config_para_u16(ConfigParamWriteU16::ChStartupDelay(0), 0xFFFF),
        Ok(transfer(vec![0x07, 0x84, 0x00, 0x02, 0x40, 0xFF, 0xFF], 10))
    );
    assert_eq!(
        set_config_para_u32(ConfigParamWriteU32::ChStartupEnaBf, 0x12345678),
        transfer(vec![0x07, 0x84, 0x00, 0x02, 0x60, 0x78, 0x56, 0x34, 0x12], 12)
    );
    assert_eq!(
        set_config_para_i16(ConfigParamWriteI16::McuTempBias, -300),
        transfer(vec![0x07, 0x84, 0x00, 0x0C, 0x30, 0xD4, 0xFE], 10)
    );
    assert_eq!(
        set_config_para_u8(ConfigParamWriteU8::BoardIdKey, 0xA7),
        transfer(vec![0x07, 0x84, 0x00, 0x01, 0x20, 0xA7], 9)
    );
    assert_eq!(
        set_config_para_i8(ConfigParamWriteI8::Vd6AlwaysDisa, -1),
        Ok(transfer(vec![0x07, 0x84, 0x00, 0x13, 0x10, 0xFF], 9))
    );
}

#[test]
fn reset_requests_name_the_address() {
    assert_eq!(
        reset_param(ConfigParamWrite::SafetyVoltLoThr),
        Ok(transfer(vec![0x07, 0x86, 0x00, 0x42, 0x40], 10))
    );
    assert_eq!(
        reset_param(ConfigParamWrite::ChLatchoffEnaBf),
        Ok(transfer(vec![0x07, 0x86, 0x00, 0x04, 0x60], 12))
    );
    assert_eq!(reset_param(ConfigParamWrite::BoardId), Ok(transfer(vec![0x07, 0x86, 0x00, 0x00, 0x20], 9)));
    assert_eq!(
        reset_param(ConfigParamWrite::AutoBalEnaBP1),
        Ok(transfer(vec![0x07, 0x86, 0x00, 0x04, 0x10], 9))
    );
}
