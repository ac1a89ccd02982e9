use eps_api::ChannelOverCurrentState;
use eps_api::CondChnData;
use eps_api::EpsError;
use eps_api::EpsMode;
use eps_api::ModeSwitch;
use eps_api::PBUHkSel;
use eps_api::PCUHkSel;
use eps_api::PDUHkSel;
use eps_api::PIUHk;
use eps_api::PIUHkSel;
use eps_api::ResetCause;
use eps_api::SystemStatus;
use eps_api::VIPData;

#[test]
fn modes_are_numbered_from_zero() {
    assert_eq!(EpsMode::try_from(0), Ok(EpsMode::Startup));
    assert_eq!(EpsMode::try_from(1), Ok(EpsMode::Nominal));
    assert_eq!(EpsMode::try_from(2), Ok(EpsMode::Safety));
    assert_eq!(EpsMode::try_from(3), Ok(EpsMode::Contigency));
    assert_eq!(EpsMode::try_from(4), Err(EpsError::InvalidEpsMode));
    assert_eq!(EpsMode::try_from(255), Err(EpsError::InvalidEpsMode));
}

#[test]
fn reset_causes_are_numbered_from_zero() {
    assert_eq!(ResetCause::try_from(0), Ok(ResetCause::PowerOn));
    assert_eq!(ResetCause::try_from(1), Ok(ResetCause::Watchdog));
    assert_eq!(ResetCause::try_from(2), Ok(ResetCause::Commanded));
    assert_eq!(ResetCause::try_from(3), Ok(ResetCause::EpsUpset));
    assert_eq!(ResetCause::try_from(4), Ok(ResetCause::EmergLowPwr));
    assert_eq!(ResetCause::try_from(5), Err(EpsError::InvalidResetCause));
    assert_eq!(ResetCause::try_from(255), Err(EpsError::InvalidResetCause));
}

#[test]
fn defaults_of_the_selectors() {
    assert_eq!(ModeSwitch::default(), ModeSwitch::Nominal);
    assert_eq!(EpsMode::default(), EpsMode::Startup);
    assert_eq!(ResetCause::default(), ResetCause::PowerOn);
    assert_eq!(PDUHkSel::default(), PDUHkSel::PDUEngHK);
    assert_eq!(PBUHkSel::default(), PBUHkSel::PBUEngHK);
    assert_eq!(PCUHkSel::default(), PCUHkSel::PCUEngHK);
    assert_eq!(PIUHkSel::default(), PIUHkSel::PIUEngHK);
}

#[test]
fn records_are_read_at_any_place() {
    let bytes = [0xEEu8, 0xEE, 0xEE, 0x10, 0x27, 0x18, 0xFC, 0x05, 0x00];
    assert_eq!(VIPData::from_bytes(&bytes, 3), VIPData { volt: 10000, curr: -1000, pwr: 50 });
    let mut chain = vec![0u8; 20];
    chain[6 + 6] = 1;
    chain[6 + 8] = 2;
    chain[6 + 10] = 3;
    chain[6 + 12] = 4;
    let c = CondChnData::from_bytes(&chain, 6);
    assert_eq!(c.vip_cc_output, VIPData::default());
    assert_eq!((c.volt_in_mppt, c.curr_in_mppt, c.volt_out_mppt, c.curr_out_mppt), (1, 2, 3, 4));
}

#[test]
fn sizes_of_the_records() {
    assert_eq!(VIPData::SIZE, 6);
    assert_eq!(CondChnData::SIZE, 14);
    assert_eq!(SystemStatus::SIZE, 31);
    assert_eq!(PIUHk::SIZE, 178);
}

#[test]
fn overcurrent_flags_have_their_bits() {
    let s = ChannelOverCurrentState::from(0x0001);
    assert!(s.ch00 && !s.ch01 && !s.ch15);
    let s = ChannelOverCurrentState::from(0x8001);
    assert!(s.ch00 && s.ch15 && !s.ch08);
    let s = ChannelOverCurrentState::from(0x0420);
    assert!(s.ch05 && s.ch10 && !s.ch04 && !s.ch06 && !s.ch09 && !s.ch11);
    assert_eq!(ChannelOverCurrentState::from(0), ChannelOverCurrentState::default());
}

#[test]
fn a_system_status_at_another_place() {
    let mut bytes = vec![0u8; 40];
    bytes[9] = 1;
    bytes[11] = 2;
    bytes[9 + 25] = 99;
    let s = SystemStatus::from_bytes(&bytes, 9).unwrap();
    assert_eq!(s.mode, EpsMode::Nominal);
    assert_eq!(s.reset_cause, ResetCause::Commanded);
    assert_eq!(s.unix_year, 99);
    assert!(!s.conf);
}
