use eps_api::eps::config_reply;
use eps_api::eps::overcurrent_state_reply;
use eps_api::eps::pbu_hk_reply;
use eps_api::eps::pcu_hk_reply;
use eps_api::eps::pdu_hk_reply;
use eps_api::eps::piu_hk_reply;
use eps_api::eps::status_reply;
use eps_api::eps::system_status_reply;
use eps_api::BattPackStatus;
use eps_api::BusChannel;
use eps_api::BusChannelState;
use eps_api::ChannelOverCurrentState;
use eps_api::CondChnData;
use eps_api::CondChnShortData;
use eps_api::EpsError;
use eps_api::EpsMode;
use eps_api::Output;
use eps_api::ResetCause;
use eps_api::VIPData;

fn put16(x: &mut [u8], at: usize, v: u16) {
    x[at] = (v & 0xff) as u8;
    x[at + 1] = (v >> 8) as u8;
}

fn put32(x: &mut [u8], at: usize, v: u32) {
    put16(x, at, (v & 0xffff) as u16);
    put16(x, at + 2, (v >> 16) as u16);
}

fn put_vip(x: &mut [u8], at: usize, volt: i16, curr: i16, raw_pwr: i16) {
    put16(x, at, volt as u16);
    put16(x, at + 2, curr as u16);
    put16(x, at + 4, raw_pwr as u16);
}

fn vip(volt: i16, curr: i16, pwr: i16) -> VIPData {
    VIPData { volt, curr, pwr }
}

fn response(len: usize, stat: u8) -> Vec<u8> {
    let mut x = vec![0u8; len];
    x[0] = 0x1A;
    x[1] = 0x07;
    x[4] = stat;
    x
}

#[test]
fn a_status_reply_is_its_status_byte() {
    assert_eq!(status_reply(&[0x1A, 0x07, 0x03, 0x00, 0x00]), Ok(()));
    assert_eq!(status_reply(&[0x1A, 0x07, 0x03, 0x00, 0x80]), Ok(()));
    assert_eq!(status_reply(&[0x1A, 0x07, 0x03, 0x00, 0x01]), Err(EpsError::Rejected));
    assert_eq!(status_reply(&[0x1A, 0x07, 0x03, 0x00, 0x04]), Err(EpsError::Parameterinvalid));
    assert_eq!(status_reply(&[0, 0, 0, 0, 0x7F, 9, 9, 9]), Err(EpsError::InternalProcessing));
}

#[test]
fn system_status_is_read_field_by_field() {
    let mut x = response(36, 0x00);
    x[5] = 2;
    x[6] = 0x01;
    x[7] = 3;
    put32(&mut x, 8, 0x0102_0304);
    put16(&mut x, 12, 0xBEEF);
    put16(&mut x, 14, 1);
    put16(&mut x, 16, 2);
    put16(&mut x, 18, 3);
    put16(&mut x, 20, 4);
    put16(&mut x, 22, 5);
    put16(&mut x, 24, 600);
    put32(&mut x, 26, 1_700_000_000);
    x[30] = 23;
    x[31] = 11;
    x[32] = 14;
    x[33] = 22;
    x[34] = 13;
    x[35] = 20;
    let s = system_status_reply(&x).unwrap();
    assert_eq!(s.mode, EpsMode::Safety);
    assert!(s.conf);
    assert_eq!(s.reset_cause, ResetCause::EpsUpset);
    assert_eq!(s.uptime, 0x0102_0304);
    assert_eq!(s.error, 0xBEEF);
    assert_eq!(s.rc_cnt_pwron, 1);
    assert_eq!(s.rc_cnt_wdg, 2);
    assert_eq!(s.rc_cnt_cmd, 3);
    assert_eq!(s.rc_cnt_mcu, 4);
    assert_eq!(s.rc_cnt_lowpwr, 5);
    assert_eq!(s.prevcmd_elapsed, 600);
    assert_eq!(s.unix_time, 1_700_000_000);
    assert_eq!(s.unix_year, 23);
    assert_eq!(s.unix_month, 11);
    assert_eq!(s.unix_day, 14);
    assert_eq!(s.unix_hour, 22);
    assert_eq!(s.unix_minute, 13);
    assert_eq!(s.unix_second, 20);
}

#[test]
fn system_status_reads_only_the_lowest_bit_of_the_change_flag() {
    let mut x = response(36, 0x80);
    x[6] = 0xFE;
    assert!(!system_status_reply(&x).unwrap().conf);
    x[6] = 0xFF;
    assert!(system_status_reply(&x).unwrap().conf);
}

#[test]
fn system_status_rejects_unknown_mode_and_cause() {
    let mut x = response(36, 0x00);
    x[5] = 4;
    assert_eq!(system_status_reply(&x), Err(EpsError::InvalidEpsMode));
    x[7] = 5;
    assert_eq!(system_status_reply(&x), Err(EpsError::InvalidEpsMode));
    x[5] = 3;
    assert_eq!(system_status_reply(&x), Err(EpsError::InvalidResetCause));
    x[7] = 4;
    let s = system_status_reply(&x).unwrap();
    assert_eq!(s.mode, EpsMode::Contigency);
    assert_eq!(s.reset_cause, ResetCause::EmergLowPwr);
}

#[test]
fn a_refused_request_is_not_read_any_further() {
    let mut x = response(274, 0x05);
    x[5] = 200;
    x[7] = 200;
    assert_eq!(system_status_reply(&x), Err(EpsError::UnavailableMode));
    assert_eq!(overcurrent_state_reply(&x), Err(EpsError::UnavailableMode));
    assert_eq!(pdu_hk_reply(&x), Err(EpsError::UnavailableMode));
    assert_eq!(pbu_hk_reply(&x), Err(EpsError::UnavailableMode));
    assert_eq!(pcu_hk_reply(&x), Err(EpsError::UnavailableMode));
    assert_eq!(piu_hk_reply(&x), Err(EpsError::UnavailableMode));
    assert_eq!(config_reply(0x4042, &x), Err(EpsError::UnavailableMode));
}

#[test]
fn overcurrent_state_is_read_field_by_field() {
    let mut x = response(78, 0x00);
    put16(&mut x, 6, 0x0003);
    put16(&mut x, 8, 0x0001);
    put16(&mut x, 10, 0x8000);
    put16(&mut x, 12, 0x0002);
    for k in 0..17 {
        put16(&mut x, 14 + 2 * k, 1000 + k as u16);
    }
    let s = overcurrent_state_reply(&x).unwrap();
    assert_eq!(s.stat_ch_on, BusChannelState::from(0x0003));
    assert_eq!(s.stat_ch_on.ch00, BusChannel::On);
    assert_eq!(s.stat_ch_on.ch02, BusChannel::Off);
    assert_eq!(s.stat_ch_ext_on, BusChannelState::from(0x0001));
    assert_eq!(s.stat_ch_ocf, ChannelOverCurrentState::from(0x8000));
    assert!(s.stat_ch_ocf.ch15);
    assert!(!s.stat_ch_ocf.ch14);
    assert_eq!(s.stat_ch_ext_ocf, ChannelOverCurrentState::from(0x0002));
    assert!(s.stat_ch_ext_ocf.ch01);
    assert_eq!(s.ocf_cnt_ch00, 1000);
    assert_eq!(s.ocf_cnt_ch01, 1001);
    assert_eq!(s.ocf_cnt_ch08, 1008);
    assert_eq!(s.ocf_cnt_ch15, 1015);
    assert_eq!(s.ocf_cnt_ch16, 1016);
}

#[test]
fn power_is_ten_times_the_reading() {
    let mut x = response(72, 0x00);
    put_vip(&mut x, 10, 3300, -250, 100);
    assert_eq!(pcu_hk_reply(&x).unwrap().vip_output, vip(3300, -250, 1000));
    put_vip(&mut x, 10, 0, 0, -1);
    assert_eq!(pcu_hk_reply(&x).unwrap().vip_output, vip(0, 0, -10));
    put_vip(&mut x, 10, 0, 0, 3276);
    assert_eq!(pcu_hk_reply(&x).unwrap().vip_output, vip(0, 0, 32760));
    put_vip(&mut x, 10, 0, 0, -3276);
    assert_eq!(pcu_hk_reply(&x).unwrap().vip_output, vip(0, 0, -32760));
}

#[test]
fn power_beyond_sixteen_bits_wraps_around() {
    let mut x = response(72, 0x00);
    put_vip(&mut x, 10, 0, 0, 3277);
    assert_eq!(pcu_hk_reply(&x).unwrap().vip_output, vip(0, 0, -32766));
    put_vip(&mut x, 10, 0, 0, i16::MAX);
    assert_eq!(pcu_hk_reply(&x).unwrap().vip_output, vip(0, 0, -10));
    put_vip(&mut x, 10, 0, 0, i16::MIN);
    assert_eq!(pcu_hk_reply(&x).unwrap().vip_output, vip(0, 0, 0));
}

#[test]
fn conditioning_unit_housekeeping_is_read_field_by_field() {
    let mut x = response(72, 0x00);
    put16(&mut x, 6, 5000);
    put16(&mut x, 8, (-12i16) as u16);
    put_vip(&mut x, 10, 1, 2, 3);
    for k in 0..4usize {
        let at = 16 + 14 * k;
        let base = 100 * (k as i16 + 1);
        put_vip(&mut x, at, base, base + 1, base + 2);
        put16(&mut x, at + 6, (base + 3) as u16);
        put16(&mut x, at + 8, (base + 4) as u16);
        put16(&mut x, at + 10, (base + 5) as u16);
        put16(&mut x, at + 12, (base + 6) as u16);
    }
    let s = pcu_hk_reply(&x).unwrap();
    assert_eq!(s.volt_brdsup, 5000);
    assert_eq!(s.temp, -12);
    assert_eq!(s.vip_output, vip(1, 2, 30));
    let chain = |base: i16| CondChnData {
        vip_cc_output: vip(base, base + 1, 10 * (base + 2)),
        volt_in_mppt: base + 3,
        curr_in_mppt: base + 4,
        volt_out_mppt: base + 5,
        curr_out_mppt: base + 6,
    };
    assert_eq!(s.ccd1, chain(100));
    assert_eq!(s.ccd2, chain(200));
    assert_eq!(s.ccd3, chain(300));
    assert_eq!(s.ccd4, chain(400));
    assert_eq!(s.ccd4.curr_out_mppt, 406);
}

#[test]
fn battery_unit_housekeeping_is_read_field_by_field() {
    let mut x = response(84, 0x00);
    put16(&mut x, 6, 3300);
    put16(&mut x, 8, 21);
    put_vip(&mut x, 10, 8000, 500, 400);
    put16(&mut x, 16, 0x9005);
    put_vip(&mut x, 18, 7900, -300, -237);
    put16(&mut x, 24, 0x1234);
    put16(&mut x, 26, 4001);
    put16(&mut x, 28, 4002);
    put16(&mut x, 30, 4003);
    put16(&mut x, 32, 4004);
    put16(&mut x, 34, (-5i16) as u16);
    put16(&mut x, 36, 6);
    put16(&mut x, 38, 7);
    let s = pbu_hk_reply(&x).unwrap();
    assert_eq!(s.volt_brdsup, 3300);
    assert_eq!(s.temp, 21);
    assert_eq!(s.vip_input, vip(8000, 500, 4000));
    assert_eq!(s.stat_bu, BattPackStatus::from(0x9005));
    assert!(s.stat_bu.batt1_under);
    assert!(!s.stat_bu.batt2_under);
    assert!(s.stat_bu.batt3_under);
    assert!(s.stat_bu.heater);
    assert!(s.stat_bu.enabled);
    assert!(!s.stat_bu.batt1_over);
    assert_eq!(s.bp1.vip_bp_output, vip(7900, -300, -2370));
    assert_eq!(s.bp1.stat_bp, 0x1234);
    assert_eq!(s.bp1.volt_cell1, 4001);
    assert_eq!(s.bp1.volt_cell2, 4002);
    assert_eq!(s.bp1.volt_cell3, 4003);
    assert_eq!(s.bp1.volt_cell4, 4004);
    assert_eq!(s.bp1.bat_temp1, -5);
    assert_eq!(s.bp1.bat_temp2, 6);
    assert_eq!(s.bp1.bat_temp3, 7);
}

#[test]
fn battery_status_flags_have_their_bits() {
    let s = BattPackStatus::from(0x0000);
    assert_eq!(s, BattPackStatus::default());
    let s = BattPackStatus::from(0x0010);
    assert!(s.batt1_over && !s.batt4_under && !s.batt2_over);
    let s = BattPackStatus::from(0x0800);
    assert!(s.batt4_balancing && !s.batt3_balancing && !s.heater);
    let s = BattPackStatus::from(0x6000);
    assert_eq!(s, BattPackStatus::default());
    let s = BattPackStatus::from(0x8000);
    assert!(s.enabled && !s.heater);
    let s = BattPackStatus::from(0xFFFF);
    assert!(s.batt1_under && s.batt2_under && s.batt3_under && s.batt4_under);
    assert!(s.batt1_over && s.batt2_over && s.batt3_over && s.batt4_over);
    assert!(s.batt1_balancing && s.batt2_balancing && s.batt3_balancing && s.batt4_balancing);
    assert!(s.heater && s.enabled);
}

#[test]
fn distribution_unit_housekeeping_is_read_field_by_field() {
    let mut x = response(258, 0x00);
    put16(&mut x, 6, 3301);
    put16(&mut x, 8, (-40i16) as u16);
    put_vip(&mut x, 10, 10, 11, 12);
    put16(&mut x, 16, 0x00FF);
    put16(&mut x, 18, 0x0001);
    put16(&mut x, 20, 0x0100);
    put16(&mut x, 22, 0x8000);
    for k in 0..7usize {
        put_vip(&mut x, 24 + 6 * k, 1000 + k as i16, 2000 + k as i16, 30 + k as i16);
    }
    for k in 0..16usize {
        put_vip(&mut x, 66 + 6 * k, 100 + k as i16, 200 + k as i16, 3 + k as i16);
    }
    let s = pdu_hk_reply(&x).unwrap();
    assert_eq!(s.volt_brdsup, 3301);
    assert_eq!(s.temp, -40);
    assert_eq!(s.vip_input, vip(10, 11, 120));
    assert_eq!(s.stat_ch_on, BusChannelState::from(0x00FF));
    assert_eq!(s.stat_ch_ext_on, BusChannelState::from(0x0001));
    assert_eq!(s.stat_ch_ocf, ChannelOverCurrentState::from(0x0100));
    assert_eq!(s.stat_ch_ext_ocf, ChannelOverCurrentState::from(0x8000));
    assert_eq!(s.vip_vd0, vip(1000, 2000, 300));
    assert_eq!(s.vip_vd3, vip(1003, 2003, 330));
    assert_eq!(s.vip_vd6, vip(1006, 2006, 360));
    assert_eq!(s.vip_cnt_ch00, vip(100, 200, 30));
    assert_eq!(s.vip_cnt_ch01, vip(101, 201, 40));
    assert_eq!(s.vip_cnt_ch07, vip(107, 207, 100));
    assert_eq!(s.vip_cnt_ch14, vip(114, 214, 170));
    assert_eq!(s.vip_cnt_ch15, vip(115, 215, 180));
}

#[test]
fn unit_housekeeping_is_read_field_by_field() {
    let mut x = response(274, 0x00);
    put16(&mut x, 6, 3302);
    put16(&mut x, 8, 25);
    put_vip(&mut x, 10, 1, 2, 3);
    put_vip(&mut x, 16, 4, 5, 6);
    put16(&mut x, 22, 0xAAAA);
    put16(&mut x, 24, 0x5555);
    put16(&mut x, 26, 0x00F0);
    put16(&mut x, 28, (-7i16) as u16);
    put16(&mut x, 30, 8);
    put16(&mut x, 32, 3299);
    put16(&mut x, 34, 4999);
    put16(&mut x, 36, 3298);
    for k in 0..9usize {
        put_vip(&mut x, 38 + 6 * k, 100 + k as i16, 200 + k as i16, 3 + k as i16);
    }
    for k in 0..3usize {
        for f in 0..4usize {
            put16(&mut x, 92 + 8 * k + 2 * f, (1000 + 10 * k + f) as u16);
        }
    }
    for k in 9..16usize {
        put_vip(&mut x, 116 + 6 * (k - 9), 100 + k as i16, 200 + k as i16, 3 + k as i16);
    }
    for k in 3..5usize {
        for f in 0..4usize {
            put16(&mut x, 158 + 8 * (k - 3) + 2 * f, (1000 + 10 * k + f) as u16);
        }
    }
    put16(&mut x, 174, 0x0001);
    put16(&mut x, 176, 0x0002);
    put_vip(&mut x, 178, 28200, 120, 338);
    let s = piu_hk_reply(&x).unwrap();
    assert_eq!(s.volt_brdsup, 3302);
    assert_eq!(s.temp, 25);
    assert_eq!(s.vip_dist_input, vip(1, 2, 30));
    assert_eq!(s.vip_batt_input, vip(4, 5, 60));
    assert_eq!(s.stat_ch_on, 0xAAAA);
    assert_eq!(s.stat_ch_ocf, 0x5555);
    assert_eq!(s.batt_stat, 0x00F0);
    assert_eq!(s.batt_temp2, -7);
    assert_eq!(s.batt_temp3, 8);
    assert_eq!(s.volt_vd0, 3299);
    assert_eq!(s.volt_vd1, 4999);
    assert_eq!(s.volt_vd2, 3298);
    assert_eq!(s.vip_cnt_ch00, vip(100, 200, 30));
    assert_eq!(s.vip_cnt_ch08, vip(108, 208, 110));
    let short = |k: i16| CondChnShortData {
        volt_in_mppt: 1000 + 10 * k,
        curr_in_mppt: 1001 + 10 * k,
        volt_out_mppt: 1002 + 10 * k,
        curr_out_mppt: 1003 + 10 * k,
    };
    assert_eq!(s.ccd1, short(0));
    assert_eq!(s.ccd2, short(1));
    assert_eq!(s.ccd3, short(2));
    assert_eq!(s.vip_cnt_ch09, vip(109, 209, 120));
    assert_eq!(s.vip_cnt_ch15, vip(115, 215, 180));
    assert_eq!(s.ccd4, short(3));
    assert_eq!(s.ccd5, short(4));
    assert_eq!(s.stat_ch_ext_on, 0x0001);
    assert_eq!(s.stat_ch_ext_ocf, 0x0002);
    assert_eq!(s.vip_cnt_ch16, vip(28200, 120, 3380));
}

#[test]
fn a_value_follows_the_echoed_address() {
    let mut x = response(10, 0x00);
    put16(&mut x, 6, 0x4042);
    put16(&mut x, 8, 300);
    assert_eq!(config_reply(0x4042, &x), Ok(Output::U16(300)));
    let mut x = response(12, 0x80);
    put32(&mut x, 8, 0xCAFE_F00D);
    assert_eq!(config_reply(0x6002, &x), Ok(Output::U32(0xCAFE_F00D)));
    assert_eq!(config_reply(0x6809, &x), Ok(Output::U32(0xCAFE_F00D)));
    let mut x = response(10, 0x00);
    put16(&mut x, 8, (-1234i16) as u16);
    assert_eq!(config_reply(0x3000, &x), Ok(Output::I16(-1234)));
    assert_eq!(config_reply(0x3800, &x), Ok(Output::I16(-1234)));
    let mut x = response(9, 0x00);
    x[8] = 0xF0;
    assert_eq!(config_reply(0x2000, &x), Ok(Output::U8(0xF0)));
    assert_eq!(config_reply(0x2800, &x), Ok(Output::U8(0xF0)));
    assert_eq!(config_reply(0x1001, &x), Ok(Output::I8(-16)));
    assert_eq!(config_reply(0x1800, &x), Ok(Output::I8(-16)));
}

#[test]
fn an_address_without_a_value_is_invalid_input() {
    let x = response(12, 0x00);
    assert_eq!(config_reply(0x0000, &x), Err(EpsError::InvalidInput));
    assert_eq!(config_reply(0x5000, &x), Err(EpsError::InvalidInput));
    assert_eq!(config_reply(0x7001, &x), Err(EpsError::InvalidInput));
    assert_eq!(config_reply(0x0FFF, &[]), Err(EpsError::InvalidInput));
}

#[test]
fn a_rejected_parameter_gives_the_units_error() {
    let x = response(10, 0x04);
    assert_eq!(config_reply(0x4042, &x), Err(EpsError::Parameterinvalid));
    let x = response(10, 0x03);
    assert_eq!(config_reply(0x4042, &x), Err(EpsError::ParameterMissing));
    let x = response(10, 0x33);
    assert_eq!(config_reply(0x4042, &x), Err(EpsError::InternalProcessing));
}
