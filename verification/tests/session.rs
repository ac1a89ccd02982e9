use eps_api::config::width_of;
use eps_api::crc::calculate_checksum;
use eps_api::eps::config_reply;
use eps_api::eps::get_config_para_write;
use eps_api::eps::reset_param;
use eps_api::eps::set_config_para_u16;
use eps_api::BusReply;
use eps_api::ConfigOutcome;
use eps_api::ConfigParamWrite;
use eps_api::ConfigParamWriteU16;
use eps_api::ConfigPass;
use eps_api::ConfigStep;
use eps_api::ConfigTask;
use eps_api::EpsError;
use eps_api::Output;
use eps_api::Transfer;
use std::collections::HashMap;

const GET: u8 = 0x82;
const SET: u8 = 0x84;
const RESET: u8 = 0x86;
const SAVE: u8 = 0x94;

/// A unit that keeps values by address; what it has no value for reads as its default.
struct Unit {
    values: HashMap<u16, Vec<u8>>,
    defaults: HashMap<u16, Vec<u8>>,
    seen: Vec<(u8, u16)>,
    saved_with: Option<Vec<u8>>,
}

fn unit() -> Unit {
    Unit { values: HashMap::new(), defaults: HashMap::new(), seen: Vec::new(), saved_with: None }
}

fn value_of(u: &Unit, id: u16) -> Vec<u8> {
    let width = width_of(id);
    let stored = u.values.get(&id).or(u.defaults.get(&id));
    match stored {
        Some(v) => v.clone(),
        None => vec![0u8; width],
    }
}

fn answer(u: &mut Unit, t: &Transfer, stat: u8) -> Vec<u8> {
    assert_eq!(t.cmd, 0x1A);
    assert_eq!(t.delay_ms, 50);
    assert_eq!(t.data[0], 0x07);
    assert_eq!(t.data[2], 0x00);
    let code = t.data[1];
    let mut x = vec![0u8; t.rx_len];
    x[0] = 0x1A;
    x[1] = 0x07;
    x[2] = code + 1;
    x[4] = stat;
    if code == SAVE {
        u.saved_with = Some(t.data[3..].to_vec());
        u.seen.push((code, 0));
        return x;
    }
    let id = u16::from_le_bytes([t.data[3], t.data[4]]);
    u.seen.push((code, id));
    if stat != 0x00 && stat != 0x80 {
        return x;
    }
    if code == SET {
        u.values.insert(id, t.data[5..].to_vec());
    }
    if code == RESET {
        u.values.remove(&id);
    }
    x[6] = t.data[3];
    x[7] = t.data[4];
    let v = value_of(u, id);
    assert_eq!(t.rx_len, 8 + v.len());
    x[8..].copy_from_slice(&v);
    x
}

/// Runs a pass against the unit; the read number `fail_at`, counted from 0, is answered with `stat`.
fn run(u: &mut Unit, task: ConfigTask, fail_at: Option<(usize, u8)>) -> Result<ConfigOutcome, EpsError> {
    let (mut pass, first) = ConfigPass::start(task);
    let mut transfer = first;
    let mut count = 0usize;
    loop {
        let stat = match fail_at {
            Some((n, s)) if n == count => s,
            _ => 0x00,
        };
        let x = answer(u, &transfer, stat);
        count += 1;
        let (next, step) = pass.advance(BusReply::Received(x));
        pass = next;
        match step {
            ConfigStep::Send(t) => {
                assert!(!pass.is_finished());
                transfer = t;
            }
            ConfigStep::Done(r) => {
                assert!(pass.is_finished());
                return r;
            }
        }
    }
}

#[test]
fn collecting_reads_every_parameter_once_in_ascending_order() {
    let mut u = unit();
    let r = run(&mut u, ConfigTask::GetConfigData, None);
    assert_eq!(r, Ok(ConfigOutcome::Data(vec![0u8; 201])));
    let ids: Vec<u16> = u.seen.iter().map(|p| p.1).collect();
    assert_eq!(ids, ConfigParamWrite::iter_id());
    assert!(u.seen.iter().all(|p| p.0 == GET));
    assert_eq!(u.saved_with, None);
}

#[test]
fn collected_data_are_the_values_in_the_order_of_the_addresses() {
    let mut u = unit();
    for id in ConfigParamWrite::iter_id() {
        let mut v = vec![0u8; width_of(id)];
        v[0] = (id & 0xff) as u8;
        u.values.insert(id, v);
    }
    let r = run(&mut u, ConfigTask::GetConfigData, None);
    let mut expected = Vec::new();
    for id in ConfigParamWrite::iter_id() {
        expected.push((id & 0xff) as u8);
        for _ in 1..width_of(id) {
            expected.push(0);
        }
    }
    assert_eq!(expected.len(), 201);
    assert_eq!(&expected[..4], &[0x01, 0x04, 0x07, 0x08]);
    assert_eq!(&expected[expected.len() - 8..], &[0x04, 0, 0, 0, 0x05, 0, 0, 0]);
    assert_eq!(r, Ok(ConfigOutcome::Data(expected)));
}

#[test]
fn checksum_of_a_configuration_of_zeros() {
    let mut u = unit();
    let r = run(&mut u, ConfigTask::CalculateChecksum, None);
    assert_eq!(r, Ok(ConfigOutcome::Checksum(0x50DD)));
    assert_eq!(u.seen.len(), 105);
    assert_eq!(u.saved_with, None);
}

#[test]
fn checksum_of_a_configuration_of_address_bytes() {
    let mut u = unit();
    for id in ConfigParamWrite::iter_id() {
        let mut v = vec![0u8; width_of(id)];
        v[0] = (id & 0xff) as u8;
        u.values.insert(id, v);
    }
    let r = run(&mut u, ConfigTask::CalculateChecksum, None);
    assert_eq!(r, Ok(ConfigOutcome::Checksum(0xA5A0)));
}

#[test]
fn two_passes_over_the_same_configuration_give_the_same_checksum() {
    let mut u = unit();
    u.values.insert(0x4042, vec![0x2C, 0x01]);
    u.values.insert(0x6003, vec![1, 2, 3, 4]);
    let first = run(&mut u, ConfigTask::CalculateChecksum, None);
    let second = run(&mut u, ConfigTask::CalculateChecksum, None);
    assert!(first.is_ok());
    assert_eq!(first, second);
    u.values.insert(0x4042, vec![0x2D, 0x01]);
    let third = run(&mut u, ConfigTask::CalculateChecksum, None);
    assert_ne!(first, third);
}

#[test]
fn saving_sends_the_key_and_the_checksum_after_all_reads() {
    let mut u = unit();
    let r = run(&mut u, ConfigTask::SaveConfig, None);
    assert_eq!(r, Ok(ConfigOutcome::Saved));
    assert_eq!(u.seen.len(), 106);
    assert_eq!(u.seen[105], (SAVE, 0));
    assert!(u.seen[..105].iter().all(|p| p.0 == GET));
    assert_eq!(u.saved_with, Some(vec![0xA7, 0xDD, 0x50]));
}

#[test]
fn saving_uses_the_checksum_of_the_data_that_were_read() {
    let mut u = unit();
    u.values.insert(0x1001, vec![0x11]);
    u.values.insert(0x6005, vec![9, 8, 7, 6]);
    let data = match run(&mut u, ConfigTask::GetConfigData, None) {
        Ok(ConfigOutcome::Data(d)) => d,
        other => panic!("no data: {:?}", other),
    };
    assert_eq!(data[0], 0x11);
    assert_eq!(&data[197..], &[9, 8, 7, 6]);
    let crc = calculate_checksum(&data);
    let r = run(&mut u, ConfigTask::SaveConfig, None);
    assert_eq!(r, Ok(ConfigOutcome::Saved));
    assert_eq!(u.saved_with, Some(vec![0xA7, (crc & 0xff) as u8, (crc >> 8) as u8]));
}

#[test]
fn a_rejected_read_ends_saving_without_a_write() {
    for at in [0usize, 1, 57, 104] {
        let mut u = unit();
        let r = run(&mut u, ConfigTask::SaveConfig, Some((at, 0x04)));
        assert_eq!(r, Err(EpsError::Parameterinvalid));
        assert_eq!(u.seen.len(), at + 1);
        assert!(u.seen.iter().all(|p| p.0 == GET));
        assert_eq!(u.saved_with, None);
    }
}

#[test]
fn a_rejected_read_ends_collecting_and_checksum() {
    let mut u = unit();
    assert_eq!(run(&mut u, ConfigTask::GetConfigData, Some((3, 0x01))), Err(EpsError::Rejected));
    assert_eq!(u.seen.len(), 4);
    let mut u = unit();
    assert_eq!(
        run(&mut u, ConfigTask::CalculateChecksum, Some((104, 0x7F))),
        Err(EpsError::InternalProcessing)
    );
    assert_eq!(u.seen.len(), 105);
}

#[test]
fn a_rejected_save_gives_the_units_error() {
    let mut u = unit();
    let r = run(&mut u, ConfigTask::SaveConfig, Some((105, 0x04)));
    assert_eq!(r, Err(EpsError::Parameterinvalid));
    assert_eq!(u.seen.len(), 106);
}

#[test]
fn a_failed_transfer_ends_the_pass() {
    let (pass, _first) = ConfigPass::start(ConfigTask::SaveConfig);
    let (pass, step) = pass.advance(BusReply::Failed);
    assert_eq!(step, ConfigStep::Done(Err(EpsError::TransferError)));
    assert!(pass.is_finished());

    let mut u = unit();
    let (mut pass, mut transfer) = ConfigPass::start(ConfigTask::SaveConfig);
    for _ in 0..10 {
        let x = answer(&mut u, &transfer, 0x00);
        let (next, step) = pass.advance(BusReply::Received(x));
        pass = next;
        transfer = match step {
            ConfigStep::Send(t) => t,
            ConfigStep::Done(r) => panic!("over too early: {:?}", r),
        };
    }
    let (pass, step) = pass.advance(BusReply::Failed);
    assert_eq!(step, ConfigStep::Done(Err(EpsError::TransferError)));
    assert!(pass.is_finished());
    assert_eq!(u.saved_with, None);
}

#[test]
fn a_failed_transfer_of_the_save_command_ends_the_pass() {
    let mut u = unit();
    let (mut pass, mut transfer) = ConfigPass::start(ConfigTask::SaveConfig);
    for _ in 0..105 {
        let x = answer(&mut u, &transfer, 0x00);
        let (next, step) = pass.advance(BusReply::Received(x));
        pass = next;
        transfer = match step {
            ConfigStep::Send(t) => t,
            ConfigStep::Done(r) => panic!("over too early: {:?}", r),
        };
    }
    assert_eq!(transfer.data, vec![0x07, 0x94, 0x00, 0xA7, 0xDD, 0x50]);
    assert_eq!(transfer.rx_len, 5);
    let (pass, step) = pass.advance(BusReply::Failed);
    assert_eq!(step, ConfigStep::Done(Err(EpsError::TransferError)));
    assert!(pass.is_finished());
}

#[test]
fn the_first_transfer_asks_for_the_lowest_address() {
    let (pass, first) = ConfigPass::start(ConfigTask::GetConfigData);
    assert!(!pass.is_finished());
    assert_eq!(first, get_config_para_write(ConfigParamWrite::AutoHeatEnaBP1).unwrap());
    assert_eq!(first.data, vec![0x07, 0x82, 0x00, 0x01, 0x10]);
    assert_eq!(first.rx_len, 9);
}

#[test]
fn a_value_that_was_set_is_read_back_and_reset_gives_the_default() {
    let mut u = unit();
    u.defaults.insert(0x4042, vec![0xB8, 0x0B]);
    let param = ConfigParamWrite::from_id(0x4042).unwrap();
    assert_eq!(param, ConfigParamWrite::SafetyVoltLoThr);

    let set = set_config_para_u16(ConfigParamWriteU16::SafetyVoltLoThr, 300).unwrap();
    let x = answer(&mut u, &set, 0x00);
    assert_eq!(config_reply(0x4042, &x), Ok(Output::U16(300)));

    let get = get_config_para_write(param).unwrap();
    let x = answer(&mut u, &get, 0x00);
    assert_eq!(x, vec![0x1A, 0x07, 0x83, 0x00, 0x00, 0x00, 0x42, 0x40, 0x2C, 0x01]);
    assert_eq!(config_reply(param.get_id(), &x), Ok(Output::U16(300)));

    let reset = reset_param(param).unwrap();
    let x = answer(&mut u, &reset, 0x00);
    let after = config_reply(param.get_id(), &x);
    assert_eq!(after, Ok(Output::U16(3000)));
    assert_ne!(after, Ok(Output::U16(300)));

    let x = answer(&mut u, &get, 0x00);
    assert_eq!(config_reply(param.get_id(), &x), Ok(Output::U16(3000)));
}
