//! Passes over the whole configuration: reading every writable parameter
//! in the order of the addresses, to collect the values, to take their
//! checksum, or to store the configuration under that checksum.
//!
//! A pass needs one transfer per parameter, and the bus is not ours. So a
//! pass is a state that is led from transfer to transfer: it names the
//! transfer to make, is given what came back, and names the next, until it
//! names the outcome.

use vstd::prelude::*;

use crate::bytes::le_bytes;
use crate::config::is_registry;
use crate::config::registry_bounds;
use crate::config::width;
use crate::config::ConfigParamWrite;
use crate::config::Output;
use crate::crc::calculate_checksum;
use crate::crc::crc16;
use crate::eps::config_reply;
use crate::eps::config_value;
use crate::eps::parameter_request;
use crate::eps::save_config;
use crate::eps::status_reply;
use crate::eps::Transfer;
use crate::error::EpsError;
use crate::error::EpsResult;
use crate::stat_result;
use crate::CONFIG_KEY;
use crate::GET_CONFIG_PARA;
use crate::SAVE_CONFIG;

verus! {

/// What a pass over the configuration is for.
#[derive(Clone, Copy, Debug, PartialEq, Eq, Hash, Structural)]
pub enum ConfigTask {
    /// To collect the bytes of every value.
    GetConfigData,
    /// To take the checksum of those bytes.
    CalculateChecksum,
    /// To store the configuration under that checksum.
    SaveConfig,
}

/// What a pass ends with, where nothing went wrong.
#[derive(Clone, Debug, PartialEq, Eq)]
pub enum ConfigOutcome {
    /// The bytes of every value, in the order of the addresses.
    Data(Vec<u8>),
    /// The checksum of those bytes.
    Checksum(u16),
    /// The unit stored the configuration.
    Saved,
}

/// What a pass asks for next.
#[derive(Debug, PartialEq)]
pub enum ConfigStep {
    /// Make this transfer, and come back with what it gave.
    Send(Transfer),
    /// The pass is over, with this result.
    Done(EpsResult<ConfigOutcome>),
}

/// What a transfer gave.
#[derive(Clone, Debug, PartialEq, Eq)]
pub enum BusReply {
    /// The bytes that were read.
    Received(Vec<u8>),
    /// The transfer failed.
    Failed,
}

/// Where a pass stands.
#[derive(Clone, Copy, Debug, PartialEq, Eq, Hash, Structural)]
pub enum Phase {
    /// It waits for the value of a parameter.
    Reading,
    /// It waits for the unit's answer to the command that stores.
    Saving,
    /// It is over.
    Finished,
}

/// The bytes of values, one value after the other, each least significant
/// byte first: the data of which the unit takes its checksum, where the
/// values are those of every writable parameter in the order of the addresses.
pub open spec fn config_bytes(values: Seq<Output>) -> Seq<u8>
    decreases values.len(),
{
    if values.len() == 0 {
        Seq::empty()
    } else {
        config_bytes(values.drop_last()) + values.last().wire()
    }
}

/// A pass over the configuration.
pub struct ConfigPass {
    task: ConfigTask,
    ids: Vec<u16>,
    next: usize,
    data: Vec<u8>,
    phase: Phase,
    values: Ghost<Seq<Output>>,
}

impl ConfigPass {
    /// What the pass is for.
    pub closed spec fn task(&self) -> ConfigTask {
        self.task
    }

    /// The addresses that the pass goes through, in its order.
    pub closed spec fn addresses(&self) -> Seq<u16> {
        self.ids@
    }

    /// How many values the pass has read.
    pub closed spec fn position(&self) -> int {
        self.next as int
    }

    /// The values read so far, in the order of the addresses.
    pub closed spec fn values(&self) -> Seq<Output> {
        self.values@
    }

    /// The bytes of the values read so far.
    pub open spec fn data(&self) -> Seq<u8> {
        config_bytes(self.values())
    }

    /// Where the pass stands.
    pub closed spec fn phase(&self) -> Phase {
        self.phase
    }

    /// Whether the pass is sound: it goes through the registry in ascending
    /// order, and while it reads, a parameter is left to read.
    pub closed spec fn wf(&self) -> bool {
        &&& is_registry(self.ids@)
        &&& self.next <= self.ids@.len()
        &&& self.phase == Phase::Reading ==> self.next < self.ids@.len()
        &&& self.phase != Phase::Finished ==> self.values@.len() == self.next && self.data@
            == config_bytes(self.values@)
        &&& self.phase == Phase::Saving ==> self.next == self.ids@.len() && self.task
            == ConfigTask::SaveConfig
        &&& forall|i: int|
            0 <= i < self.values@.len() && i < self.ids@.len() ==> (#[trigger] self.values@[i]).fits(
                self.ids@[i],
            )
    }

    /// The address whose value the pass waits for.
    pub open spec fn awaited(&self) -> u16
        recommends
            self.phase() == Phase::Reading,
    {
        self.addresses()[self.position()]
    }

    /// The least number of bytes that the response to the last transfer has.
    pub open spec fn reply_len(&self) -> int {
        match self.phase() {
            Phase::Reading => 8 + width(self.awaited()),
            Phase::Saving => 5,
            Phase::Finished => 0,
        }
    }

    /// Whether the pass is over.
    pub fn is_finished(&self) -> (b: bool)
        ensures
            b == (self.phase() == Phase::Finished),
    {
        match self.phase {
            Phase::Finished => true,
            _ => false,
        }
    }

    /// Begins a pass: the first transfer asks for the value at the lowest
    /// address.
    pub fn start(task: ConfigTask) -> (r: (ConfigPass, Transfer))
        ensures
            r.0.wf(),
            r.0.task() == task,
            r.0.phase() == Phase::Reading,
            r.0.position() == 0,
            r.0.values() == Seq::<Output>::empty(),
            is_registry(r.0.addresses()),
            r.1.carries(
                GET_CONFIG_PARA,
                le_bytes(r.0.awaited() as int, 2),
                8 + width(r.0.awaited()),
            ),
    {
        let ids = ConfigParamWrite::iter_id();
        proof {
            registry_bounds(ids@);
        }
        let first = parameter_request(GET_CONFIG_PARA, ids[0]);
        (
            ConfigPass {
                task,
                ids,
                next: 0,
                data: Vec::new(),
                phase: Phase::Reading,
                values: Ghost(Seq::empty()),
            },
            first,
        )
    }

    /// Takes what the last transfer gave, and says what comes next.
    ///
    /// While the pass reads: a transfer that failed ends the pass with
    /// `TransferError`, a response that the unit did not accept ends it with
    /// the unit's error, and in both cases nothing more is sent. A value that
    /// was read is added to the data. Then the next address is asked for; after
    /// the last, the pass ends with the data or with their checksum, or sends the
    /// command that stores the configuration under that checksum.
    ///
    /// The answer to that command ends the pass, with the unit's verdict.
    pub fn advance(self, reply: BusReply) -> (r: (ConfigPass, ConfigStep))
        requires
            self.wf(),
            self.phase() != Phase::Finished,
            reply matches BusReply::Received(x) ==> x@.len() >= self.reply_len(),
        ensures
            r.0.wf(),
            r.0.task() == self.task(),
            r.0.addresses() == self.addresses(),
            reply is Failed ==> r.0.phase() == Phase::Finished && r.1 == ConfigStep::Done(
                Err(EpsError::TransferError),
            ),
            self.phase() == Phase::Reading ==> (reply matches BusReply::Received(x) ==> match config_value(
                self.awaited(),
                x@,
            ) {
                Err(e) => r.0.phase() == Phase::Finished && r.1 == ConfigStep::Done(Err(e)),
                Ok(value) => {
                    &&& value.fits(self.awaited())
                    &&& r.0.values() == self.values().push(value)
                    &&& r.0.position() == self.position() + 1
                    &&& r.0.position() < self.addresses().len() ==> {
                        &&& r.0.phase() == Phase::Reading
                        &&& r.1 matches ConfigStep::Send(t)
                        &&& t.carries(
                            GET_CONFIG_PARA,
                            le_bytes(r.0.awaited() as int, 2),
                            8 + width(r.0.awaited()),
                        )
                    }
                    &&& r.0.position() == self.addresses().len() ==> match self.task() {
                        ConfigTask::GetConfigData => {
                            &&& r.0.phase() == Phase::Finished
                            &&& r.1 matches ConfigStep::Done(Ok(ConfigOutcome::Data(d)))
                            &&& d@ == r.0.data()
                        },
                        ConfigTask::CalculateChecksum => {
                            &&& r.0.phase() == Phase::Finished
                            &&& r.1 matches ConfigStep::Done(Ok(ConfigOutcome::Checksum(c)))
                            &&& c == crc16(r.0.data())
                        },
                        ConfigTask::SaveConfig => {
                            &&& r.0.phase() == Phase::Saving
                            &&& r.1 matches ConfigStep::Send(t)
                            &&& t.carries(
                                SAVE_CONFIG,
                                seq![CONFIG_KEY] + le_bytes(crc16(r.0.data()) as int, 2),
                                5,
                            )
                        },
                    }
                },
            }),
            self.phase() == Phase::Saving ==> (reply matches BusReply::Received(x) ==> r.0.phase()
                == Phase::Finished && match stat_result(x@[4]) {
                Ok(_) => r.1 == ConfigStep::Done(Ok(ConfigOutcome::Saved)),
                Err(e) => r.1 == ConfigStep::Done(Err(e)),
            }),
    {
        let ConfigPass { task, ids, next, data, phase, values } = self;
        let x = match reply {
            BusReply::Received(x) => x,
            BusReply::Failed => {
                return (
                    ConfigPass { task, ids, next, data, phase: Phase::Finished, values },
                    ConfigStep::Done(Err(EpsError::TransferError)),
                );
            },
        };
        match phase {
            Phase::Reading => {
                proof {
                    registry_bounds(ids@);
                }
                match config_reply(ids[next], x.as_slice()) {
                    Err(e) => (
                        ConfigPass { task, ids, next, data, phase: Phase::Finished, values },
                        ConfigStep::Done(Err(e)),
                    ),
                    Ok(value) => {
                        let mut data = data;
                        value.append_to(&mut data);
                        let ghost read = values@.push(value);
                        let values: Ghost<Seq<Output>> = Ghost(read);
                        proof {
                            assert(read.drop_last() == self.values());
                        }
                        let count = ids.len();
                        let next = next + 1;
                        if next < count {
                            proof {
                                registry_bounds(ids@);
                            }
                            let t = parameter_request(GET_CONFIG_PARA, ids[next]);
                            (
                                ConfigPass { task, ids, next, data, phase: Phase::Reading, values },
                                ConfigStep::Send(t),
                            )
                        } else {
                            match task {
                                ConfigTask::GetConfigData => {
                                    let d = data.clone();
                                    (
                                        ConfigPass { task, ids, next, data, phase: Phase::Finished, values },
                                        ConfigStep::Done(Ok(ConfigOutcome::Data(d))),
                                    )
                                },
                                ConfigTask::CalculateChecksum => {
                                    let c = calculate_checksum(data.as_slice());
                                    (
                                        ConfigPass { task, ids, next, data, phase: Phase::Finished, values },
                                        ConfigStep::Done(Ok(ConfigOutcome::Checksum(c))),
                                    )
                                },
                                ConfigTask::SaveConfig => {
                                    let c = calculate_checksum(data.as_slice());
                                    (
                                        ConfigPass { task, ids, next, data, phase: Phase::Saving, values },
                                        ConfigStep::Send(save_config(c)),
                                    )
                                },
                            }
                        }
                    },
                }
            },
            _ => {
                let verdict = match status_reply(x.as_slice()) {
                    Ok(()) => Ok(ConfigOutcome::Saved),
                    Err(e) => Err(e),
                };
                (
                    ConfigPass { task, ids, next, data, phase: Phase::Finished, values },
                    ConfigStep::Done(verdict),
                )
            },
        }
    }
}

/// Where a pass stands, it stands soundly. It goes through the registry.
/// While it reads, it has read the values of the addresses before the one it
/// waits for, each in the form that its address asks for. It stores only as
/// the pass that was begun to store, and only once it has read the value at
/// every address: no command to store is sent before.
pub proof fn pass_is_sound(pass: ConfigPass)
    requires
        pass.wf(),
    ensures
        is_registry(pass.addresses()),
        pass.phase() == Phase::Reading ==> pass.values().len() == pass.position()
            && pass.position() < pass.addresses().len() && width(pass.awaited()) > 0,
        pass.phase() == Phase::Saving ==> pass.task() == ConfigTask::SaveConfig
            && pass.values().len() == pass.addresses().len(),
        pass.phase() != Phase::Finished ==> forall|i: int|
            0 <= i < pass.values().len() ==> (#[trigger] pass.values()[i]).fits(pass.addresses()[i]),
{
    registry_bounds(pass.addresses());
}

} // verus!
