//! The sixteen switchable output channels, and the bit flags that stand
//! for them on the wire: bit `n`, counted from the least significant,
//! is channel `n`.

use vstd::prelude::*;
use vstd::std_specs::convert::FromSpecImpl;

use crate::bytes::bit_values;
use crate::bytes::has_bit;
use crate::error::EpsError;
use crate::error::EpsResult;

verus! {

/// The state that telemetry flags give to channel `n`: on or off.
pub open spec fn channel_of(flags: u16, n: int) -> BusChannel
    recommends
        0 <= n < 16,
{
    if has_bit(flags, n) {
        BusChannel::On
    } else {
        BusChannel::Off
    }
}

/// The state of channel `n` under a command that gives the state `named`
/// to the channels whose numbers are among `channels`, and leaves the others.
pub open spec fn picked(channels: Seq<u8>, n: u8, named: BusChannel) -> BusChannel {
    if channels.contains(n) {
        named
    } else {
        BusChannel::Keep
    }
}

/// The flags that name the channels whose numbers are among `channels`:
/// bit `n` is set where `n` is among them, and nowhere else.
pub open spec fn channel_flags(channels: Seq<u8>) -> u16 {
    choose|flags: u16|
        BusChannelState::chosen(channels, BusChannel::On).marks(flags, BusChannel::On)
}

/// Which of the three group commands a request is.
#[derive(Clone, Copy, Debug, PartialEq, Eq, Hash, Structural)]
pub enum BusGroup {
    /// Switch the named channels on and leave the others.
    BusGroupOn,
    /// Switch the named channels off and leave the others.
    BusGroupOff,
    /// Set every channel, on or off.
    BusGroupState,
}

impl Default for BusGroup {
    fn default() -> (r: Self)
        ensures
            r == BusGroup::BusGroupOn,
    {
        BusGroup::BusGroupOn
    }
}

/// What a request says of one output channel.
#[derive(Clone, Copy, Debug, PartialEq, Eq, Hash, Structural)]
pub enum BusChannel {
    /// Leave the channel as it is.
    Keep,
    /// Switch the channel on.
    On,
    /// Switch the channel off.
    Off,
}

impl Default for BusChannel {
    fn default() -> (r: Self)
        ensures
            r == BusChannel::Keep,
    {
        BusChannel::Keep
    }
}

impl BusChannel {
    /// Whether the channel is to be on.
    pub fn is_on(&self) -> (b: bool)
        ensures
            b == (*self == BusChannel::On),
    {
        match self {
            BusChannel::On => true,
            _ => false,
        }
    }

    /// Whether the channel is to be off.
    pub fn is_off(&self) -> (b: bool)
        ensures
            b == (*self == BusChannel::Off),
    {
        match self {
            BusChannel::Off => true,
            _ => false,
        }
    }
}

/// One state for each of the sixteen output channels, `ch00` for channel 0
/// up to `ch15` for channel 15.
#[derive(Clone, Copy, Debug, PartialEq, Eq, Hash, Structural)]
pub struct BusChannelState {
    pub ch00: BusChannel,
    pub ch01: BusChannel,
    pub ch02: BusChannel,
    pub ch03: BusChannel,
    pub ch04: BusChannel,
    pub ch05: BusChannel,
    pub ch06: BusChannel,
    pub ch07: BusChannel,
    pub ch08: BusChannel,
    pub ch09: BusChannel,
    pub ch10: BusChannel,
    pub ch11: BusChannel,
    pub ch12: BusChannel,
    pub ch13: BusChannel,
    pub ch14: BusChannel,
    pub ch15: BusChannel,
}

/// The flags in which bit `n` is set exactly where `bn` holds.
#[verifier::opaque]
spec fn pack(
    b0: bool,
    b1: bool,
    b2: bool,
    b3: bool,
    b4: bool,
    b5: bool,
    b6: bool,
    b7: bool,
    b8: bool,
    b9: bool,
    b10: bool,
    b11: bool,
    b12: bool,
    b13: bool,
    b14: bool,
    b15: bool,
) -> u16 {
    (if b0 { 0x0001u16 } else { 0 })
        | (if b1 { 0x0002u16 } else { 0 })
        | (if b2 { 0x0004u16 } else { 0 })
        | (if b3 { 0x0008u16 } else { 0 })
        | (if b4 { 0x0010u16 } else { 0 })
        | (if b5 { 0x0020u16 } else { 0 })
        | (if b6 { 0x0040u16 } else { 0 })
        | (if b7 { 0x0080u16 } else { 0 })
        | (if b8 { 0x0100u16 } else { 0 })
        | (if b9 { 0x0200u16 } else { 0 })
        | (if b10 { 0x0400u16 } else { 0 })
        | (if b11 { 0x0800u16 } else { 0 })
        | (if b12 { 0x1000u16 } else { 0 })
        | (if b13 { 0x2000u16 } else { 0 })
        | (if b14 { 0x4000u16 } else { 0 })
        | (if b15 { 0x8000u16 } else { 0 })
}

proof fn lemma_pack(
    b0: bool,
    b1: bool,
    b2: bool,
    b3: bool,
    b4: bool,
    b5: bool,
    b6: bool,
    b7: bool,
    b8: bool,
    b9: bool,
    b10: bool,
    b11: bool,
    b12: bool,
    b13: bool,
    b14: bool,
    b15: bool,
)
    by (bit_vector)
    ensures
        has_bit(pack(b0, b1, b2, b3, b4, b5, b6, b7, b8, b9, b10, b11, b12, b13, b14, b15), 0) == b0,
        has_bit(pack(b0, b1, b2, b3, b4, b5, b6, b7, b8, b9, b10, b11, b12, b13, b14, b15), 1) == b1,
        has_bit(pack(b0, b1, b2, b3, b4, b5, b6, b7, b8, b9, b10, b11, b12, b13, b14, b15), 2) == b2,
        has_bit(pack(b0, b1, b2, b3, b4, b5, b6, b7, b8, b9, b10, b11, b12, b13, b14, b15), 3) == b3,
        has_bit(pack(b0, b1, b2, b3, b4, b5, b6, b7, b8, b9, b10, b11, b12, b13, b14, b15), 4) == b4,
        has_bit(pack(b0, b1, b2, b3, b4, b5, b6, b7, b8, b9, b10, b11, b12, b13, b14, b15), 5) == b5,
        has_bit(pack(b0, b1, b2, b3, b4, b5, b6, b7, b8, b9, b10, b11, b12, b13, b14, b15), 6) == b6,
        has_bit(pack(b0, b1, b2, b3, b4, b5, b6, b7, b8, b9, b10, b11, b12, b13, b14, b15), 7) == b7,
        has_bit(pack(b0, b1, b2, b3, b4, b5, b6, b7, b8, b9, b10, b11, b12, b13, b14, b15), 8) == b8,
        has_bit(pack(b0, b1, b2, b3, b4, b5, b6, b7, b8, b9, b10, b11, b12, b13, b14, b15), 9) == b9,
        has_bit(pack(b0, b1, b2, b3, b4, b5, b6, b7, b8, b9, b10, b11, b12, b13, b14, b15), 10) == b10,
        has_bit(pack(b0, b1, b2, b3, b4, b5, b6, b7, b8, b9, b10, b11, b12, b13, b14, b15), 11) == b11,
        has_bit(pack(b0, b1, b2, b3, b4, b5, b6, b7, b8, b9, b10, b11, b12, b13, b14, b15), 12) == b12,
        has_bit(pack(b0, b1, b2, b3, b4, b5, b6, b7, b8, b9, b10, b11, b12, b13, b14, b15), 13) == b13,
        has_bit(pack(b0, b1, b2, b3, b4, b5, b6, b7, b8, b9, b10, b11, b12, b13, b14, b15), 14) == b14,
        has_bit(pack(b0, b1, b2, b3, b4, b5, b6, b7, b8, b9, b10, b11, b12, b13, b14, b15), 15) == b15,
{
}

proof fn lemma_same_bits(a: u16, b: u16)
    by (bit_vector)
    requires
        has_bit(a, 0) == has_bit(b, 0),
        has_bit(a, 1) == has_bit(b, 1),
        has_bit(a, 2) == has_bit(b, 2),
        has_bit(a, 3) == has_bit(b, 3),
        has_bit(a, 4) == has_bit(b, 4),
        has_bit(a, 5) == has_bit(b, 5),
        has_bit(a, 6) == has_bit(b, 6),
        has_bit(a, 7) == has_bit(b, 7),
        has_bit(a, 8) == has_bit(b, 8),
        has_bit(a, 9) == has_bit(b, 9),
        has_bit(a, 10) == has_bit(b, 10),
        has_bit(a, 11) == has_bit(b, 11),
        has_bit(a, 12) == has_bit(b, 12),
        has_bit(a, 13) == has_bit(b, 13),
        has_bit(a, 14) == has_bit(b, 14),
        has_bit(a, 15) == has_bit(b, 15),
    ensures
        a == b,
{
}

proof fn lemma_picked_push(seen: Seq<u8>, c: u8, named: BusChannel)
    ensures
        forall|n: u8| #[trigger]
            picked(seen.push(c), n, named) == if n == c {
                named
            } else {
                picked(seen, n, named)
            },
{
    let more = seen.push(c);
    assert forall|n: u8| #[trigger]
        picked(more, n, named) == if n == c {
            named
        } else {
            picked(seen, n, named)
        } by {
        if n == c {
            assert(more[seen.len() as int] == n);
        } else {
            if seen.contains(n) {
                let j = choose|j: int| 0 <= j < seen.len() && seen[j] == n;
                assert(more[j] == n);
            }
            if more.contains(n) {
                let j = choose|j: int| 0 <= j < more.len() && more[j] == n;
                assert(seen[j] == n);
            }
        }
    }
}

proof fn lemma_chosen_push(seen: Seq<u8>, c: u8, named: BusChannel)
    ensures
        BusChannelState::chosen(seen.push(c), named) == BusChannelState::chosen(seen, named).with(
            c as int,
            named,
        ),
{
    lemma_picked_push(seen, c, named);
    assert(picked(seen.push(c), 0, named) == if 0 == c { named } else { picked(seen, 0, named) });
    assert(picked(seen.push(c), 1, named) == if 1 == c { named } else { picked(seen, 1, named) });
    assert(picked(seen.push(c), 2, named) == if 2 == c { named } else { picked(seen, 2, named) });
    assert(picked(seen.push(c), 3, named) == if 3 == c { named } else { picked(seen, 3, named) });
    assert(picked(seen.push(c), 4, named) == if 4 == c { named } else { picked(seen, 4, named) });
    assert(picked(seen.push(c), 5, named) == if 5 == c { named } else { picked(seen, 5, named) });
    assert(picked(seen.push(c), 6, named) == if 6 == c { named } else { picked(seen, 6, named) });
    assert(picked(seen.push(c), 7, named) == if 7 == c { named } else { picked(seen, 7, named) });
    assert(picked(seen.push(c), 8, named) == if 8 == c { named } else { picked(seen, 8, named) });
    assert(picked(seen.push(c), 9, named) == if 9 == c { named } else { picked(seen, 9, named) });
    assert(picked(seen.push(c), 10, named) == if 10 == c { named } else { picked(seen, 10, named) });
    assert(picked(seen.push(c), 11, named) == if 11 == c { named } else { picked(seen, 11, named) });
    assert(picked(seen.push(c), 12, named) == if 12 == c { named } else { picked(seen, 12, named) });
    assert(picked(seen.push(c), 13, named) == if 13 == c { named } else { picked(seen, 13, named) });
    assert(picked(seen.push(c), 14, named) == if 14 == c { named } else { picked(seen, 14, named) });
    assert(picked(seen.push(c), 15, named) == if 15 == c { named } else { picked(seen, 15, named) });
}

fn flag(set: bool, bit: u16) -> (r: u16)
    ensures
        r == if set { bit } else { 0u16 },
{
    if set {
        bit
    } else {
        0
    }
}

fn pack_flags(
    b0: bool,
    b1: bool,
    b2: bool,
    b3: bool,
    b4: bool,
    b5: bool,
    b6: bool,
    b7: bool,
    b8: bool,
    b9: bool,
    b10: bool,
    b11: bool,
    b12: bool,
    b13: bool,
    b14: bool,
    b15: bool,
) -> (r: u16)
    ensures
        r == pack(b0, b1, b2, b3, b4, b5, b6, b7, b8, b9, b10, b11, b12, b13, b14, b15),
{
    reveal(pack);
    flag(b0, 0x0001)
        | flag(b1, 0x0002)
        | flag(b2, 0x0004)
        | flag(b3, 0x0008)
        | flag(b4, 0x0010)
        | flag(b5, 0x0020)
        | flag(b6, 0x0040)
        | flag(b7, 0x0080)
        | flag(b8, 0x0100)
        | flag(b9, 0x0200)
        | flag(b10, 0x0400)
        | flag(b11, 0x0800)
        | flag(b12, 0x1000)
        | flag(b13, 0x2000)
        | flag(b14, 0x4000)
        | flag(b15, 0x8000)
}

fn channel_from(flags: u16, bit: u16) -> (r: BusChannel)
    ensures
        r == if flags & bit != 0 { BusChannel::On } else { BusChannel::Off },
{
    if (flags & bit) != 0 {
        BusChannel::On
    } else {
        BusChannel::Off
    }
}

impl Default for BusChannelState {
    /// Every channel left as it is.
    fn default() -> (r: Self)
        ensures
            r == BusChannelState::chosen(Seq::<u8>::empty(), BusChannel::Keep),
    {
        BusChannelState {
            ch00: BusChannel::Keep,
            ch01: BusChannel::Keep,
            ch02: BusChannel::Keep,
            ch03: BusChannel::Keep,
            ch04: BusChannel::Keep,
            ch05: BusChannel::Keep,
            ch06: BusChannel::Keep,
            ch07: BusChannel::Keep,
            ch08: BusChannel::Keep,
            ch09: BusChannel::Keep,
            ch10: BusChannel::Keep,
            ch11: BusChannel::Keep,
            ch12: BusChannel::Keep,
            ch13: BusChannel::Keep,
            ch14: BusChannel::Keep,
            ch15: BusChannel::Keep,
        }
    }
}

impl BusChannelState {
    /// Whether `flags` names exactly the channels that are `which` here:
    /// bit `n` is set where channel `n` is `which`, and nowhere else.
    pub open spec fn marks(&self, flags: u16, which: BusChannel) -> bool {
        &&& has_bit(flags, 0) <==> self.ch00 == which
        &&& has_bit(flags, 1) <==> self.ch01 == which
        &&& has_bit(flags, 2) <==> self.ch02 == which
        &&& has_bit(flags, 3) <==> self.ch03 == which
        &&& has_bit(flags, 4) <==> self.ch04 == which
        &&& has_bit(flags, 5) <==> self.ch05 == which
        &&& has_bit(flags, 6) <==> self.ch06 == which
        &&& has_bit(flags, 7) <==> self.ch07 == which
        &&& has_bit(flags, 8) <==> self.ch08 == which
        &&& has_bit(flags, 9) <==> self.ch09 == which
        &&& has_bit(flags, 10) <==> self.ch10 == which
        &&& has_bit(flags, 11) <==> self.ch11 == which
        &&& has_bit(flags, 12) <==> self.ch12 == which
        &&& has_bit(flags, 13) <==> self.ch13 == which
        &&& has_bit(flags, 14) <==> self.ch14 == which
        &&& has_bit(flags, 15) <==> self.ch15 == which
    }

    /// Whether no channel is left as it is.
    pub open spec fn is_definite(&self) -> bool {
        &&& self.ch00 != BusChannel::Keep
        &&& self.ch01 != BusChannel::Keep
        &&& self.ch02 != BusChannel::Keep
        &&& self.ch03 != BusChannel::Keep
        &&& self.ch04 != BusChannel::Keep
        &&& self.ch05 != BusChannel::Keep
        &&& self.ch06 != BusChannel::Keep
        &&& self.ch07 != BusChannel::Keep
        &&& self.ch08 != BusChannel::Keep
        &&& self.ch09 != BusChannel::Keep
        &&& self.ch10 != BusChannel::Keep
        &&& self.ch11 != BusChannel::Keep
        &&& self.ch12 != BusChannel::Keep
        &&& self.ch13 != BusChannel::Keep
        &&& self.ch14 != BusChannel::Keep
        &&& self.ch15 != BusChannel::Keep
    }

    /// The states that telemetry flags report: channel `n` is on where bit
    /// `n` is set, and off where it is not.
    pub open spec fn from_flags(flags: u16) -> BusChannelState {
        BusChannelState {
            ch00: channel_of(flags, 0),
            ch01: channel_of(flags, 1),
            ch02: channel_of(flags, 2),
            ch03: channel_of(flags, 3),
            ch04: channel_of(flags, 4),
            ch05: channel_of(flags, 5),
            ch06: channel_of(flags, 6),
            ch07: channel_of(flags, 7),
            ch08: channel_of(flags, 8),
            ch09: channel_of(flags, 9),
            ch10: channel_of(flags, 10),
            ch11: channel_of(flags, 11),
            ch12: channel_of(flags, 12),
            ch13: channel_of(flags, 13),
            ch14: channel_of(flags, 14),
            ch15: channel_of(flags, 15),
        }
    }

    /// The state that a group command asks of the channels it names.
    pub open spec fn target(typ_group: BusGroup) -> BusChannel {
        match typ_group {
            BusGroup::BusGroupOn => BusChannel::On,
            BusGroup::BusGroupOff => BusChannel::Off,
            BusGroup::BusGroupState => BusChannel::Keep,
        }
    }

    /// The states in which the channels among `channels` are `named` and
    /// every other channel is left as it is.
    pub open spec fn chosen(channels: Seq<u8>, named: BusChannel) -> BusChannelState {
        BusChannelState {
            ch00: picked(channels, 0, named),
            ch01: picked(channels, 1, named),
            ch02: picked(channels, 2, named),
            ch03: picked(channels, 3, named),
            ch04: picked(channels, 4, named),
            ch05: picked(channels, 5, named),
            ch06: picked(channels, 6, named),
            ch07: picked(channels, 7, named),
            ch08: picked(channels, 8, named),
            ch09: picked(channels, 9, named),
            ch10: picked(channels, 10, named),
            ch11: picked(channels, 11, named),
            ch12: picked(channels, 12, named),
            ch13: picked(channels, 13, named),
            ch14: picked(channels, 14, named),
            ch15: picked(channels, 15, named),
        }
    }

    /// These states, but for channel `n`, which is `named`.
    pub open spec fn with(self, n: int, named: BusChannel) -> BusChannelState
        recommends
            0 <= n < 16,
    {
        BusChannelState {
            ch00: if n == 0 {
                named
            } else {
                self.ch00
            },
            ch01: if n == 1 {
                named
            } else {
                self.ch01
            },
            ch02: if n == 2 {
                named
            } else {
                self.ch02
            },
            ch03: if n == 3 {
                named
            } else {
                self.ch03
            },
            ch04: if n == 4 {
                named
            } else {
                self.ch04
            },
            ch05: if n == 5 {
                named
            } else {
                self.ch05
            },
            ch06: if n == 6 {
                named
            } else {
                self.ch06
            },
            ch07: if n == 7 {
                named
            } else {
                self.ch07
            },
            ch08: if n == 8 {
                named
            } else {
                self.ch08
            },
            ch09: if n == 9 {
                named
            } else {
                self.ch09
            },
            ch10: if n == 10 {
                named
            } else {
                self.ch10
            },
            ch11: if n == 11 {
                named
            } else {
                self.ch11
            },
            ch12: if n == 12 {
                named
            } else {
                self.ch12
            },
            ch13: if n == 13 {
                named
            } else {
                self.ch13
            },
            ch14: if n == 14 {
                named
            } else {
                self.ch14
            },
            ch15: if n == 15 {
                named
            } else {
                self.ch15
            },
        }
    }

    /// The flags of the channels that are to be switched on.
    pub fn on(&self) -> (r: u16)
        ensures
            self.marks(r, BusChannel::On),
    {
        let b0 = self.ch00.is_on();
        let b1 = self.ch01.is_on();
        let b2 = self.ch02.is_on();
        let b3 = self.ch03.is_on();
        let b4 = self.ch04.is_on();
        let b5 = self.ch05.is_on();
        let b6 = self.ch06.is_on();
        let b7 = self.ch07.is_on();
        let b8 = self.ch08.is_on();
        let b9 = self.ch09.is_on();
        let b10 = self.ch10.is_on();
        let b11 = self.ch11.is_on();
        let b12 = self.ch12.is_on();
        let b13 = self.ch13.is_on();
        let b14 = self.ch14.is_on();
        let b15 = self.ch15.is_on();
        let r = pack_flags(b0, b1, b2, b3, b4, b5, b6, b7, b8, b9, b10, b11, b12, b13, b14, b15);
        proof {
            lemma_pack(b0, b1, b2, b3, b4, b5, b6, b7, b8, b9, b10, b11, b12, b13, b14, b15);
        }
        r
    }

    /// The flags of the channels that are to be switched off.
    pub fn off(&self) -> (r: u16)
        ensures
            self.marks(r, BusChannel::Off),
    {
        let b0 = self.ch00.is_off();
        let b1 = self.ch01.is_off();
        let b2 = self.ch02.is_off();
        let b3 = self.ch03.is_off();
        let b4 = self.ch04.is_off();
        let b5 = self.ch05.is_off();
        let b6 = self.ch06.is_off();
        let b7 = self.ch07.is_off();
        let b8 = self.ch08.is_off();
        let b9 = self.ch09.is_off();
        let b10 = self.ch10.is_off();
        let b11 = self.ch11.is_off();
        let b12 = self.ch12.is_off();
        let b13 = self.ch13.is_off();
        let b14 = self.ch14.is_off();
        let b15 = self.ch15.is_off();
        let r = pack_flags(b0, b1, b2, b3, b4, b5, b6, b7, b8, b9, b10, b11, b12, b13, b14, b15);
        proof {
            lemma_pack(b0, b1, b2, b3, b4, b5, b6, b7, b8, b9, b10, b11, b12, b13, b14, b15);
        }
        r
    }

    /// The flags of the channels that are on, where every channel is on or
    /// off; an error where one is left as it is.
    pub fn state(&self) -> (r: EpsResult<u16>)
        ensures
            self.is_definite() ==> r is Ok && self.marks(r->Ok_0, BusChannel::On),
            !self.is_definite() ==> r == Err::<u16, EpsError>(EpsError::InvalidBusChannelState),
    {
        if !self.ch00.is_on() && !self.ch00.is_off() {
            return Err(EpsError::InvalidBusChannelState);
        }
        if !self.ch01.is_on() && !self.ch01.is_off() {
            return Err(EpsError::InvalidBusChannelState);
        }
        if !self.ch02.is_on() && !self.ch02.is_off() {
            return Err(EpsError::InvalidBusChannelState);
        }
        if !self.ch03.is_on() && !self.ch03.is_off() {
            return Err(EpsError::InvalidBusChannelState);
        }
        if !self.ch04.is_on() && !self.ch04.is_off() {
            return Err(EpsError::InvalidBusChannelState);
        }
        if !self.ch05.is_on() && !self.ch05.is_off() {
            return Err(EpsError::InvalidBusChannelState);
        }
        if !self.ch06.is_on() && !self.ch06.is_off() {
            return Err(EpsError::InvalidBusChannelState);
        }
        if !self.ch07.is_on() && !self.ch07.is_off() {
            return Err(EpsError::InvalidBusChannelState);
        }
        if !self.ch08.is_on() && !self.ch08.is_off() {
            return Err(EpsError::InvalidBusChannelState);
        }
        if !self.ch09.is_on() && !self.ch09.is_off() {
            return Err(EpsError::InvalidBusChannelState);
        }
        if !self.ch10.is_on() && !self.ch10.is_off() {
            return Err(EpsError::InvalidBusChannelState);
        }
        if !self.ch11.is_on() && !self.ch11.is_off() {
            return Err(EpsError::InvalidBusChannelState);
        }
        if !self.ch12.is_on() && !self.ch12.is_off() {
            return Err(EpsError::InvalidBusChannelState);
        }
        if !self.ch13.is_on() && !self.ch13.is_off() {
            return Err(EpsError::InvalidBusChannelState);
        }
        if !self.ch14.is_on() && !self.ch14.is_off() {
            return Err(EpsError::InvalidBusChannelState);
        }
        if !self.ch15.is_on() && !self.ch15.is_off() {
            return Err(EpsError::InvalidBusChannelState);
        }
        Ok(self.on())
    }

    /// These states with channel `c` made `named`.
    fn put(self, c: u8, named: BusChannel) -> (r: Self)
        requires
            c < 16,
        ensures
            r == self.with(c as int, named),
    {
        let mut r = self;
        match c {
            0 => r.ch00 = named,
            1 => r.ch01 = named,
            2 => r.ch02 = named,
            3 => r.ch03 = named,
            4 => r.ch04 = named,
            5 => r.ch05 = named,
            6 => r.ch06 = named,
            7 => r.ch07 = named,
            8 => r.ch08 = named,
            9 => r.ch09 = named,
            10 => r.ch10 = named,
            11 => r.ch11 = named,
            12 => r.ch12 = named,
            13 => r.ch13 = named,
            14 => r.ch14 = named,
            _ => r.ch15 = named,
        }
        r
    }

    fn set_channel(typ_group: BusGroup) -> (r: BusChannel)
        ensures
            r == Self::target(typ_group),
    {
        match typ_group {
            BusGroup::BusGroupOn => BusChannel::On,
            BusGroup::BusGroupOff => BusChannel::Off,
            _ => BusChannel::Keep,
        }
    }

    /// The states that a group command asks for: each channel that
    /// `channels` names, once or more often, gets the command's state, the
    /// others are left. A number that is no channel is an error.
    pub fn set(typ_group: BusGroup, channels: Vec<u8>) -> (r: EpsResult<Self>)
        ensures
            (forall|i: int| 0 <= i < channels@.len() ==> channels@[i] < 16) ==> r == Ok::<
                Self,
                EpsError,
            >(Self::chosen(channels@, Self::target(typ_group))),
            (exists|i: int| 0 <= i < channels@.len() && channels@[i] >= 16) ==> r == Err::<
                Self,
                EpsError,
            >(EpsError::InvalidBusChannelState),
    {
        let named = Self::set_channel(typ_group);
        let mut s = BusChannelState::default();
        let mut i: usize = 0;
        assert(channels@.take(0) =~= Seq::<u8>::empty());
        while i < channels.len()
            invariant
                i <= channels@.len(),
                forall|j: int| 0 <= j < i ==> channels@[j] < 16,
                s == Self::chosen(channels@.take(i as int), named),
            decreases channels@.len() - i,
        {
            let c: u8 = channels[i];
            if c >= 16 {
                return Err(EpsError::InvalidBusChannelState);
            }
            proof {
                assert(channels@.take(i as int + 1) == channels@.take(i as int).push(c));
                lemma_chosen_push(channels@.take(i as int), c, named);
            }
            s = s.put(c, named);
            i = i + 1;
        }
        assert(channels@.take(i as int) == channels@);
        Ok(s)
    }
}

impl From<u16> for BusChannelState {
    /// The states that telemetry flags report: each channel on or off.
    fn from(u: u16) -> (r: BusChannelState) {
        proof {
            bit_values();
        }
        BusChannelState {
            ch00: channel_from(u, 0x0001),
            ch01: channel_from(u, 0x0002),
            ch02: channel_from(u, 0x0004),
            ch03: channel_from(u, 0x0008),
            ch04: channel_from(u, 0x0010),
            ch05: channel_from(u, 0x0020),
            ch06: channel_from(u, 0x0040),
            ch07: channel_from(u, 0x0080),
            ch08: channel_from(u, 0x0100),
            ch09: channel_from(u, 0x0200),
            ch10: channel_from(u, 0x0400),
            ch11: channel_from(u, 0x0800),
            ch12: channel_from(u, 0x1000),
            ch13: channel_from(u, 0x2000),
            ch14: channel_from(u, 0x4000),
            ch15: channel_from(u, 0x8000),
        }
    }
}

impl FromSpecImpl<u16> for BusChannelState {
    open spec fn obeys_from_spec() -> bool {
        true
    }

    open spec fn from_spec(u: u16) -> BusChannelState {
        BusChannelState::from_flags(u)
    }
}

/// Flags are fixed by the channels that they name: two sets of flags that
/// mark the same channels of the same states are equal.
pub proof fn flags_are_unique(s: BusChannelState, a: u16, b: u16, which: BusChannel)
    requires
        s.marks(a, which),
        s.marks(b, which),
    ensures
        a == b,
{
    lemma_same_bits(a, b);
}

proof fn lemma_some_flags(channels: Seq<u8>) -> (flags: u16)
    ensures
        BusChannelState::chosen(channels, BusChannel::On).marks(flags, BusChannel::On),
{
    let flags = pack(
        channels.contains(0),
        channels.contains(1),
        channels.contains(2),
        channels.contains(3),
        channels.contains(4),
        channels.contains(5),
        channels.contains(6),
        channels.contains(7),
        channels.contains(8),
        channels.contains(9),
        channels.contains(10),
        channels.contains(11),
        channels.contains(12),
        channels.contains(13),
        channels.contains(14),
        channels.contains(15),
    );
    lemma_pack(
        channels.contains(0),
        channels.contains(1),
        channels.contains(2),
        channels.contains(3),
        channels.contains(4),
        channels.contains(5),
        channels.contains(6),
        channels.contains(7),
        channels.contains(8),
        channels.contains(9),
        channels.contains(10),
        channels.contains(11),
        channels.contains(12),
        channels.contains(13),
        channels.contains(14),
        channels.contains(15),
    );
    flags
}

/// There are flags that name the channels among `channels`, and
/// `channel_flags` are those.
pub proof fn channel_flags_name_the_channels(channels: Seq<u8>)
    ensures
        BusChannelState::chosen(channels, BusChannel::On).marks(
            channel_flags(channels),
            BusChannel::On,
        ),
{
    let flags = lemma_some_flags(channels);
}

/// Flags that are read as states leave no channel open, and name, as the
/// channels that are on, themselves.
pub proof fn flags_read_back(flags: u16)
    ensures
        BusChannelState::from_flags(flags).is_definite(),
        BusChannelState::from_flags(flags).marks(flags, BusChannel::On),
{
}

/// States in which every channel is on or off are what the flags of their
/// channels that are on are read as.
pub proof fn states_read_back(s: BusChannelState, flags: u16)
    requires
        s.is_definite(),
        s.marks(flags, BusChannel::On),
    ensures
        BusChannelState::from_flags(flags) == s,
{
}

/// A command that names the same channels, in any order and any number of
/// times, asks for the same states.
pub proof fn chosen_by_set_of_channels(a: Seq<u8>, b: Seq<u8>, named: BusChannel)
    requires
        a.to_set() == b.to_set(),
    ensures
        BusChannelState::chosen(a, named) == BusChannelState::chosen(b, named),
{
    assert forall|c: u8| #[trigger] a.contains(c) == b.contains(c) by {
        assert(a.to_set().contains(c) == a.contains(c));
        assert(b.to_set().contains(c) == b.contains(c));
    }
}

} // verus!
