//! The four controller slots of the adapter and the conversions from plain
//! integers into them.

use vstd::prelude::*;
use vstd::std_specs::convert::TryFromSpecImpl;

verus! {

/// Number of controller slots on the adapter.
pub const CHANNEL_COUNT: usize = 4;

/// One of the four controller slots of the adapter.
#[derive(Debug, Copy, Clone, PartialEq, Eq, Structural)]
pub enum Channel {
    One,
    Two,
    Three,
    Four,
}

impl Channel {
    /// Zero-based position of the slot on the adapter.
    pub open spec fn index_spec(self) -> int {
        match self {
            Channel::One => 0,
            Channel::Two => 1,
            Channel::Three => 2,
            Channel::Four => 3,
        }
    }

    /// The slot at a zero-based position, for positions `0..=3`.
    pub open spec fn at(index: int) -> Channel
        recommends
            0 <= index < 4,
    {
        if index <= 0 {
            Channel::One
        } else if index == 1 {
            Channel::Two
        } else if index == 2 {
            Channel::Three
        } else {
            Channel::Four
        }
    }

    /// Strict resolution of a position: the slot at `value` for `0..=3`, and
    /// nothing for any other value.
    pub open spec fn resolve(value: int) -> Option<Channel> {
        if 0 <= value < 4 {
            Some(Channel::at(value))
        } else {
            None
        }
    }

    /// The slot whose position is closest to `value`: values below zero name
    /// the first slot and values above three the last.
    pub open spec fn nearest(value: int) -> Channel {
        if value <= 0 {
            Channel::One
        } else if value >= 3 {
            Channel::Four
        } else {
            Channel::at(value)
        }
    }

    /// Zero-based position of the slot on the adapter.
    pub fn index(self) -> (i: usize)
        ensures
            i == self.index_spec(),
            i < CHANNEL_COUNT,
    {
        match self {
            Channel::One => 0,
            Channel::Two => 1,
            Channel::Three => 2,
            Channel::Four => 3,
        }
    }
}

impl Channel {
    /// Lenient resolution of an unsigned position: `0..=2` name their slot and
    /// every larger value names the last one.
    pub fn saturating_from_usize(val: usize) -> (channel: Channel)
        ensures
            channel == Channel::nearest(val as int),
    {
        match val {
            0 => Channel::One,
            1 => Channel::Two,
            2 => Channel::Three,
            _ => Channel::Four,
        }
    }

    /// Lenient resolution of a signed position: negative values name the first
    /// slot, `0..=3` their own, and every larger value the last one.
    pub fn saturating_from_i32(val: i32) -> (channel: Channel)
        ensures
            channel == Channel::nearest(val as int),
    {
        if val <= 0 {
            Channel::One
        } else if val == 1 {
            Channel::Two
        } else if val == 2 {
            Channel::Three
        } else {
            Channel::Four
        }
    }
}

impl TryFrom<usize> for Channel {
    type Error = usize;

    /// Strict resolution: positions `0..=3` name a slot, any other value is
    /// handed back as the error.
    fn try_from(val: usize) -> (r: Result<Self, usize>)
        ensures
            r is Ok <==> val < CHANNEL_COUNT,
            r matches Ok(channel) ==> Channel::resolve(val as int) == Some(channel)
                && channel.index_spec() == val,
            r matches Err(rejected) ==> rejected == val,
    {
        match val {
            0 => Ok(Channel::One),
            1 => Ok(Channel::Two),
            2 => Ok(Channel::Three),
            3 => Ok(Channel::Four),
            x => Err(x),
        }
    }
}

impl TryFromSpecImpl<usize> for Channel {
    open spec fn obeys_try_from_spec() -> bool {
        true
    }

    open spec fn try_from_spec(val: usize) -> Result<Self, usize> {
        match Channel::resolve(val as int) {
            Some(channel) => Ok(channel),
            None => Err(val),
        }
    }
}

impl TryFrom<i32> for Channel {
    type Error = i32;

    /// Strict resolution: positions `0..=3` name a slot, any other value,
    /// negative ones included, is handed back as the error.
    fn try_from(val: i32) -> (r: Result<Self, i32>)
        ensures
            r is Ok <==> 0 <= val < CHANNEL_COUNT,
            r matches Ok(channel) ==> Channel::resolve(val as int) == Some(channel)
                && channel.index_spec() == val,
            r matches Err(rejected) ==> rejected == val,
    {
        match val {
            0 => Ok(Channel::One),
            1 => Ok(Channel::Two),
            2 => Ok(Channel::Three),
            3 => Ok(Channel::Four),
            x => Err(x),
        }
    }
}

impl TryFromSpecImpl<i32> for Channel {
    open spec fn obeys_try_from_spec() -> bool {
        true
    }

    open spec fn try_from_spec(val: i32) -> Result<Self, i32> {
        match Channel::resolve(val as int) {
            Some(channel) => Ok(channel),
            None => Err(val),
        }
    }
}

/// Positions and slots correspond one to one: the slot at a position in
/// `0..=3` has that position as its index, and every slot is the slot at its
/// own index.
pub proof fn lemma_channel_index_roundtrip(channel: Channel, index: int)
    ensures
        0 <= channel.index_spec() < CHANNEL_COUNT,
        Channel::at(channel.index_spec()) == channel,
        0 <= index < CHANNEL_COUNT ==> Channel::at(index).index_spec() == index,
{
}

/// Strict resolution accepts exactly the positions `0..=3`, and each of them
/// resolves to the slot with that index; every other value is rejected.
pub proof fn lemma_strict_resolution(value: int)
    ensures
        Channel::resolve(value) is Some <==> 0 <= value <= 3,
        Channel::resolve(value) matches Some(channel) ==> channel.index_spec() == value,
{
}

/// Lenient resolution agrees with strict resolution wherever the latter
/// accepts, and names the nearest slot elsewhere.
pub proof fn lemma_lenient_resolution(value: int)
    ensures
        Channel::resolve(value) matches Some(channel) ==> Channel::nearest(value) == channel,
        value < 0 ==> Channel::nearest(value) == Channel::One,
        value > 3 ==> Channel::nearest(value) == Channel::Four,
{
}

} // verus!
