//! The adapter's report: where each controller lies in it, and the snapshot of
//! all four controllers that one report decodes to.

use vstd::prelude::*;
use vstd::std_specs::convert::FromSpecImpl;

pub use crate::channel::Channel;
pub use crate::controller::ControllerState;
use crate::controller::CONTROLLER_LEN;

verus! {

/// Length in bytes of one report read from the adapter.
pub const READ_LEN: usize = 37;

/// Length of the header that precedes the controllers in a report.
pub const HEADER_LEN: usize = 1;

/// Position in a report of the first byte that belongs to `channel`.
pub open spec fn channel_offset(channel: Channel) -> int {
    HEADER_LEN + CONTROLLER_LEN * channel.index_spec()
}

/// Whether the byte at `position` of a report belongs to `channel`.
pub open spec fn channel_owns(channel: Channel, position: int) -> bool {
    channel_offset(channel) <= position < channel_offset(channel) + CONTROLLER_LEN
}

/// The nine bytes of `report` that belong to `channel`, or no bytes at all
/// where the report is too short to hold all nine.
pub open spec fn channel_bytes(report: Seq<u8>, channel: Channel) -> Seq<u8> {
    if channel_offset(channel) + CONTROLLER_LEN <= report.len() {
        report.subrange(channel_offset(channel), channel_offset(channel) + CONTROLLER_LEN)
    } else {
        Seq::empty()
    }
}

/// The controller that `report` describes on `channel`. A report too short to
/// hold the channel's nine bytes describes an empty slot there.
pub open spec fn decode_channel(report: Seq<u8>, channel: Channel) -> ControllerState {
    ControllerState::decode(channel_bytes(report, channel))
}

/// Position in a report of the first byte that belongs to `channel`.
pub fn offset_of(channel: Channel) -> (offset: usize)
    ensures
        offset == channel_offset(channel),
        offset + CONTROLLER_LEN <= READ_LEN,
{
    HEADER_LEN + CONTROLLER_LEN * channel.index()
}

/// Decodes the controller on `channel` out of a report of any length.
pub fn controller_at(report: &[u8], channel: Channel) -> (state: ControllerState)
    ensures
        state == decode_channel(report@, channel),
{
    let start: usize = offset_of(channel);
    let end: usize = start + CONTROLLER_LEN;
    if report.len() < end {
        ControllerState::new()
    } else {
        ControllerState::from(&report[start..end])
    }
}

/// The four channels occupy consecutive, non-overlapping runs of nine bytes
/// behind the header: the offsets of two channels differ by nine times the
/// difference of their indices, no position belongs to two channels, and every
/// position that belongs to a channel lies within the report.
pub proof fn lemma_channels_do_not_alias(a: Channel, b: Channel)
    ensures
        channel_offset(b) - channel_offset(a) == 9 * (b.index_spec() - a.index_spec()),
        a != b ==> forall|position: int| !(channel_owns(a, position) && channel_owns(b, position)),
        forall|position: int| channel_owns(a, position) ==> HEADER_LEN <= position < READ_LEN,
{
}

/// Every byte behind the header belongs to exactly one channel.
pub proof fn lemma_channels_cover_report(position: int)
    requires
        HEADER_LEN <= position < READ_LEN,
    ensures
        channel_owns(Channel::at((position - HEADER_LEN) / 9), position),
        forall|channel: Channel|
            channel_owns(channel, position) ==> channel == Channel::at((position - HEADER_LEN) / 9),
{
}

/// A channel's controller depends on the channel's own nine bytes only: two
/// reports that agree on them decode to the same controller there.
pub proof fn lemma_decode_reads_own_bytes(first: Seq<u8>, second: Seq<u8>, channel: Channel)
    requires
        first.len() == second.len(),
        forall|position: int|
            0 <= position < first.len() && channel_owns(channel, position) ==> first[position]
                == second[position],
    ensures
        decode_channel(first, channel) == decode_channel(second, channel),
{
    if channel_offset(channel) + CONTROLLER_LEN <= first.len() {
        assert(channel_bytes(first, channel) =~= channel_bytes(second, channel));
    }
}

/// The state of all four controllers as of one report.
#[derive(Debug, Copy, Clone, PartialEq, Eq, Structural)]
pub struct AdapterState {
    pub controller_0: ControllerState,
    pub controller_1: ControllerState,
    pub controller_2: ControllerState,
    pub controller_3: ControllerState,
}

impl AdapterState {
    /// The snapshot in which all four slots are empty.
    pub open spec fn zeroed() -> AdapterState {
        AdapterState {
            controller_0: ControllerState::zeroed(),
            controller_1: ControllerState::zeroed(),
            controller_2: ControllerState::zeroed(),
            controller_3: ControllerState::zeroed(),
        }
    }

    /// The snapshot that `report` decodes to.
    pub open spec fn decode(report: Seq<u8>) -> AdapterState {
        AdapterState {
            controller_0: decode_channel(report, Channel::One),
            controller_1: decode_channel(report, Channel::Two),
            controller_2: decode_channel(report, Channel::Three),
            controller_3: decode_channel(report, Channel::Four),
        }
    }

    /// The controller on `channel`.
    pub open spec fn controller(self, channel: Channel) -> ControllerState {
        match channel {
            Channel::One => self.controller_0,
            Channel::Two => self.controller_1,
            Channel::Three => self.controller_2,
            Channel::Four => self.controller_3,
        }
    }

    /// Whether a controller is plugged into at least one slot.
    pub open spec fn some_connected(self) -> bool {
        exists|channel: Channel| (#[trigger] self.controller(channel)).connected()
    }

    /// The snapshot in which all four slots are empty.
    pub fn new() -> (state: Self)
        ensures
            state == Self::zeroed(),
            forall|channel: Channel| state.controller(channel) == ControllerState::zeroed(),
            !state.some_connected(),
    {
        AdapterState {
            controller_0: ControllerState::new(),
            controller_1: ControllerState::new(),
            controller_2: ControllerState::new(),
            controller_3: ControllerState::new(),
        }
    }

    /// Decodes a report of any length. A channel whose nine bytes the report
    /// does not hold in full is an empty slot in the snapshot.
    pub fn from_slice(report: &[u8]) -> (state: Self)
        ensures
            state == Self::decode(report@),
            forall|channel: Channel| state.controller(channel) == decode_channel(report@, channel),
    {
        AdapterState {
            controller_0: controller_at(report, Channel::One),
            controller_1: controller_at(report, Channel::Two),
            controller_2: controller_at(report, Channel::Three),
            controller_3: controller_at(report, Channel::Four),
        }
    }

    /// Get the `ControllerState` for the given channel.
    pub fn controller_state(&self, channel: Channel) -> (state: ControllerState)
        ensures
            state == self.controller(channel),
    {
        match channel {
            Channel::One => self.controller_0,
            Channel::Two => self.controller_1,
            Channel::Three => self.controller_2,
            Channel::Four => self.controller_3,
        }
    }

    /// Whether a controller is plugged into at least one slot.
    pub fn any_connected(&self) -> (connected: bool)
        ensures
            connected == self.some_connected(),
            connected == (self.controller_0.connected() || self.controller_1.connected()
                || self.controller_2.connected() || self.controller_3.connected()),
    {
        proof {
            assert(self.controller(Channel::One) == self.controller_0);
            assert(self.controller(Channel::Two) == self.controller_1);
            assert(self.controller(Channel::Three) == self.controller_2);
            assert(self.controller(Channel::Four) == self.controller_3);
        }
        self.controller_0.is_connected() || self.controller_1.is_connected()
            || self.controller_2.is_connected() || self.controller_3.is_connected()
    }
}

impl Default for AdapterState {
    fn default() -> (state: Self)
        ensures
            state == AdapterState::zeroed(),
    {
        AdapterState::new()
    }
}

impl From<[u8; READ_LEN]> for AdapterState {
    /// Decodes one report.
    fn from(bytes: [u8; READ_LEN]) -> (state: Self)
        ensures
            state == AdapterState::decode(bytes@),
            forall|channel: Channel| state.controller(channel) == decode_channel(bytes@, channel),
    {
        AdapterState::from_slice(bytes.as_slice())
    }
}

impl FromSpecImpl<[u8; READ_LEN]> for AdapterState {
    open spec fn obeys_from_spec() -> bool {
        true
    }

    open spec fn from_spec(bytes: [u8; READ_LEN]) -> Self {
        AdapterState::decode(bytes@)
    }
}

} // verus!
