//! One report kept as the adapter sent it, decoded channel by channel on
//! demand.

use vstd::prelude::*;

use crate::adapter::{controller_at, decode_channel, offset_of, READ_LEN};
use crate::channel::Channel;
use crate::controller::ControllerState;

verus! {

/// A report of the adapter, kept in its raw form.
#[derive(Debug, Copy, Clone)]
pub struct InputState {
    buf: [u8; READ_LEN],
}

impl View for InputState {
    type V = Seq<u8>;

    /// The bytes of the report.
    closed spec fn view(&self) -> Seq<u8> {
        self.buf@
    }
}

impl InputState {
    /// Keeps the report `buf`.
    pub fn new(buf: [u8; READ_LEN]) -> (state: Self)
        ensures
            state@ == buf@,
            state@.len() == READ_LEN,
    {
        InputState { buf }
    }

    /// The report that consists of zeros only, in which every slot is empty.
    pub fn empty() -> (state: Self)
        ensures
            state@ == Seq::new(READ_LEN as nat, |i: int| 0u8),
            forall|channel: Channel|
                decode_channel(state@, channel) == ControllerState::zeroed(),
    {
        let state = InputState { buf: [0u8; READ_LEN] };
        proof {
            assert(state@ =~= Seq::new(READ_LEN as nat, |i: int| 0u8));
            assert forall|channel: Channel|
                decode_channel(state@, channel) == ControllerState::zeroed() by {
                assert(0u8 / 0x80u8 == 0 && 0u8 / 0x01u8 == 0);
            }
        }
        state
    }

    /// Get the `ControllerState` for the given channel.
    pub fn controller_state(&self, channel: Channel) -> (state: ControllerState)
        ensures
            state == decode_channel(self@, channel),
    {
        controller_at(self.buf.as_slice(), channel)
    }

    /// Check if a controller is connected to the given channel.
    pub fn is_connected(&self, channel: Channel) -> (connected: bool)
        ensures
            connected == decode_channel(self@, channel).connected(),
    {
        let status: u8 = self.buf[offset_of(channel)];
        assert(status >> 4 != 0 <==> status / 0x10 != 0) by (bit_vector);
        status >> 4 != 0
    }
}

} // verus!
