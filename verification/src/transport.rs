//! What the transport to the adapter needs to know: how the adapter is
//! recognised on the bus, the commands it takes, and the errors a transfer can
//! end in.

use vstd::prelude::*;

verus! {

/// Vendor id under which the adapter shows up on the bus.
pub const VENDOR_ID: u16 = 0x057E;

/// Product id under which the adapter shows up on the bus.
pub const PRODUCT_ID: u16 = 0x0337;

/// Endpoint that reports are read from.
pub const ENDPOINT_IN: u8 = 0x81;

/// Endpoint that commands are written to.
pub const ENDPOINT_OUT: u8 = 0x02;

/// Time in milliseconds after which a transfer is given up.
pub const TRANSFER_TIMEOUT_MS: u64 = 16;

/// Command that makes the adapter start to send reports.
pub const COMMAND_START: u8 = 0x13;

/// Command that sets the rumble motors of the four controllers.
pub const COMMAND_RUMBLE: u8 = 0x11;

/// How a transfer can fail.
#[derive(Debug, Copy, Clone, PartialEq, Eq, Structural)]
pub enum TransportError {
    Io,
    InvalidParam,
    Access,
    NoDevice,
    NotFound,
    Busy,
    Timeout,
    Overflow,
    Pipe,
    Interrupted,
    NoMem,
    NotSupported,
    BadDescriptor,
    Other,
}

impl TransportError {
    /// Whether the error is harmless: the transfer ran out of time, and the
    /// next one may well succeed. Every other error is final.
    pub open spec fn benign(self) -> bool {
        self == TransportError::Timeout
    }

    /// Whether the error is harmless.
    pub fn is_benign(&self) -> (benign: bool)
        ensures
            benign == self.benign(),
    {
        match self {
            TransportError::Timeout => true,
            _ => false,
        }
    }
}

/// Whether a device with these ids is the adapter.
pub open spec fn is_adapter_ids(ids: (u16, u16)) -> bool {
    ids.0 == VENDOR_ID && ids.1 == PRODUCT_ID
}

/// Whether a device with this vendor id and product id is the adapter.
pub fn is_adapter(vendor_id: u16, product_id: u16) -> (hit: bool)
    ensures
        hit == is_adapter_ids((vendor_id, product_id)),
{
    vendor_id == VENDOR_ID && product_id == PRODUCT_ID
}

/// Picks the adapter out of the devices on the bus, each given by its vendor
/// id and product id: the position of the first device that is the adapter,
/// or nothing where none is.
pub fn find_adapter(devices: &[(u16, u16)]) -> (found: Option<usize>)
    ensures
        match found {
            Some(position) => {
                &&& position < devices@.len()
                &&& is_adapter_ids(devices@[position as int])
                &&& forall|earlier: int|
                    0 <= earlier < position ==> !is_adapter_ids(#[trigger] devices@[earlier])
            },
            None => forall|any: int|
                0 <= any < devices@.len() ==> !is_adapter_ids(#[trigger] devices@[any]),
        },
{
    let mut position: usize = 0;
    while position < devices.len()
        invariant
            position <= devices@.len(),
            forall|earlier: int|
                0 <= earlier < position ==> !is_adapter_ids(#[trigger] devices@[earlier]),
        decreases devices@.len() - position,
    {
        let ids: (u16, u16) = devices[position];
        if is_adapter(ids.0, ids.1) {
            return Some(position);
        }
        position += 1;
    }
    None
}

/// The command that makes the adapter start to send reports.
pub fn start_command() -> (command: [u8; 1])
    ensures
        command@ == seq![COMMAND_START],
{
    let command: [u8; 1] = [COMMAND_START];
    assert(command@ =~= seq![COMMAND_START]);
    command
}

/// The command that sets the rumble motors: the command byte, then one
/// strength for each channel in the order of the channels.
pub fn rumble_command(strengths: [u8; 4]) -> (command: [u8; 5])
    ensures
        command@ == seq![COMMAND_RUMBLE] + strengths@,
{
    let command: [u8; 5] = [
        COMMAND_RUMBLE,
        strengths[0],
        strengths[1],
        strengths[2],
        strengths[3],
    ];
    assert(command@ =~= seq![COMMAND_RUMBLE] + strengths@);
    command
}

} // verus!
