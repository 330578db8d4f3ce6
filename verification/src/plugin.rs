//! What the plugin tells the host about itself, and the test of the host's
//! API version against the one the plugin was written for.

use vstd::prelude::*;

verus! {

/// Version of the plugin: 0.2.3, one byte for each part.
pub const PLUGIN_VERSION: i32 = 0x000203;

/// Version of the host's API that the plugin was written for: 2.1.0.
pub const TARGET_API_VERSION: i32 = 0x020100;

/// Capabilities that the plugin reports: none.
pub const PLUGIN_CAPABILITIES: i32 = 0;

/// Number of controllers that the plugin reports as present.
pub const PRESENT_CONTROLLERS: usize = 4;

/// The major part of an API version: the bits above the lowest sixteen.
pub open spec fn api_major(version: i32) -> int {
    (version as int / 0x10000) % 0x1000
}

/// Whether the plugin works with a host of API version `core_version`: the
/// version is not older than the one the plugin was written for and has the
/// same major part.
pub open spec fn compatible_with(core_version: i32) -> bool {
    core_version >= TARGET_API_VERSION && api_major(core_version) == api_major(
        TARGET_API_VERSION,
    )
}

/// Whether the plugin works with a host of API version `core_version`.
pub fn api_compatible(core_version: i32) -> (compatible: bool)
    ensures
        compatible == compatible_with(core_version),
{
    assert(core_version >= 0 ==> ((core_version & 0xfff0000 == 0x020100i32 & 0xfff0000) <==> (
    core_version / 0x10000) % 0x1000 == 2)) by (bit_vector);
    !(core_version < TARGET_API_VERSION || core_version & 0xfff0000 != TARGET_API_VERSION
        & 0xfff0000)
}

} // verus!
