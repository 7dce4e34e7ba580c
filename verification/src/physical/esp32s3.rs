//! esp32s3

use vstd::prelude::*;

verus! {

/// Offset of the partition table itself.
pub const PARTITION_OFFSET: u32 = 0x8000;

/// Size of the partition table.
pub const PARTITION_SIZE: usize = 0xC00;

/// Offset of the NVS partition that holds the application's configuration.
pub const NVS_OFFSET: u32 = 0x9000;

/// Size of the NVS partition that holds the application's configuration.
pub const NVS_SIZE: usize = 0x4000;

/// The number of ticks per second used for real-time calculations.
pub const TICKS_PER_SECOND: u64 = 16_000_000;

/// Number of pin slots on the chipset: valid pin indices are `0..MAX_PINS`.
pub const MAX_PINS: u8 = 49;

} // verus!
