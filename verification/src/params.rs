//! Parameters of an advertising session.

use vstd::prelude::*;

verus! {

/// Which peers the controller answers while it advertises.
#[derive(Clone, Copy, Debug, PartialEq, Eq, Structural)]
pub enum FilterPolicy {
    /// Answer scan and connection requests from any peer.
    AcceptAll,
    /// Answer scan requests only from listed peers.
    ListedScanners,
    /// Answer connection requests only from listed peers.
    ListedInitiators,
    /// Answer only listed peers.
    ListedOnly,
}

/// How the radio advertises for the lifetime of one session.
///
/// The radio counts advertising intervals in slots of 0.625 ms.
#[derive(Clone, Copy, Debug, PartialEq, Eq, Structural)]
pub struct AdvertisingParameters {
    /// Shortest time between two advertising events, in slots.
    pub interval_min: u16,
    /// Longest time between two advertising events, in slots.
    pub interval_max: u16,
    /// Advertising channels in use, one bit per channel.
    pub channel_map: u8,
    /// Which peers are answered.
    pub filter_policy: FilterPolicy,
}

/// Channel map that uses all three advertising channels.
pub const ALL_CHANNELS: u8 = 0x07;

/// The whole slots of 0.625 ms in `interval_ms` milliseconds, or the largest
/// count that the radio can be told if there are more.
pub open spec fn slots_in(interval_ms: u32) -> int {
    if interval_ms * 8 / 5 <= u16::MAX {
        interval_ms * 8 / 5
    } else {
        u16::MAX as int
    }
}

impl AdvertisingParameters {
    /// Parameters that advertise every `interval_ms` milliseconds on all three
    /// channels and answer any peer.
    pub fn with_interval_ms(interval_ms: u32) -> (parameters: AdvertisingParameters)
        ensures
            parameters.interval_min == slots_in(interval_ms),
            parameters.interval_max == slots_in(interval_ms),
            parameters.channel_map == ALL_CHANNELS,
            parameters.filter_policy == FilterPolicy::AcceptAll,
    {
        let slots: u64 = interval_ms as u64 * 8 / 5;
        let interval: u16 = if slots <= u16::MAX as u64 {
            slots as u16
        } else {
            u16::MAX
        };
        AdvertisingParameters {
            interval_min: interval,
            interval_max: interval,
            channel_map: ALL_CHANNELS,
            filter_policy: FilterPolicy::AcceptAll,
        }
    }
}

} // verus!
