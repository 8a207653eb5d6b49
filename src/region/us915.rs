use vstd::prelude::*;
use lorawan_encoding::maccommands::ChannelMask;

verus! {

/// The fixed frequency of the second receive window.
pub const RX2_FREQUENCY: u32 = 923_300_000;

pub const RECEIVE_DELAY1: u32 = 1000;
pub const RECEIVE_DELAY2: u32 = 2000;
pub const JOIN_ACCEPT_DELAY1: u32 = 5000;
pub const JOIN_ACCEPT_DELAY2: u32 = 6000;

/// Uplink channel `8 * subband + channel` of the 64 US915 uplink channels:
/// 902.3 MHz and then every 200 kHz.
pub open spec fn uplink_frequency(subband: int, channel: int) -> int {
    902_300_000 + (8 * subband + channel) * 200_000
}

/// The eight US915 downlink channels.
pub open spec fn downlink_frequency(channel: int) -> u32 {
    if channel == 0 {
        922_300_000
    } else if channel == 1 {
        923_900_000
    } else if channel == 2 {
        924_500_000
    } else if channel == 3 {
        925_100_000
    } else if channel == 4 {
        925_700_000
    } else if channel == 5 {
        926_300_000
    } else if channel == 6 {
        926_900_000
    } else {
        927_500_000
    }
}

/// Whether `f` is one of the 64 uplink channels.
pub open spec fn is_uplink_frequency(f: u32) -> bool {
    exists|sb: int, ch: int| 0 <= sb < 8 && 0 <= ch < 8 && f == uplink_frequency(sb, ch)
}

/// Sub-band picked for a random byte: the pinned one (counted from 1) or bits 3..5 of `random`.
pub open spec fn pick_subband(pinned: Option<u8>, random: u8) -> int {
    match pinned {
        Some(s) => s - 1,
        None => ((random / 8) % 8) as int,
    }
}

/// US915 regional state: an optional pinned sub-band (1 to 8) and the
/// (sub-band, channel) of the last transmission.
#[derive(Debug)]
pub struct US915 {
    subband: Option<u8>,
    last_tx: (u8, u8),
}

impl US915 {
    pub closed spec fn wf(&self) -> bool {
        &&& match self.subband {
            Some(s) => 1 <= s <= 8,
            None => true,
        }
        &&& self.last_tx.0 < 8
        &&& self.last_tx.1 < 8
    }

    pub closed spec fn pinned_subband(&self) -> Option<u8> {
        self.subband
    }

    /// The (sub-band, channel) of the last transmission.
    pub closed spec fn last_channel(&self) -> (u8, u8) {
        self.last_tx
    }

    pub fn new() -> (r: US915)
        ensures
            r.wf(),
            r.pinned_subband() == None::<u8>,
            r.last_channel() == (0u8, 0u8),
    {
        US915 { subband: None, last_tx: (0, 0) }
    }

    pub fn set_subband(&mut self, subband: u8)
        requires
            old(self).wf(),
            1 <= subband <= 8,
        ensures
            final(self).wf(),
            final(self).pinned_subband() == Some(subband),
            final(self).last_channel() == old(self).last_channel(),
    {
        self.subband = Some(subband);
    }

    fn select_channel(&mut self, random: u8) -> (r: u32)
        requires
            old(self).wf(),
        ensures
            final(self).wf(),
            final(self).pinned_subband() == old(self).pinned_subband(),
            final(self).last_channel().0 == pick_subband(old(self).pinned_subband(), random),
            final(self).last_channel().1 == random % 8,
            r == uplink_frequency(final(self).last_channel().0 as int, (random % 8) as int),
            is_uplink_frequency(r),
    {
        let channel: u8 = random & 0b111;
        assert(random & 0b111 == random % 8) by (bit_vector);
        let subband: u8 = match self.subband {
            Some(s) => s - 1,
            None => {
                assert((random >> 3u8) & 0b111 == (random / 8) % 8) by (bit_vector);
                (random >> 3) & 0b111
            },
        };
        self.last_tx = (subband, channel);
        let f: u32 = 902_300_000 + (8 * subband as u32 + channel as u32) * 200_000;
        assert(is_uplink_frequency(f)) by {
            assert(f == uplink_frequency(subband as int, channel as int));
        }
        f
    }

    /// Frequency for a join request; bits 0..2 of `random` pick the channel and,
    /// without a pinned sub-band, bits 3..5 pick the sub-band.
    pub fn get_join_frequency(&mut self, random: u8) -> (r: u32)
        requires
            old(self).wf(),
        ensures
            final(self).wf(),
            final(self).pinned_subband() == old(self).pinned_subband(),
            final(self).last_channel() == (
                pick_subband(old(self).pinned_subband(), random) as u8,
                random % 8,
            ),
            r == uplink_frequency(
                pick_subband(old(self).pinned_subband(), random),
                (random % 8) as int,
            ),
            is_uplink_frequency(r),
    {
        self.select_channel(random)
    }

    /// Frequency for a data uplink, chosen as for a join request.
    pub fn get_data_frequency(&mut self, random: u8) -> (r: u32)
        requires
            old(self).wf(),
        ensures
            final(self).wf(),
            final(self).pinned_subband() == old(self).pinned_subband(),
            final(self).last_channel() == (
                pick_subband(old(self).pinned_subband(), random) as u8,
                random % 8,
            ),
            r == uplink_frequency(
                pick_subband(old(self).pinned_subband(), random),
                (random % 8) as int,
            ),
            is_uplink_frequency(r),
    {
        self.select_channel(random)
    }

    fn downlink(channel: u8) -> (r: u32)
        requires
            channel < 8,
        ensures
            r == downlink_frequency(channel as int),
    {
        match channel {
            0 => 922_300_000,
            1 => 923_900_000,
            2 => 924_500_000,
            3 => 925_100_000,
            4 => 925_700_000,
            5 => 926_300_000,
            6 => 926_900_000,
            _ => 927_500_000,
        }
    }

    /// RX1 frequency after a join request: the downlink channel of the last uplink channel.
    pub fn get_join_accept_frequency1(&self) -> (r: u32)
        requires
            self.wf(),
        ensures
            r == downlink_frequency(self.last_channel().1 as int),
    {
        Self::downlink(self.last_tx.1)
    }

    /// RX1 frequency after a data uplink: the downlink channel of the last uplink channel.
    pub fn get_rxwindow1_frequency(&self) -> (r: u32)
        requires
            self.wf(),
        ensures
            r == downlink_frequency(self.last_channel().1 as int),
    {
        Self::downlink(self.last_tx.1)
    }

    /// Channel masks are not applied: the call changes nothing.
    pub fn set_channel_mask(&mut self, _channel_mask: ChannelMask)
        ensures
            *final(self) == *old(self),
    {
    }

    /// RX2 frequency: fixed for the region.
    pub fn get_rxwindow2_frequency(&self) -> (r: u32)
        ensures
            r == RX2_FREQUENCY,
    {
        RX2_FREQUENCY
    }

    pub fn get_join_accept_delay1(&self) -> (r: u32)
        ensures
            r == JOIN_ACCEPT_DELAY1,
    {
        JOIN_ACCEPT_DELAY1
    }

    pub fn get_join_accept_delay2(&self) -> (r: u32)
        ensures
            r == JOIN_ACCEPT_DELAY2,
    {
        JOIN_ACCEPT_DELAY2
    }

    pub fn get_receive_delay1(&self) -> (r: u32)
        ensures
            r == RECEIVE_DELAY1,
    {
        RECEIVE_DELAY1
    }

    pub fn get_receive_delay2(&self) -> (r: u32)
        ensures
            r == RECEIVE_DELAY2,
    {
        RECEIVE_DELAY2
    }
}

} // verus!
