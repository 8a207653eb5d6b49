use vstd::prelude::*;
use lorawan_encoding::maccommands::ChannelMask;
use super::us915::{JOIN_ACCEPT_DELAY1, JOIN_ACCEPT_DELAY2, RECEIVE_DELAY1, RECEIVE_DELAY2};

verus! {

/// The fixed frequency of the second receive window.
pub const RX2_FREQUENCY: u32 = 505_300_000;

/// Uplink channel `i` of the 96 CN470 uplink channels: 470.3 MHz and then every 200 kHz.
pub open spec fn uplink_frequency(i: int) -> int {
    470_300_000 + i * 200_000
}

/// Downlink channel `i` of the 48 CN470 downlink channels: 500.3 MHz and then every 200 kHz.
pub open spec fn downlink_frequency(i: int) -> int {
    500_300_000 + i * 200_000
}

pub open spec fn is_uplink_frequency(f: u32) -> bool {
    exists|i: int| 0 <= i < 96 && f == uplink_frequency(i)
}

/// CN470 regional state: the uplink channel of the last transmission.
#[derive(Debug)]
pub struct CN470 {
    last_tx: u8,
}

impl CN470 {
    pub closed spec fn wf(&self) -> bool {
        self.last_tx < 96
    }

    pub closed spec fn last_channel(&self) -> u8 {
        self.last_tx
    }

    pub fn new() -> (r: CN470)
        ensures
            r.wf(),
            r.last_channel() == 0,
    {
        CN470 { last_tx: 0 }
    }

    /// CN470 has no sub-bands: the call changes nothing.
    pub fn set_subband(&mut self, _subband: u8)
        ensures
            *final(self) == *old(self),
    {
    }

    fn select_channel(&mut self, random: u8) -> (r: u32)
        requires
            old(self).wf(),
        ensures
            final(self).wf(),
            final(self).last_channel() == random % 8,
            r == uplink_frequency((random % 8) as int),
            is_uplink_frequency(r),
    {
        let channel: u8 = random & 0b111;
        assert(random & 0b111 == random % 8) by (bit_vector);
        self.last_tx = channel;
        let f: u32 = 470_300_000 + channel as u32 * 200_000;
        assert(f == uplink_frequency(channel as int));
        f
    }

    /// Frequency for a join request: bits 0..2 of `random` pick the channel.
    pub fn get_join_frequency(&mut self, random: u8) -> (r: u32)
        requires
            old(self).wf(),
        ensures
            final(self).wf(),
            final(self).last_channel() == random % 8,
            r == uplink_frequency((random % 8) as int),
            is_uplink_frequency(r),
    {
        self.select_channel(random)
    }

    /// Frequency for a data uplink, chosen as for a join request.
    pub fn get_data_frequency(&mut self, random: u8) -> (r: u32)
        requires
            old(self).wf(),
        ensures
            final(self).wf(),
            final(self).last_channel() == random % 8,
            r == uplink_frequency((random % 8) as int),
            is_uplink_frequency(r),
    {
        self.select_channel(random)
    }

    /// RX1 frequency: downlink channel `last / 2`.
    pub fn get_join_accept_frequency1(&self) -> (r: u32)
        requires
            self.wf(),
        ensures
            r == downlink_frequency(self.last_channel() as int / 2),
    {
        500_300_000 + (self.last_tx / 2) as u32 * 200_000
    }

    /// RX1 frequency: downlink channel `last / 2`.
    pub fn get_rxwindow1_frequency(&self) -> (r: u32)
        requires
            self.wf(),
        ensures
            r == downlink_frequency(self.last_channel() as int / 2),
    {
        500_300_000 + (self.last_tx / 2) as u32 * 200_000
    }

    /// Channel masks are not applied: the call changes nothing.
    pub fn set_channel_mask(&mut self, _channel_mask: ChannelMask)
        ensures
            *final(self) == *old(self),
    {
    }

    /// RX2 frequency: fixed for the region.
    pub fn get_rxwindow2_frequency(&self) -> (r: u32)
        ensures
            r == RX2_FREQUENCY,
    {
        RX2_FREQUENCY
    }

    pub fn get_join_accept_delay1(&self) -> (r: u32)
        ensures
            r == JOIN_ACCEPT_DELAY1,
    {
        JOIN_ACCEPT_DELAY1
    }

    pub fn get_join_accept_delay2(&self) -> (r: u32)
        ensures
            r == JOIN_ACCEPT_DELAY2,
    {
        JOIN_ACCEPT_DELAY2
    }

    pub fn get_receive_delay1(&self) -> (r: u32)
        ensures
            r == RECEIVE_DELAY1,
    {
        RECEIVE_DELAY1
    }

    pub fn get_receive_delay2(&self) -> (r: u32)
        ensures
            r == RECEIVE_DELAY2,
    {
        RECEIVE_DELAY2
    }
}

} // verus!
