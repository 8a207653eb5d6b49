use vstd::prelude::*;
use lorawan_encoding::maccommands::ChannelMask;
use super::us915::{JOIN_ACCEPT_DELAY1, JOIN_ACCEPT_DELAY2, RECEIVE_DELAY1, RECEIVE_DELAY2};
use super::JoinAccept;

verus! {

/// The fixed frequency of the second receive window.
pub const RX2_FREQUENCY: u32 = 869_525_000;

/// The three EU868 join channels.
pub open spec fn join_frequency(i: int) -> u32 {
    if i == 0 {
        868_100_000
    } else if i == 1 {
        868_300_000
    } else {
        868_500_000
    }
}

pub open spec fn is_join_frequency(f: u32) -> bool {
    f == 868_100_000 || f == 868_300_000 || f == 868_500_000
}

/// Frequency of data channel `channel` (0 to 7): the three join channels,
/// then the five channels of the CFList.
pub open spec fn data_channel_frequency(cf_list: [u32; 5], channel: int) -> u32 {
    if channel < 3 {
        join_frequency(channel)
    } else {
        cf_list@[channel - 3]
    }
}

/// EU868 regional state: the optional sub-band (unused by this region), the
/// data channel (0 to 7) of the last transmission and the CFList of the join-accept.
#[derive(Debug)]
pub struct EU868 {
    subband: Option<u8>,
    last_tx: u8,
    cf_list: Option<[u32; 5]>,
}

impl EU868 {
    pub closed spec fn wf(&self) -> bool {
        &&& self.last_tx < 8
        &&& (self.cf_list.is_none() ==> self.last_tx < 3)
    }

    pub closed spec fn last_channel(&self) -> u8 {
        self.last_tx
    }

    pub closed spec fn cf_list(&self) -> Option<[u32; 5]> {
        self.cf_list
    }

    pub closed spec fn subband(&self) -> Option<u8> {
        self.subband
    }

    /// The frequency of the last transmission.
    pub open spec fn last_frequency(&self) -> u32 {
        match self.cf_list() {
            Some(l) => data_channel_frequency(l, self.last_channel() as int),
            None => join_frequency(self.last_channel() as int),
        }
    }

    pub fn new() -> (r: EU868)
        ensures
            r.wf(),
            r.last_channel() == 0,
            r.cf_list() == None::<[u32; 5]>,
            r.subband() == None::<u8>,
    {
        EU868 { subband: None, last_tx: 0, cf_list: None }
    }

    /// Takes the CFList of a join-accept for the data channels 3 to 7.
    pub fn process_join_accept(&mut self, cf_list: Option<[u32; 5]>) -> (r: JoinAccept)
        requires
            old(self).wf(),
        ensures
            final(self).wf(),
            final(self).cf_list() == (match cf_list {
                Some(l) => Some(l),
                None => old(self).cf_list(),
            }),
            final(self).last_channel() == old(self).last_channel(),
            final(self).subband() == old(self).subband(),
            r.cflist == cf_list,
    {
        if let Some(l) = cf_list {
            self.cf_list = Some(l);
        }
        JoinAccept { cflist: cf_list }
    }

    pub fn set_subband(&mut self, subband: u8)
        requires
            old(self).wf(),
        ensures
            final(self).wf(),
            final(self).subband() == Some(subband),
            final(self).cf_list() == old(self).cf_list(),
            final(self).last_channel() == old(self).last_channel(),
    {
        self.subband = Some(subband);
    }

    fn join_channel(i: u8) -> (r: u32)
        requires
            i < 3,
        ensures
            r == join_frequency(i as int),
    {
        if i == 0 {
            868_100_000
        } else if i == 1 {
            868_300_000
        } else {
            868_500_000
        }
    }

    /// Frequency for a join request: join channel `random % 3`.
    pub fn get_join_frequency(&mut self, random: u8) -> (r: u32)
        requires
            old(self).wf(),
        ensures
            final(self).wf(),
            final(self).last_channel() == random % 3,
            final(self).cf_list() == old(self).cf_list(),
            final(self).subband() == old(self).subband(),
            r == join_frequency((random % 3) as int),
            is_join_frequency(r),
    {
        let channel: u8 = random % 3;
        self.last_tx = channel;
        Self::join_channel(channel)
    }

    /// Frequency for a data uplink: with a CFList, data channel `random % 8`;
    /// without one, join channel `random % 3`.
    pub fn get_data_frequency(&mut self, random: u8) -> (r: u32)
        requires
            old(self).wf(),
        ensures
            final(self).wf(),
            final(self).cf_list() == old(self).cf_list(),
            final(self).subband() == old(self).subband(),
            final(self).last_channel() == (if old(self).cf_list().is_some() {
                random % 8
            } else {
                random % 3
            }),
            r == final(self).last_frequency(),
    {
        match self.cf_list {
            Some(l) => {
                let channel: u8 = random & 0b111;
                assert(random & 0b111 == random % 8) by (bit_vector);
                self.last_tx = channel;
                if channel < 3 {
                    Self::join_channel(channel)
                } else {
                    l[(channel - 3) as usize]
                }
            },
            None => {
                let channel: u8 = random % 3;
                self.last_tx = channel;
                Self::join_channel(channel)
            },
        }
    }

    fn last_tx_frequency(&self) -> (r: u32)
        requires
            self.wf(),
        ensures
            r == self.last_frequency(),
    {
        match self.cf_list {
            Some(l) => {
                if self.last_tx < 3 {
                    Self::join_channel(self.last_tx)
                } else {
                    l[(self.last_tx - 3) as usize]
                }
            },
            None => Self::join_channel(self.last_tx),
        }
    }

    /// RX1 frequency after a join request: the frequency of the last uplink.
    pub fn get_join_accept_frequency1(&self) -> (r: u32)
        requires
            self.wf(),
        ensures
            r == self.last_frequency(),
    {
        self.last_tx_frequency()
    }

    /// RX1 frequency after a data uplink: the frequency of the last uplink.
    pub fn get_rxwindow1_frequency(&self) -> (r: u32)
        requires
            self.wf(),
        ensures
            r == self.last_frequency(),
    {
        self.last_tx_frequency()
    }

    /// Channel masks are not applied: the call changes nothing.
    pub fn set_channel_mask(&mut self, _channel_mask: ChannelMask)
        ensures
            *final(self) == *old(self),
    {
    }

    /// RX2 frequency: fixed for the region.
    pub fn get_rxwindow2_frequency(&self) -> (r: u32)
        ensures
            r == RX2_FREQUENCY,
    {
        RX2_FREQUENCY
    }

    pub fn get_join_accept_delay1(&self) -> (r: u32)
        ensures
            r == JOIN_ACCEPT_DELAY1,
    {
        JOIN_ACCEPT_DELAY1
    }

    pub fn get_join_accept_delay2(&self) -> (r: u32)
        ensures
            r == JOIN_ACCEPT_DELAY2,
    {
        JOIN_ACCEPT_DELAY2
    }

    pub fn get_receive_delay1(&self) -> (r: u32)
        ensures
            r == RECEIVE_DELAY1,
    {
        RECEIVE_DELAY1
    }

    pub fn get_receive_delay2(&self) -> (r: u32)
        ensures
            r == RECEIVE_DELAY2,
    {
        RECEIVE_DELAY2
    }
}

} // verus!
