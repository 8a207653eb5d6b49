use vstd::prelude::*;

pub mod cn470;
pub mod eu868;
pub mod us915;

pub use cn470::CN470;
pub use eu868::EU868;
pub use us915::US915;
use lorawan_encoding::maccommands::ChannelMask;

verus! {

/// lorawan_encoding's ChannelMask, carried opaquely: no region applies it.
#[verifier::external_type_specification]
#[verifier::external_body]
pub struct ExChannelMask(ChannelMask);

/// What a region took from a join-accept.
#[derive(Debug, Clone, Copy)]
pub struct JoinAccept {
    pub cflist: Option<[u32; 5]>,
}

} // verus!

verus! {

/// The supported regions.
#[derive(Debug, Clone, Copy, PartialEq, Eq, Structural)]
pub enum Region {
    US915,
    CN470,
    EU868,
}

/// The state of the region in use.
#[derive(Debug)]
pub enum State {
    US915(US915),
    CN470(CN470),
    EU868(EU868),
}

impl State {
    pub open spec fn wf(&self) -> bool {
        match self {
            State::US915(s) => s.wf(),
            State::CN470(s) => s.wf(),
            State::EU868(s) => s.wf(),
        }
    }

    pub open spec fn region(&self) -> Region {
        match self {
            State::US915(_) => Region::US915,
            State::CN470(_) => Region::CN470,
            State::EU868(_) => Region::EU868,
        }
    }

    pub fn new(region: Region) -> (r: State)
        ensures
            r.wf(),
            r.region() == region,
            r matches State::US915(s) ==> s.pinned_subband() == None::<u8>,
    {
        match region {
            Region::US915 => State::US915(US915::new()),
            Region::CN470 => State::CN470(CN470::new()),
            Region::EU868 => State::EU868(EU868::new()),
        }
    }
}

/// Whether `f` is an uplink frequency of the region in `state`: one of the
/// 64 US915 or 96 CN470 uplink channels, or one of the three EU868 join channels.
pub open spec fn is_join_frequency(state: State, f: u32) -> bool {
    match state {
        State::US915(_) => us915::is_uplink_frequency(f),
        State::CN470(_) => cn470::is_uplink_frequency(f),
        State::EU868(_) => eu868::is_join_frequency(f),
    }
}

/// The regional parameters of a device: a façade that dispatches to the region in use.
#[derive(Debug)]
pub struct Configuration {
    state: State,
}

impl Configuration {
    pub closed spec fn state(&self) -> State {
        self.state
    }

    pub open spec fn wf(&self) -> bool {
        self.state().wf()
    }

    pub open spec fn region(&self) -> Region {
        self.state().region()
    }

    pub fn new(region: Region) -> (r: Configuration)
        ensures
            r.wf(),
            r.region() == region,
            r.state() matches State::US915(s) ==> s.pinned_subband() == None::<u8>,
    {
        Configuration { state: State::new(region) }
    }

    /// Takes the CFList of a join-accept; only EU868 keeps it.
    pub fn process_join_accept(&mut self, cf_list: Option<[u32; 5]>) -> (r: JoinAccept)
        requires
            old(self).wf(),
        ensures
            final(self).wf(),
            final(self).region() == old(self).region(),
            r.cflist == (if old(self).region() == Region::EU868 {
                cf_list
            } else {
                None
            }),
            old(self).region() != Region::EU868 ==> final(self).state() == old(self).state(),
            took_join_accept(old(self).state(), final(self).state(), cf_list),
            match (old(self).state(), final(self).state()) {
                (State::EU868(a), State::EU868(b)) => b.cf_list() == (match cf_list {
                    Some(l) => Some(l),
                    None => a.cf_list(),
                }) && b.last_channel() == a.last_channel(),
                _ => true,
            },
    {
        match &mut self.state {
            State::US915(_) => JoinAccept { cflist: None },
            State::CN470(_) => JoinAccept { cflist: None },
            State::EU868(s) => s.process_join_accept(cf_list),
        }
    }

    /// MAC channel masks are not applied by any region: the call changes nothing.
    pub fn set_channel_mask(&mut self, channel_mask: ChannelMask)
        ensures
            *final(self) == *old(self),
    {
        match &mut self.state {
            State::US915(s) => s.set_channel_mask(channel_mask),
            State::CN470(s) => s.set_channel_mask(channel_mask),
            State::EU868(s) => s.set_channel_mask(channel_mask),
        }
    }

    /// Pins the sub-band; only US915 uses it, and takes 1 to 8.
    pub fn set_subband(&mut self, subband: u8)
        requires
            old(self).wf(),
            old(self).region() == Region::US915 ==> 1 <= subband <= 8,
        ensures
            final(self).wf(),
            final(self).region() == old(self).region(),
            final(self).state() matches State::US915(s) ==> s.pinned_subband() == Some(subband),
            final(self).state() matches State::US915(s) ==> s.last_channel() == (match old(self).state() {
                State::US915(a) => a.last_channel(),
                _ => s.last_channel(),
            }),
            old(self).region() == Region::CN470 ==> final(self).state() == old(self).state(),
    {
        match &mut self.state {
            State::US915(s) => s.set_subband(subband),
            State::CN470(s) => s.set_subband(subband),
            State::EU868(s) => s.set_subband(subband),
        }
    }

    /// Frequency for a join request, picked by the region from a random byte.
    pub fn get_join_frequency(&mut self, random: u8) -> (r: u32)
        requires
            old(self).wf(),
        ensures
            final(self).wf(),
            final(self).region() == old(self).region(),
            is_join_frequency(old(self).state(), r),
            r == join_frequency_of(old(self).state(), random),
            match (old(self).state(), final(self).state()) {
                (State::US915(a), State::US915(b)) => {
                    &&& b.pinned_subband() == a.pinned_subband()
                    &&& b.last_channel() == (
                        us915::pick_subband(a.pinned_subband(), random) as u8,
                        random % 8,
                    )
                    &&& r == us915::uplink_frequency(
                        us915::pick_subband(a.pinned_subband(), random),
                        (random % 8) as int,
                    )
                },
                (State::CN470(a), State::CN470(b)) => {
                    &&& b.last_channel() == random % 8
                    &&& r == cn470::uplink_frequency((random % 8) as int)
                },
                (State::EU868(a), State::EU868(b)) => {
                    &&& b.last_channel() == random % 3
                    &&& b.cf_list() == a.cf_list()
                    &&& r == eu868::join_frequency((random % 3) as int)
                },
                _ => false,
            },
    {
        match &mut self.state {
            State::US915(s) => s.get_join_frequency(random),
            State::CN470(s) => s.get_join_frequency(random),
            State::EU868(s) => s.get_join_frequency(random),
        }
    }

    /// Frequency for a data uplink, picked by the region from a random byte.
    pub fn get_data_frequency(&mut self, random: u8) -> (r: u32)
        requires
            old(self).wf(),
        ensures
            final(self).wf(),
            final(self).region() == old(self).region(),
            r == data_frequency_of(old(self).state(), random),
            match (old(self).state(), final(self).state()) {
                (State::US915(a), State::US915(b)) => {
                    &&& b.pinned_subband() == a.pinned_subband()
                    &&& b.last_channel() == (
                        us915::pick_subband(a.pinned_subband(), random) as u8,
                        random % 8,
                    )
                    &&& r == us915::uplink_frequency(
                        us915::pick_subband(a.pinned_subband(), random),
                        (random % 8) as int,
                    )
                },
                (State::CN470(a), State::CN470(b)) => {
                    &&& b.last_channel() == random % 8
                    &&& r == cn470::uplink_frequency((random % 8) as int)
                },
                (State::EU868(a), State::EU868(b)) => {
                    &&& b.cf_list() == a.cf_list()
                    &&& r == b.last_frequency()
                },
                _ => false,
            },
    {
        match &mut self.state {
            State::US915(s) => s.get_data_frequency(random),
            State::CN470(s) => s.get_data_frequency(random),
            State::EU868(s) => s.get_data_frequency(random),
        }
    }

    /// RX1 frequency after a join request.
    pub fn get_join_accept_frequency1(&self) -> (r: u32)
        requires
            self.wf(),
        ensures
            r == rx1_frequency(self.state()),
    {
        match &self.state {
            State::US915(s) => s.get_join_accept_frequency1(),
            State::CN470(s) => s.get_join_accept_frequency1(),
            State::EU868(s) => s.get_join_accept_frequency1(),
        }
    }

    /// RX1 frequency after a data uplink.
    pub fn get_rxwindow1_frequency(&self) -> (r: u32)
        requires
            self.wf(),
        ensures
            r == rx1_frequency(self.state()),
    {
        match &self.state {
            State::US915(s) => s.get_rxwindow1_frequency(),
            State::CN470(s) => s.get_rxwindow1_frequency(),
            State::EU868(s) => s.get_rxwindow1_frequency(),
        }
    }

    /// RX2 frequency: fixed for the region.
    pub fn get_rxwindow2_frequency(&self) -> (r: u32)
        ensures
            r == rx2_frequency(self.state()),
    {
        match &self.state {
            State::US915(s) => s.get_rxwindow2_frequency(),
            State::CN470(s) => s.get_rxwindow2_frequency(),
            State::EU868(s) => s.get_rxwindow2_frequency(),
        }
    }

    pub fn get_join_accept_delay1(&self) -> (r: u32)
        ensures
            r == us915::JOIN_ACCEPT_DELAY1,
    {
        match &self.state {
            State::US915(s) => s.get_join_accept_delay1(),
            State::CN470(s) => s.get_join_accept_delay1(),
            State::EU868(s) => s.get_join_accept_delay1(),
        }
    }

    pub fn get_join_accept_delay2(&self) -> (r: u32)
        ensures
            r == us915::JOIN_ACCEPT_DELAY2,
    {
        match &self.state {
            State::US915(s) => s.get_join_accept_delay2(),
            State::CN470(s) => s.get_join_accept_delay2(),
            State::EU868(s) => s.get_join_accept_delay2(),
        }
    }

    pub fn get_receive_delay1(&self) -> (r: u32)
        ensures
            r == us915::RECEIVE_DELAY1,
    {
        match &self.state {
            State::US915(s) => s.get_receive_delay1(),
            State::CN470(s) => s.get_receive_delay1(),
            State::EU868(s) => s.get_receive_delay1(),
        }
    }

    pub fn get_receive_delay2(&self) -> (r: u32)
        ensures
            r == us915::RECEIVE_DELAY2,
    {
        match &self.state {
            State::US915(s) => s.get_receive_delay2(),
            State::CN470(s) => s.get_receive_delay2(),
            State::EU868(s) => s.get_receive_delay2(),
        }
    }
}

/// The frequency that a join-request takes in `state` for a random byte.
pub open spec fn join_frequency_of(state: State, random: u8) -> int {
    match state {
        State::US915(s) => us915::uplink_frequency(
            us915::pick_subband(s.pinned_subband(), random),
            (random % 8) as int,
        ),
        State::CN470(_) => cn470::uplink_frequency((random % 8) as int),
        State::EU868(_) => eu868::join_frequency((random % 3) as int) as int,
    }
}

/// The frequency that a data uplink takes in `state` for a random byte.
pub open spec fn data_frequency_of(state: State, random: u8) -> int {
    match state {
        State::US915(s) => us915::uplink_frequency(
            us915::pick_subband(s.pinned_subband(), random),
            (random % 8) as int,
        ),
        State::CN470(_) => cn470::uplink_frequency((random % 8) as int),
        State::EU868(s) => match s.cf_list() {
            Some(l) => eu868::data_channel_frequency(l, (random % 8) as int) as int,
            None => eu868::join_frequency((random % 3) as int) as int,
        },
    }
}

/// `after` is `before` once it took a join-accept with CFList `cf_list`: EU868
/// keeps the CFList for its data channels; the other regions do not change.
pub open spec fn took_join_accept(before: State, after: State, cf_list: Option<[u32; 5]>) -> bool {
    match (before, after) {
        (State::EU868(a), State::EU868(b)) => {
            &&& b.cf_list() == (match cf_list {
                Some(l) => Some(l),
                None => a.cf_list(),
            })
            &&& b.last_channel() == a.last_channel()
            &&& b.subband() == a.subband()
        },
        _ => after == before,
    }
}

/// The fixed RX2 frequency of the region in `state`.
pub open spec fn rx2_frequency(state: State) -> u32 {
    match state {
        State::US915(_) => us915::RX2_FREQUENCY,
        State::CN470(_) => cn470::RX2_FREQUENCY,
        State::EU868(_) => eu868::RX2_FREQUENCY,
    }
}

/// The RX1 frequency that mirrors the last uplink in `state`.
pub open spec fn rx1_frequency(state: State) -> int {
    match state {
        State::US915(s) => us915::downlink_frequency(s.last_channel().1 as int) as int,
        State::CN470(s) => cn470::downlink_frequency(s.last_channel() as int / 2),
        State::EU868(s) => s.last_frequency() as int,
    }
}

} // verus!
