use vstd::prelude::*;
use core::marker::PhantomData;
use lorawan_encoding::keys::CryptoFactory;
use crate::radio::{self, PhyRxTx};
use crate::region;
use crate::types::{Credentials, SessionData};
use crate::Timings;

pub mod no_session;
pub mod session;

verus! {

/// A received downlink, kept until the application takes it.
#[derive(Debug)]
pub enum Downlink {
    /// A decrypted data frame.
    Data(Vec<u8>),
}

/// Which of the two receive windows is being handled, with the time at which it opens.
#[derive(Debug, Clone, Copy, PartialEq, Eq, Structural)]
pub enum RxWindow {
    _1(u32),
    _2(u32),
}

/// Where the engine stands.
#[derive(Debug, Clone, Copy, PartialEq, Eq, Structural)]
pub enum Phase {
    JoinIdle,
    SendingJoin,
    JoinRxWindow,
    WaitingForJoinResponse,
    SessionIdle,
    SendingData,
    RxWindow,
    WaitingForRx,
}

/// The model of an engine state, without the driver and the random source.
pub struct DeviceView {
    pub phase: Phase,
    pub radio: radio::State,
    pub credentials: Credentials,
    pub region: region::State,
    pub buffer: Seq<u8>,
    pub downlink: Option<Seq<u8>>,
    pub join_attempts: nat,
    pub devnonce: [u8; 2],
    pub session: Option<SessionData>,
    pub confirmed: bool,
    pub window: RxWindow,
    /// The configuration of the last transmission handed to the radio.
    pub tx_config: Option<radio::TxConfig>,
    /// The configuration of the last reception handed to the radio.
    pub rx_config: Option<radio::RfConfig>,
}

/// The transmission settings of every uplink: +20 dBm, 125 kHz, SF10, 4/5.
pub open spec fn uplink_config(frequency: u32) -> radio::TxConfig {
    radio::TxConfig {
        pw: 20,
        rf: radio::RfConfig {
            frequency,
            bandwidth: radio::Bandwidth::_125KHZ,
            spreading_factor: radio::SpreadingFactor::_10,
            coding_rate: radio::CodingRate::_4_5,
        },
    }
}

/// The reception settings of every receive window: 500 kHz, SF10, 4/5.
pub open spec fn downlink_config(frequency: u32) -> radio::RfConfig {
    radio::RfConfig {
        frequency,
        bandwidth: radio::Bandwidth::_500KHZ,
        spreading_factor: radio::SpreadingFactor::_10,
        coding_rate: radio::CodingRate::_4_5,
    }
}

pub fn uplink_tx_config(frequency: u32) -> (r: radio::TxConfig)
    ensures
        r == uplink_config(frequency),
{
    radio::TxConfig {
        pw: 20,
        rf: radio::RfConfig {
            frequency,
            bandwidth: radio::Bandwidth::_125KHZ,
            spreading_factor: radio::SpreadingFactor::_10,
            coding_rate: radio::CodingRate::_4_5,
        },
    }
}

pub fn downlink_rx_config(frequency: u32) -> (r: radio::RfConfig)
    ensures
        r == downlink_config(frequency),
{
    radio::RfConfig {
        frequency,
        bandwidth: radio::Bandwidth::_500KHZ,
        spreading_factor: radio::SpreadingFactor::_10,
        coding_rate: radio::CodingRate::_4_5,
    }
}

/// The context that every state owns while it is active: the driver, the
/// credentials, the region, the random source, the scratch buffer and the
/// downlink slot.
pub struct Shared<R: PhyRxTx + Timings, C, G: Fn() -> u32> {
    pub(crate) radio: R,
    pub(crate) radio_state: radio::StateWrapper,
    pub(crate) credentials: Credentials,
    pub(crate) region: region::Configuration,
    pub(crate) get_random: G,
    pub(crate) buffer: Vec<u8>,
    pub(crate) downlink: Option<Downlink>,
    pub(crate) crypto: PhantomData<C>,
}

pub open spec fn downlink_view(d: Option<Downlink>) -> Option<Seq<u8>> {
    match d {
        Some(Downlink::Data(v)) => Some(v@),
        None => None,
    }
}

/// The FPort and FRMPayload of a decrypted data frame, if it carries a payload.
pub open spec fn frm_payload(d: Seq<u8>) -> Option<(u8, Seq<u8>)> {
    let h = 7 + d[5] % 16;
    if d.len() < h + 6 {
        None
    } else {
        Some((d[1 + h], d.subrange(2 + h, d.len() - 4)))
    }
}

/// The FOpts of a data frame: the MAC commands that ride in its header.
pub open spec fn fopts(d: Seq<u8>) -> Seq<u8> {
    d.subrange(8, 8 + d[5] % 16)
}

/// The application payload (`app`, FPort 1 and up) or the MAC commands of the
/// kept downlink: those in FOpts if there are any, else an FPort 0 payload.
pub open spec fn downlink_part(d: Option<Seq<u8>>, app: bool) -> Option<Seq<u8>> {
    match d {
        Some(f) => if !app && f[5] % 16 > 0 {
            Some(fopts(f))
        } else {
            match frm_payload(f) {
                Some((p, pl)) => if (p != 0) == app {
                    Some(pl)
                } else {
                    None
                },
                None => None,
            }
        },
        None => None,
    }
}

pub(crate) fn copy_range(d: &Vec<u8>, start: usize, end: usize) -> (r: Vec<u8>)
    requires
        start <= end <= d@.len(),
    ensures
        r@ == d@.subrange(start as int, end as int),
{
    let mut r: Vec<u8> = Vec::new();
    let mut i: usize = start;
    while i < end
        invariant
            start <= i <= end <= d@.len(),
            r@ == d@.subrange(start as int, i as int),
        decreases end - i,
    {
        r.push(d[i]);
        i = i + 1;
        assert(r@ =~= d@.subrange(start as int, i as int));
    }
    r
}

impl<R: PhyRxTx + Timings, C, G: Fn() -> u32> Shared<R, C, G> {
    /// Takes the application payload (`app`) or the MAC commands out of the
    /// downlink slot, if that is what it holds; otherwise leaves the slot as it is.
    pub fn take_part(&mut self, app: bool) -> (r: Option<Vec<u8>>)
        requires
            old(self).wf(),
        ensures
            final(self).wf(),
            match r {
                Some(v) => downlink_part(old(self).spec_downlink(), app) == Some(v@)
                    && final(self).spec_downlink() == None::<Seq<u8>>,
                None => downlink_part(old(self).spec_downlink(), app) == None::<Seq<u8>>
                    && final(self).spec_downlink() == old(self).spec_downlink(),
            },
            final(self).radio_state() == old(self).radio_state(),
            final(self).spec_tx_config() == old(self).spec_tx_config(),
            final(self).spec_rx_config() == old(self).spec_rx_config(),
            final(self).spec_credentials() == old(self).spec_credentials(),
            final(self).spec_region() == old(self).spec_region(),
            final(self).spec_buffer() == old(self).spec_buffer(),
    {
        let part = match &self.downlink {
            Some(Downlink::Data(d)) => {
                let h: usize = 7 + (d[5] % 16) as usize;
                if !app && d[5] % 16 > 0 {
                    Some(copy_range(d, 8, h + 1))
                } else if d.len() < h + 6 {
                    None
                } else if (d[1 + h] != 0) == app {
                    Some(copy_range(d, 2 + h, d.len() - 4))
                } else {
                    None
                }
            },
            None => None,
        };
        if part.is_some() {
            self.downlink = None;
        }
        part
    }

    pub closed spec fn wf(&self) -> bool {
        &&& self.region.wf()
        &&& self.buffer@.len() <= 256
        &&& forall|u: ()| self.get_random.requires(u)
        &&& match self.spec_downlink() {
            Some(d) => crate::codec::is_data_frame(d) && crate::codec::has_frame_room(d),
            None => true,
        }
    }

    pub proof fn lemma_wf(&self)
        requires
            self.wf(),
        ensures
            self.spec_buffer().len() <= 256,
            self.spec_region().wf(),
    {
    }

    pub closed spec fn radio_state(&self) -> radio::State {
        self.radio_state.state()
    }

    pub closed spec fn spec_tx_config(&self) -> Option<radio::TxConfig> {
        self.radio_state.tx_config()
    }

    pub closed spec fn spec_rx_config(&self) -> Option<radio::RfConfig> {
        self.radio_state.rx_config()
    }

    pub closed spec fn spec_credentials(&self) -> Credentials {
        self.credentials
    }

    pub closed spec fn spec_region(&self) -> region::State {
        self.region.state()
    }

    pub closed spec fn spec_buffer(&self) -> Seq<u8> {
        self.buffer@
    }

    pub closed spec fn spec_downlink(&self) -> Option<Seq<u8>> {
        downlink_view(self.downlink)
    }

    /// The model of the engine in `phase` with this context.
    pub open spec fn view_with(
        &self,
        phase: Phase,
        join_attempts: nat,
        devnonce: [u8; 2],
        session: Option<SessionData>,
        confirmed: bool,
        window: RxWindow,
    ) -> DeviceView {
        DeviceView {
            phase,
            radio: self.radio_state(),
            credentials: self.spec_credentials(),
            region: self.spec_region(),
            buffer: self.spec_buffer(),
            downlink: self.spec_downlink(),
            join_attempts,
            devnonce,
            session,
            confirmed,
            window,
            tx_config: self.spec_tx_config(),
            rx_config: self.spec_rx_config(),
        }
    }

    /// A fresh context: radio idle, buffer and downlink slot empty.
    pub fn new(
        radio: R,
        credentials: Credentials,
        region: region::Configuration,
        get_random: G,
    ) -> (r: Shared<R, C, G>)
        requires
            region.wf(),
            forall|u: ()| get_random.requires(u),
        ensures
            r.wf(),
            r.radio_state() == radio::State::Idle,
            r.spec_tx_config() == None::<radio::TxConfig>,
            r.spec_rx_config() == None::<radio::RfConfig>,
            r.spec_credentials() == credentials,
            r.spec_region() == region.state(),
            r.spec_buffer() == Seq::<u8>::empty(),
            r.spec_downlink() == None::<Seq<u8>>,
    {
        Shared {
            radio,
            radio_state: radio::StateWrapper::default(),
            credentials,
            region,
            get_random,
            buffer: Vec::new(),
            downlink: None,
            crypto: PhantomData,
        }
    }

    pub fn get_mut_radio(&mut self) -> &mut R {
        &mut self.radio
    }

    pub fn get_mut_credentials(&mut self) -> (r: &mut Credentials)
        ensures
            *r == old(self).spec_credentials(),
    {
        &mut self.credentials
    }

    /// Takes the data downlink out of its slot.
    pub fn take_data_downlink(&mut self) -> (r: Option<Vec<u8>>)
        ensures
            final(self).spec_downlink() == None::<Seq<u8>>,
            match r {
                Some(v) => old(self).spec_downlink() == Some(v@),
                None => old(self).spec_downlink() == None::<Seq<u8>>,
            },
            old(self).wf() ==> final(self).wf(),
            final(self).radio_state() == old(self).radio_state(),
            final(self).spec_credentials() == old(self).spec_credentials(),
            final(self).spec_region() == old(self).spec_region(),
            final(self).spec_buffer() == old(self).spec_buffer(),
    {
        let taken = self.downlink.take();
        match taken {
            Some(Downlink::Data(d)) => Some(d),
            None => None,
        }
    }
}

} // verus!
