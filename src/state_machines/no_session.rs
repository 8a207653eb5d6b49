use vstd::prelude::*;
use lorawan_encoding::keys::CryptoFactory;
use crate::codec;
use crate::radio::{self, PhyRxTx};
use crate::region;
use crate::types::{Credentials, SessionData};
use crate::{Device, Event, Response, State as SuperState, Timings};
use super::{downlink_config, downlink_rx_config, uplink_config, uplink_tx_config, downlink_part, session, DeviceView, Phase, RxWindow, Shared};

verus! {

#[derive(Debug, Clone, Copy, PartialEq, Eq, Structural)]
pub enum Error {
    /// The event cannot be handled in the current state; nothing changed.
    UnexpectedEvent,
}

/// The joining half of the engine.
pub enum NoSession<R: PhyRxTx + Timings, C, G: Fn() -> u32> {
    Idle(Idle<R, C, G>),
    SendingJoin(SendingJoin<R, C, G>),
    WaitingForRxWindow(WaitingForRxWindow<R, C, G>),
    WaitingForJoinResponse(WaitingForJoinResponse<R, C, G>),
}

pub struct Idle<R: PhyRxTx + Timings, C, G: Fn() -> u32> {
    pub(crate) shared: Shared<R, C, G>,
    pub(crate) join_attempts: usize,
}

pub struct SendingJoin<R: PhyRxTx + Timings, C, G: Fn() -> u32> {
    pub(crate) shared: Shared<R, C, G>,
    pub(crate) join_attempts: usize,
    pub(crate) devnonce: [u8; 2],
}

pub struct WaitingForRxWindow<R: PhyRxTx + Timings, C, G: Fn() -> u32> {
    pub(crate) shared: Shared<R, C, G>,
    pub(crate) join_attempts: usize,
    pub(crate) devnonce: [u8; 2],
}

pub struct WaitingForJoinResponse<
    R: PhyRxTx + Timings,
    C,
    G: Fn() -> u32,
> {
    pub(crate) shared: Shared<R, C, G>,
    pub(crate) join_attempts: usize,
    pub(crate) devnonce: [u8; 2],
}

/// The unexpected-event outcome: the state is kept and the error reported.
pub open spec fn refused(before: DeviceView, after: DeviceView, r: Result<Response, crate::Error>) -> bool {
    after == before && r == Err::<Response, crate::Error>(crate::Error::NoSession(Error::UnexpectedEvent))
}

/// A join-request went out: the buffer holds it, signed, with a fresh DevNonce.
/// An asynchronous driver is still transmitting it; a synchronous one is done,
/// and the first join-accept window is scheduled.
pub open spec fn join_sent(before: DeviceView, after: DeviceView, r: Result<Response, crate::Error>) -> bool {
    &&& {
        ||| (after.phase == Phase::SendingJoin && after.radio == radio::State::Txing && r == Ok::<
            Response,
            crate::Error,
        >(Response::Idle))
        ||| exists|ms: u32|
            after.phase == Phase::JoinRxWindow && after.radio == radio::State::Idle && r == Ok::<
                Response,
                crate::Error,
            >(Response::TimeoutRequest(join_window_time(ms)))
    }
    &&& after.credentials == before.credentials
    &&& after.region.region() == before.region.region()
    &&& after.downlink == before.downlink
    &&& after.session.is_none()
    &&& after.join_attempts == (if before.join_attempts < usize::MAX {
        before.join_attempts + 1
    } else {
        before.join_attempts
    })
    &&& after.buffer.len() == 23
    &&& after.buffer.subrange(0, 19) == codec::join_request_header(
        before.credentials.spec_appeui()@,
        before.credentials.spec_deveui()@,
        after.devnonce@,
    )
    &&& after.rx_config == before.rx_config
    // the random word: its low 16 bits are the DevNonce, the next 8 pick the frequency
    &&& exists|random: u32| {
        &&& after.devnonce == [random as u8, (random >> 8) as u8]
        &&& after.tx_config == Some(
            uplink_config(region::join_frequency_of(before.region, (random >> 16) as u8) as u32),
        )
    }
}

/// The absolute time at which the first join-accept window opens.
pub open spec fn join_window_time(tx_done: u32) -> u32 {
    ((tx_done + region::us915::JOIN_ACCEPT_DELAY1) % 0x1_0000_0000) as u32
}

fn join_rx_window_timeout(region: &region::Configuration, timestamp_ms: u32) -> (r: u32)
    ensures
        r == join_window_time(timestamp_ms),
{
    region.get_join_accept_delay1().wrapping_add(timestamp_ms)
}

/// Moves on from what the radio machine answered about the join-request: a
/// completed transmission schedules the first join-accept window; otherwise the
/// request is still being sent and `pending` is the response.
fn settle_join_tx<R: PhyRxTx + Timings, C, G: Fn() -> u32>(
    shared: Shared<R, C, G>,
    join_attempts: usize,
    devnonce: [u8; 2],
    response: Result<radio::Response, radio::Error>,
    pending: Response,
) -> (r: (Device<R, C, G>, Result<Response, crate::Error>))
    requires
        shared.wf(),
        match response {
            Ok(radio::Response::TxComplete(_)) => shared.radio_state() == radio::State::Idle,
            _ => shared.radio_state() == radio::State::Txing,
        },
    ensures
        r.0.wf(),
        match response {
            Ok(radio::Response::TxComplete(ms)) => r.1 == Ok::<Response, crate::Error>(
                Response::TimeoutRequest(join_window_time(ms)),
            ) && r.0@ == shared.view_with(
                Phase::JoinRxWindow,
                join_attempts as nat,
                devnonce,
                None,
                false,
                RxWindow::_1(0),
            ),
            _ => r.1 == Ok::<Response, crate::Error>(pending) && r.0@ == shared.view_with(
                Phase::SendingJoin,
                join_attempts as nat,
                devnonce,
                None,
                false,
                RxWindow::_1(0),
            ),
        },
{
    match response {
        Ok(radio::Response::TxComplete(ms)) => {
            let time = join_rx_window_timeout(&shared.region, ms);
            let next = WaitingForRxWindow { shared, join_attempts, devnonce };
            (next.into_device(), Ok(Response::TimeoutRequest(time)))
        },
        _ => {
            let next = SendingJoin { shared, join_attempts, devnonce };
            (next.into_device(), Ok(pending))
        },
    }
}

impl<R: PhyRxTx + Timings, C, G: Fn() -> u32> NoSession<R, C, G> {
    pub(crate) fn credentials(&self) -> (r: &Credentials)
        ensures
            *r == self.view().credentials,
    {
        match self {
            NoSession::Idle(s) => &s.shared.credentials,
            NoSession::SendingJoin(s) => &s.shared.credentials,
            NoSession::WaitingForRxWindow(s) => &s.shared.credentials,
            NoSession::WaitingForJoinResponse(s) => &s.shared.credentials,
        }
    }

    pub(crate) proof fn lemma_view_wf(&self)
        requires
            self.wf(),
        ensures
            self.view().buffer.len() <= 256,
            self.view().session is None,
            !crate::is_session_phase(self.view().phase),
            self.view().region.wf(),
    {
        match self {
            NoSession::Idle(s) => s.shared.lemma_wf(),
            NoSession::SendingJoin(s) => s.shared.lemma_wf(),
            NoSession::WaitingForRxWindow(s) => s.shared.lemma_wf(),
            NoSession::WaitingForJoinResponse(s) => s.shared.lemma_wf(),
        }
    }

    pub(crate) fn session(&self) -> (r: Option<&SessionData>)
        ensures
            r == match self.view().session { Some(s) => Some(&s), None => None::<&SessionData> },
    {
        match self {
            NoSession::Idle(s) => None,
            NoSession::SendingJoin(s) => None,
            NoSession::WaitingForRxWindow(s) => None,
            NoSession::WaitingForJoinResponse(s) => None,
        }
    }

    /// Takes a part of the kept downlink, as `Shared::take_part` does.
    pub(crate) fn take_part(&mut self, app: bool) -> (r: Option<Vec<u8>>)
        requires
            old(self).wf(),
        ensures
            final(self).wf(),
            match r {
                Some(v) => downlink_part(old(self).view().downlink, app) == Some(v@)
                    && final(self).view() == (DeviceView { downlink: None, ..old(self).view() }),
                None => downlink_part(old(self).view().downlink, app) == None::<Seq<u8>>
                    && final(self).view() == old(self).view(),
            },
    {
        match self {
            NoSession::Idle(s) => s.shared.take_part(app),
            NoSession::SendingJoin(s) => s.shared.take_part(app),
            NoSession::WaitingForRxWindow(s) => s.shared.take_part(app),
            NoSession::WaitingForJoinResponse(s) => s.shared.take_part(app),
        }
    }

    pub closed spec fn view(&self) -> DeviceView {
        match self {
            NoSession::Idle(s) => s.view(),
            NoSession::SendingJoin(s) => s.view(),
            NoSession::WaitingForRxWindow(s) => s.view(),
            NoSession::WaitingForJoinResponse(s) => s.view(),
        }
    }

    pub closed spec fn wf(&self) -> bool {
        match self {
            NoSession::Idle(s) => s.wf(),
            NoSession::SendingJoin(s) => s.wf(),
            NoSession::WaitingForRxWindow(s) => s.wf(),
            NoSession::WaitingForJoinResponse(s) => s.wf(),
        }
    }

    pub fn new(shared: Shared<R, C, G>) -> (r: NoSession<R, C, G>)
        requires
            shared.wf(),
            shared.radio_state() == radio::State::Idle,
        ensures
            r.wf(),
            r.view() == shared.view_with(Phase::JoinIdle, 0, [0u8, 0u8], None, false, RxWindow::_1(0)),
    {
        NoSession::Idle(Idle { shared, join_attempts: 0 })
    }
}

impl<R: PhyRxTx + Timings, C, G: Fn() -> u32> NoSession<R, C, G> {
    pub fn handle_event<'a>(self, event: Event<'a, R>) -> (r: (Device<R, C, G>, Result<Response, crate::Error>))
        where C: CryptoFactory + Default,
        requires
            self.wf(),
        ensures
            r.0.wf(),
            crate::transition(self.view(), event, r.0@, r.1),
    {
        match self {
            NoSession::Idle(state) => state.handle_event(event),
            NoSession::SendingJoin(state) => state.handle_event(event),
            NoSession::WaitingForRxWindow(state) => state.handle_event(event),
            NoSession::WaitingForJoinResponse(state) => state.handle_event(event),
        }
    }
}

impl<R: PhyRxTx + Timings, C, G: Fn() -> u32> Idle<R, C, G> {
    pub closed spec fn view(&self) -> DeviceView {
        self.shared.view_with(
            Phase::JoinIdle,
            self.join_attempts as nat,
            [0u8, 0u8],
            None,
            false,
            RxWindow::_1(0),
        )
    }

    pub closed spec fn wf(&self) -> bool {
        self.shared.wf() && self.shared.radio_state() == radio::State::Idle
    }

    fn into_device(self) -> (r: Device<R, C, G>)
        ensures
            r@ == self.view(),
            r.wf() == self.wf(),
    {
        Device { state: SuperState::NoSession(NoSession::Idle(self)) }
    }

    /// On `NewSession`, or on `Timeout` (a retry after a failed join), sends a join-request.
    pub fn handle_event<'a>(self, event: Event<'a, R>) -> (r: (Device<R, C, G>, Result<Response, crate::Error>))
        where C: CryptoFactory + Default,
        requires
            self.wf(),
        ensures
            r.0.wf(),
            event is NewSession || event is Timeout ==> join_sent(self.view(), r.0@, r.1),
            !(event is NewSession || event is Timeout) ==> refused(self.view(), r.0@, r.1),
    {
        match event {
            Event::NewSession | Event::Timeout => {
                let mut s = self;
                let (random, devnonce, tx_config) = s.create_join_request();
                let response = s.shared.radio_state.handle_event(
                    &mut s.shared.radio,
                    radio::Event::TxRequest(tx_config, s.shared.buffer.as_slice()),
                );
                let join_attempts = if s.join_attempts < usize::MAX {
                    s.join_attempts + 1
                } else {
                    s.join_attempts
                };
                let r = settle_join_tx(s.shared, join_attempts, devnonce, response, Response::Idle);
                assert(devnonce == [random as u8, (random >> 8) as u8]);
                r
            },
            _ => (self.into_device(), Err(crate::Error::NoSession(Error::UnexpectedEvent))),
        }
    }

    /// Fills the buffer with a join-request: the low 16 bits of a random word
    /// are the DevNonce, the next 8 bits pick the frequency. Returns the word,
    /// the DevNonce and the transmission settings.
    fn create_join_request(&mut self) -> (r: (u32, [u8; 2], radio::TxConfig))
        where C: CryptoFactory + Default,
        requires
            old(self).wf(),
        ensures
            final(self).shared.wf(),
            final(self).join_attempts == old(self).join_attempts,
            final(self).shared.radio_state() == old(self).shared.radio_state(),
            final(self).shared.spec_tx_config() == old(self).shared.spec_tx_config(),
            final(self).shared.spec_rx_config() == old(self).shared.spec_rx_config(),
            final(self).shared.spec_credentials() == old(self).shared.spec_credentials(),
            final(self).shared.spec_region().region() == old(self).shared.spec_region().region(),
            final(self).shared.spec_downlink() == old(self).shared.spec_downlink(),
            final(self).shared.spec_buffer().len() == 23,
            final(self).shared.spec_buffer().subrange(0, 19) == codec::join_request_header(
                old(self).shared.spec_credentials().spec_appeui()@,
                old(self).shared.spec_credentials().spec_deveui()@,
                r.1@,
            ),
            r.1 == [r.0 as u8, (r.0 >> 8) as u8],
            r.2 == uplink_config(
                region::join_frequency_of(old(self).shared.spec_region(), (r.0 >> 16) as u8) as u32,
            ),
    {
        let random = (self.shared.get_random)();
        let devnonce: [u8; 2] = [random as u8, (random >> 8) as u8];
        let creds = &self.shared.credentials;
        let request = codec::build_join_request::<C>(
            creds.appeui(),
            creds.deveui(),
            &devnonce,
            creds.appkey(),
        );
        self.shared.buffer = request;
        let frequency = self.shared.region.get_join_frequency((random >> 16) as u8);
        (random, devnonce, uplink_tx_config(frequency))
    }
}

impl<R: PhyRxTx + Timings, C, G: Fn() -> u32> SendingJoin<R, C, G> {
    pub closed spec fn view(&self) -> DeviceView {
        self.shared.view_with(
            Phase::SendingJoin,
            self.join_attempts as nat,
            self.devnonce,
            None,
            false,
            RxWindow::_1(0),
        )
    }

    pub closed spec fn wf(&self) -> bool {
        self.shared.wf() && self.shared.radio_state() == radio::State::Txing
    }

    fn into_device(self) -> (r: Device<R, C, G>)
        ensures
            r@ == self.view(),
            r.wf() == self.wf(),
    {
        Device { state: SuperState::NoSession(NoSession::SendingJoin(self)) }
    }

    /// Waits for the driver to report the join-request sent, then schedules
    /// the first join-accept window.
    pub fn handle_event<'a>(self, event: Event<'a, R>) -> (r: (Device<R, C, G>, Result<Response, crate::Error>))
        where C: CryptoFactory + Default,
        requires
            self.wf(),
        ensures
            r.0.wf(),
            event is RadioEvent ==> {
                ||| (r.1 == Ok::<Response, crate::Error>(Response::SendingJoinRequest) && r.0@ == self.view())
                ||| exists|ms: u32| r.1 == Ok::<Response, crate::Error>(Response::TimeoutRequest(join_window_time(ms)))
                        && r.0@ == (DeviceView { phase: Phase::JoinRxWindow, radio: radio::State::Idle, ..self.view() })
            },
            !(event is RadioEvent) ==> refused(self.view(), r.0@, r.1),
    {
        match event {
            Event::RadioEvent(e) => {
                let mut s = self;
                let response = s.shared.radio_state.handle_event(&mut s.shared.radio, radio::Event::PhyEvent(e));
                settle_join_tx(s.shared, s.join_attempts, s.devnonce, response, Response::SendingJoinRequest)
            },
            _ => (self.into_device(), Err(crate::Error::NoSession(Error::UnexpectedEvent))),
        }
    }
}

impl<R: PhyRxTx + Timings, C, G: Fn() -> u32> WaitingForRxWindow<R, C, G> {
    pub closed spec fn view(&self) -> DeviceView {
        self.shared.view_with(
            Phase::JoinRxWindow,
            self.join_attempts as nat,
            self.devnonce,
            None,
            false,
            RxWindow::_1(0),
        )
    }

    pub closed spec fn wf(&self) -> bool {
        self.shared.wf() && self.shared.radio_state() == radio::State::Idle
    }

    fn into_device(self) -> (r: Device<R, C, G>)
        ensures
            r@ == self.view(),
            r.wf() == self.wf(),
    {
        Device { state: SuperState::NoSession(NoSession::WaitingForRxWindow(self)) }
    }

    /// When the window opens, listens on the region's first join-accept frequency.
    pub fn handle_event<'a>(self, event: Event<'a, R>) -> (r: (Device<R, C, G>, Result<Response, crate::Error>))
        where C: CryptoFactory + Default,
        requires
            self.wf(),
        ensures
            r.0.wf(),
            event is Timeout ==> r.1 == Ok::<Response, crate::Error>(Response::WaitingForJoinAccept)
                && r.0@ == (DeviceView {
                    phase: Phase::WaitingForJoinResponse,
                    radio: radio::State::Rxing,
                    rx_config: Some(downlink_config(region::rx1_frequency(self.view().region) as u32)),
                    ..self.view()
                }),
            !(event is Timeout) ==> refused(self.view(), r.0@, r.1),
    {
        match event {
            Event::Timeout => {
                let mut s = self;
                let rx_config = downlink_rx_config(s.shared.region.get_join_accept_frequency1());
                let _ = s.shared.radio_state.handle_event(&mut s.shared.radio, radio::Event::RxRequest(rx_config));
                let next = WaitingForJoinResponse {
                    shared: s.shared,
                    join_attempts: s.join_attempts,
                    devnonce: s.devnonce,
                };
                (next.into_device(), Ok(Response::WaitingForJoinAccept))
            },
            _ => (self.into_device(), Err(crate::Error::NoSession(Error::UnexpectedEvent))),
        }
    }
}

/// The session entered with the keys, the DevAddr and the CFList that the
/// join-accept gave: both counters at 0, the region holding the CFList, the
/// radio idle after its reception.
pub open spec fn session_entered(
    before: DeviceView,
    after: DeviceView,
    r: Result<Response, crate::Error>,
    newskey: [u8; 16],
    appskey: [u8; 16],
    devaddr: [u8; 4],
    cf_list: Option<[u32; 5]>,
) -> bool {
    &&& r == Ok::<Response, crate::Error>(Response::NewSession)
    &&& region::took_join_accept(before.region, after.region, cf_list)
    &&& after == (DeviceView {
        phase: Phase::SessionIdle,
        radio: radio::State::Idle,
        join_attempts: 0,
        devnonce: [0u8, 0u8],
        session: Some(SessionData::new_spec(newskey, appskey, devaddr)),
        confirmed: false,
        window: RxWindow::_1(0),
        region: after.region,
        ..before
    })
}

/// A join-accept was taken: a fresh session, entered as `session_entered` says.
pub open spec fn joined(before: DeviceView, after: DeviceView, r: Result<Response, crate::Error>) -> bool {
    exists|newskey: [u8; 16], appskey: [u8; 16], devaddr: [u8; 4], cf_list: Option<[u32; 5]>|
        #[trigger] session_entered(before, after, r, newskey, appskey, devaddr, cf_list)
}

impl<R: PhyRxTx + Timings, C, G: Fn() -> u32> WaitingForJoinResponse<R, C, G> {
    pub closed spec fn view(&self) -> DeviceView {
        self.shared.view_with(
            Phase::WaitingForJoinResponse,
            self.join_attempts as nat,
            self.devnonce,
            None,
            false,
            RxWindow::_1(0),
        )
    }

    pub closed spec fn wf(&self) -> bool {
        &&& self.shared.wf()
        &&& (self.shared.radio_state() == radio::State::Rxing || self.shared.radio_state()
            == radio::State::Idle)
    }

    fn into_device(self) -> (r: Device<R, C, G>)
        ensures
            r@ == self.view(),
            r.wf() == self.wf(),
    {
        Device { state: SuperState::NoSession(NoSession::WaitingForJoinResponse(self)) }
    }

    /// A received join-accept that decrypts under the AppKey with a valid MIC
    /// opens a session; a timeout closes the window and goes back to `Idle`,
    /// from which the host retries.
    pub fn handle_event<'a>(self, event: Event<'a, R>) -> (r: (Device<R, C, G>, Result<Response, crate::Error>))
        where C: CryptoFactory + Default,
        requires
            self.wf(),
        ensures
            r.0.wf(),
            event is RadioEvent ==> {
                ||| joined(self.view(), r.0@, r.1)
                ||| (r.1 == Ok::<Response, crate::Error>(Response::WaitingForJoinAccept)
                    && r.0@ == (DeviceView { radio: r.0@.radio, ..self.view() }))
                ||| (r.1 matches Err(crate::Error::Radio(_)) && r.0@ == self.view())
            },
            event is Timeout ==> {
                &&& r.0@ == (DeviceView { phase: Phase::JoinIdle, radio: radio::State::Idle, devnonce: [0u8, 0u8], ..self.view() })
                &&& (r.1 == Ok::<Response, crate::Error>(Response::Idle) || r.1 matches Err(crate::Error::Radio(radio::Error::PhyError(_))))
            },
            !(event is RadioEvent || event is Timeout) ==> refused(self.view(), r.0@, r.1),
    {
        let ghost before = self.view();
        match event {
            Event::RadioEvent(e) => {
                let mut s = self;
                let response = s.shared.radio_state.handle_event(&mut s.shared.radio, radio::Event::PhyEvent(e));
                match response {
                    Ok(radio::Response::Rx(_)) => {
                        let ghost sv = s.view();
                        let r = s.take_join_accept();
                        proof {
                            if joined(sv, r.0@, r.1) {
                                let (a, b, c, d) = choose|
                                    a: [u8; 16],
                                    b: [u8; 16],
                                    c: [u8; 4],
                                    d: Option<[u32; 5]>,
                                | #[trigger] session_entered(sv, r.0@, r.1, a, b, c, d);
                                assert(session_entered(before, r.0@, r.1, a, b, c, d));
                            }
                        }
                        r
                    },
                    Ok(_) => (s.into_device(), Ok(Response::WaitingForJoinAccept)),
                    Err(e) => (s.into_device(), Err(crate::Error::Radio(e))),
                }
            },
            Event::Timeout => {
                let mut s = self;
                let mut response = Ok(Response::Idle);
                if s.shared.radio_state.get_state() == radio::State::Rxing {
                    if let Err(e) = s.shared.radio_state.handle_event(&mut s.shared.radio, radio::Event::Timeout) {
                        response = Err(crate::Error::Radio(e));
                    }
                }
                let next = Idle { shared: s.shared, join_attempts: s.join_attempts };
                (next.into_device(), response)
            },
            _ => (self.into_device(), Err(crate::Error::NoSession(Error::UnexpectedEvent))),
        }
    }

    fn take_join_accept(self) -> (r: (Device<R, C, G>, Result<Response, crate::Error>))
        where C: CryptoFactory + Default,
        requires
            self.shared.wf(),
            self.shared.radio_state() == radio::State::Idle,
        ensures
            r.0.wf(),
            joined(self.view(), r.0@, r.1) || (r.1 == Ok::<Response, crate::Error>(Response::WaitingForJoinAccept) && r.0@ == self.view()),
    {
        let mut s = self;
        let appkey = *s.shared.credentials.appkey();
        let packet = s.shared.radio.get_received_packet();
        match codec::open_join_accept::<C>(packet.as_slice(), &appkey) {
            Some(join_accept) => {
                let newskey = codec::derive_newskey(&join_accept, &s.devnonce, &appkey);
                let appskey = codec::derive_appskey(&join_accept, &s.devnonce, &appkey);
                let devaddr = codec::join_accept_dev_addr(&join_accept);
                let cf_list = codec::join_accept_cf_list(&join_accept);
                s.enter_session(newskey, appskey, devaddr, cf_list)
            },
            None => (s.into_device(), Ok(Response::WaitingForJoinAccept)),
        }
    }

    /// Opens the session that a valid join-accept gave: its keys and DevAddr,
    /// and its CFList handed to the region.
    fn enter_session(
        self,
        newskey: [u8; 16],
        appskey: [u8; 16],
        devaddr: [u8; 4],
        cf_list: Option<[u32; 5]>,
    ) -> (r: (Device<R, C, G>, Result<Response, crate::Error>))
        requires
            self.shared.wf(),
            self.shared.radio_state() == radio::State::Idle,
        ensures
            r.0.wf(),
            session_entered(self.view(), r.0@, r.1, newskey, appskey, devaddr, cf_list),
    {
        let mut s = self;
        let _ = s.shared.region.process_join_accept(cf_list);
        let session = SessionData::new(newskey, appskey, devaddr);
        (session::Session::new(s.shared, session), Ok(Response::NewSession))
    }
}

} // verus!
