use vstd::prelude::*;
use lorawan_encoding::keys::CryptoFactory;
use crate::codec;
use crate::radio::{self, PhyRxTx};
use crate::region;
use crate::types::{Credentials, SessionData};
use crate::{Device, Event, Response, State as SuperState, Timings};
use super::{downlink_config, downlink_rx_config, uplink_config, uplink_tx_config, downlink_part, DeviceView, Downlink, Phase, RxWindow, Shared};

verus! {

#[derive(Debug, Clone, Copy, PartialEq, Eq, Structural)]
pub enum Error {
    /// The event cannot be handled in the current state; nothing changed.
    UnexpectedEvent,
    /// The uplink could not be assembled (payload too long for the buffer,
    /// a payload on FPort 0, or the uplink counter exhausted); nothing was sent.
    AssemblyFailed,
}

/// The largest application payload that fits the 256-byte buffer with the
/// 13 bytes of header, FPort and MIC.
pub const MAX_PAYLOAD: usize = 243;

/// The joined half of the engine.
pub enum Session<R: PhyRxTx + Timings, C, G: Fn() -> u32> {
    Idle(Idle<R, C, G>),
    SendingData(SendingData<R, C, G>),
    WaitingForRxWindow(WaitingForRxWindow<R, C, G>),
    WaitingForRx(WaitingForRx<R, C, G>),
}

pub struct Idle<R: PhyRxTx + Timings, C, G: Fn() -> u32> {
    pub(crate) shared: Shared<R, C, G>,
    pub(crate) session: SessionData,
}

pub struct SendingData<R: PhyRxTx + Timings, C, G: Fn() -> u32> {
    pub(crate) shared: Shared<R, C, G>,
    pub(crate) session: SessionData,
    pub(crate) confirmed: bool,
}

pub struct WaitingForRxWindow<R: PhyRxTx + Timings, C, G: Fn() -> u32> {
    pub(crate) shared: Shared<R, C, G>,
    pub(crate) session: SessionData,
    pub(crate) confirmed: bool,
    pub(crate) rx_window: RxWindow,
}

pub struct WaitingForRx<R: PhyRxTx + Timings, C, G: Fn() -> u32> {
    pub(crate) shared: Shared<R, C, G>,
    pub(crate) session: SessionData,
    pub(crate) confirmed: bool,
    pub(crate) rx_window: RxWindow,
}

/// `a + b` on the wrapping millisecond clock.
pub open spec fn add_ms(a: u32, b: u32) -> u32 {
    ((a + b) % 0x1_0000_0000) as u32
}

/// When the first receive window opens after a transmission done at `tx_done`.
pub open spec fn rx1_time(tx_done: u32) -> u32 {
    add_ms(tx_done, region::us915::RECEIVE_DELAY1)
}

/// The time between the two receive windows.
pub open spec fn window_gap() -> u32 {
    (region::us915::RECEIVE_DELAY2 - region::us915::RECEIVE_DELAY1) as u32
}

/// When a window closes, for a radio whose windows last `duration`: the
/// first one no later than the opening of the second.
pub open spec fn window_close(window: RxWindow, duration: u32) -> u32 {
    match window {
        RxWindow::_1(t) => add_ms(t, if window_gap() > duration { duration } else { window_gap() }),
        RxWindow::_2(t) => add_ms(t, duration),
    }
}

/// Where a receive window listens: RX1 mirrors the uplink, RX2 is the
/// region's fixed frequency.
pub open spec fn window_frequency(region: region::State, window: RxWindow) -> u32 {
    match window {
        RxWindow::_1(_) => region::rx1_frequency(region) as u32,
        RxWindow::_2(_) => region::rx2_frequency(region),
    }
}

/// The DevAddr field of a data frame.
pub open spec fn frame_dev_addr(frame: Seq<u8>) -> Seq<u8> {
    frame.subrange(1, 5)
}

/// The FCnt field of a data frame, little endian.
pub open spec fn frame_fcnt(frame: Seq<u8>) -> u32 {
    (frame[6] + 256 * frame[7]) as u32
}

/// Whether a received frame is admitted into `session`: a data frame with room
/// for its header, FPort and MIC that fits the 256-byte buffer, for the session's DevAddr, with a valid MIC, and a
/// counter newer than the last one or 0.
pub open spec fn downlink_accepted(session: SessionData, frame: Seq<u8>, mic_valid: bool) -> bool {
    &&& codec::is_data_frame(frame)
    &&& codec::has_frame_room(frame)
    &&& frame.len() <= 256
    &&& frame_dev_addr(frame) == session.spec_devaddr()@
    &&& mic_valid
    &&& (frame_fcnt(frame) > session.spec_fcnt_down() || frame_fcnt(frame) == 0)
}

/// Decides whether a received frame is admitted into `session`, given whether
/// its MIC checked out under the session's NwkSKey: the frame's counter if so.
pub fn accept_downlink(session: &SessionData, frame: &[u8], mic_valid: bool) -> (r: Option<u32>)
    ensures
        r.is_some() == downlink_accepted(*session, frame@, mic_valid),
        r matches Some(f) ==> f == frame_fcnt(frame@),
{
    if frame.len() < 12 || frame.len() > 256 || frame[0] / 32 < 2 || frame[0] / 32 > 5 || 12
        + frame[5] as usize % 16 > frame.len() {
        return None;
    }
    let addr = session.devaddr();
    if frame[1] != addr[0] || frame[2] != addr[1] || frame[3] != addr[2] || frame[4] != addr[3] {
        assert(frame_dev_addr(frame@)[0] != addr@[0] || frame_dev_addr(frame@)[1] != addr@[1]
            || frame_dev_addr(frame@)[2] != addr@[2] || frame_dev_addr(frame@)[3] != addr@[3]);
        return None;
    }
    assert(frame_dev_addr(frame@) =~= session.spec_devaddr()@);
    let fcnt: u32 = frame[6] as u32 + 256 * frame[7] as u32;
    if mic_valid && session.accepts_fcnt_down(fcnt) {
        Some(fcnt)
    } else {
        None
    }
}

/// The state kept, the response given.
pub open spec fn kept(before: DeviceView, after: DeviceView, r: Result<Response, crate::Error>, response: Response) -> bool {
    after == before && r == Ok::<Response, crate::Error>(response)
}

/// The unexpected-event outcome: the state is kept and the error reported.
pub open spec fn refused(before: DeviceView, after: DeviceView, r: Result<Response, crate::Error>) -> bool {
    after == before && r == Err::<Response, crate::Error>(crate::Error::Session(Error::UnexpectedEvent))
}

/// The session after an uplink: `fcnt_up` one higher, the rest as it was.
pub open spec fn counted_up(before: SessionData, after: SessionData) -> bool {
    &&& after.spec_fcnt_up() == before.spec_fcnt_up() + 1
    &&& after.spec_fcnt_down() == before.spec_fcnt_down()
    &&& after.spec_devaddr() == before.spec_devaddr()
    &&& after.spec_newskey() == before.spec_newskey()
    &&& after.spec_appskey() == before.spec_appskey()
}

/// Whether an uplink of `data` on `fport` can be assembled in `session`.
pub open spec fn can_assemble(session: SessionData, data: Seq<u8>, fport: u8) -> bool {
    &&& data.len() <= MAX_PAYLOAD
    &&& session.spec_fcnt_up() < u32::MAX
    &&& (fport != 0 || data.len() == 0)
}

/// The outcome of `SendData` in the idle session.
pub open spec fn sent_data(
    before: DeviceView,
    after: DeviceView,
    r: Result<Response, crate::Error>,
    data: Seq<u8>,
    fport: u8,
    confirmed: bool,
) -> bool {
    let s = before.session.unwrap();
    if can_assemble(s, data, fport) {
        &&& {
            ||| (after.phase == Phase::SendingData && after.radio == radio::State::Txing && r == Ok::<
                Response,
                crate::Error,
            >(Response::SendingDataUp((s.spec_fcnt_up() + 1) as u32)))
            ||| exists|ms: u32|
                after.phase == Phase::RxWindow && after.radio == radio::State::Idle && after.window
                    == RxWindow::_1(rx1_time(ms)) && r == Ok::<Response, crate::Error>(
                    Response::TimeoutRequest(rx1_time(ms)),
                )
        }
        &&& after.confirmed == confirmed
        &&& after.session matches Some(t) && counted_up(s, t)
        &&& after.buffer.len() == 13 + data.len()
        &&& after.buffer.subrange(0, 9) == codec::data_uplink_header(
            confirmed,
            fport,
            s.spec_devaddr()@,
            s.spec_fcnt_up(),
        )
        &&& after.credentials == before.credentials
        &&& after.region.region() == before.region.region()
        &&& after.downlink == before.downlink
        &&& after.rx_config == before.rx_config
        // the low byte of a random word picks the data frequency
        &&& exists|random: u8|
            after.tx_config == Some(
                uplink_config(#[trigger] region::data_frequency_of(before.region, random) as u32),
            )
    } else {
        &&& after == (DeviceView { buffer: Seq::empty(), ..before })
        &&& r == Err::<Response, crate::Error>(crate::Error::Session(Error::AssemblyFailed))
    }
}

/// Moves on from what the radio machine answered about an uplink: a completed
/// transmission schedules the first receive window `RECEIVE_DELAY1` later;
/// otherwise the uplink is still being sent and `pending` is the response.
fn settle_data_tx<R: PhyRxTx + Timings, C, G: Fn() -> u32>(
    shared: Shared<R, C, G>,
    session: SessionData,
    confirmed: bool,
    response: Result<radio::Response, radio::Error>,
    pending: Response,
) -> (r: (Device<R, C, G>, Result<Response, crate::Error>))
    requires
        shared.wf(),
        match response {
            Ok(radio::Response::TxComplete(_)) => shared.radio_state() == radio::State::Idle,
            _ => shared.radio_state() == radio::State::Txing,
        },
    ensures
        r.0.wf(),
        match response {
            Ok(radio::Response::TxComplete(ms)) => r.1 == Ok::<Response, crate::Error>(
                Response::TimeoutRequest(rx1_time(ms)),
            ) && r.0@ == shared.view_with(
                Phase::RxWindow,
                0,
                [0u8, 0u8],
                Some(session),
                confirmed,
                RxWindow::_1(rx1_time(ms)),
            ),
            _ => r.1 == Ok::<Response, crate::Error>(pending) && r.0@ == shared.view_with(
                Phase::SendingData,
                0,
                [0u8, 0u8],
                Some(session),
                confirmed,
                RxWindow::_1(0),
            ),
        },
{
    match response {
        Ok(radio::Response::TxComplete(ms)) => {
            let time = shared.region.get_receive_delay1().wrapping_add(ms);
            let next = WaitingForRxWindow { shared, session, confirmed, rx_window: RxWindow::_1(time) };
            (next.into_device(), Ok(Response::TimeoutRequest(time)))
        },
        _ => {
            let next = SendingData { shared, session, confirmed };
            (next.into_device(), Ok(pending))
        },
    }
}

impl<R: PhyRxTx + Timings, C, G: Fn() -> u32> Session<R, C, G> {
    pub(crate) fn credentials(&self) -> (r: &Credentials)
        ensures
            *r == self.view().credentials,
    {
        match self {
            Session::Idle(s) => &s.shared.credentials,
            Session::SendingData(s) => &s.shared.credentials,
            Session::WaitingForRxWindow(s) => &s.shared.credentials,
            Session::WaitingForRx(s) => &s.shared.credentials,
        }
    }

    pub(crate) proof fn lemma_view_wf(&self)
        requires
            self.wf(),
        ensures
            self.view().buffer.len() <= 256,
            self.view().session is Some,
            crate::is_session_phase(self.view().phase),
            self.view().region.wf(),
    {
        match self {
            Session::Idle(s) => s.shared.lemma_wf(),
            Session::SendingData(s) => s.shared.lemma_wf(),
            Session::WaitingForRxWindow(s) => s.shared.lemma_wf(),
            Session::WaitingForRx(s) => s.shared.lemma_wf(),
        }
    }

    pub(crate) fn session(&self) -> (r: Option<&SessionData>)
        ensures
            r == match self.view().session { Some(s) => Some(&s), None => None::<&SessionData> },
    {
        match self {
            Session::Idle(s) => Some(&s.session),
            Session::SendingData(s) => Some(&s.session),
            Session::WaitingForRxWindow(s) => Some(&s.session),
            Session::WaitingForRx(s) => Some(&s.session),
        }
    }

    /// Takes a part of the kept downlink, as `Shared::take_part` does.
    pub(crate) fn take_part(&mut self, app: bool) -> (r: Option<Vec<u8>>)
        requires
            old(self).wf(),
        ensures
            final(self).wf(),
            match r {
                Some(v) => downlink_part(old(self).view().downlink, app) == Some(v@)
                    && final(self).view() == (DeviceView { downlink: None, ..old(self).view() }),
                None => downlink_part(old(self).view().downlink, app) == None::<Seq<u8>>
                    && final(self).view() == old(self).view(),
            },
    {
        match self {
            Session::Idle(s) => s.shared.take_part(app),
            Session::SendingData(s) => s.shared.take_part(app),
            Session::WaitingForRxWindow(s) => s.shared.take_part(app),
            Session::WaitingForRx(s) => s.shared.take_part(app),
        }
    }

    pub closed spec fn view(&self) -> DeviceView {
        match self {
            Session::Idle(s) => s.view(),
            Session::SendingData(s) => s.view(),
            Session::WaitingForRxWindow(s) => s.view(),
            Session::WaitingForRx(s) => s.view(),
        }
    }

    pub closed spec fn wf(&self) -> bool {
        match self {
            Session::Idle(s) => s.wf(),
            Session::SendingData(s) => s.wf(),
            Session::WaitingForRxWindow(s) => s.wf(),
            Session::WaitingForRx(s) => s.wf(),
        }
    }

    /// Enters the session with its idle state.
    pub fn new(shared: Shared<R, C, G>, session: SessionData) -> (r: Device<R, C, G>)
        requires
            shared.wf(),
            shared.radio_state() == radio::State::Idle,
        ensures
            r.wf(),
            r@ == shared.view_with(Phase::SessionIdle, 0, [0u8, 0u8], Some(session), false, RxWindow::_1(0)),
    {
        Device { state: SuperState::Session(Session::Idle(Idle { shared, session })) }
    }
}

impl<R: PhyRxTx + Timings, C, G: Fn() -> u32> Session<R, C, G> {
    pub fn handle_event<'a>(self, event: Event<'a, R>) -> (r: (Device<R, C, G>, Result<Response, crate::Error>))
        where C: CryptoFactory + Default,
        requires
            self.wf(),
        ensures
            r.0.wf(),
            crate::transition(self.view(), event, r.0@, r.1),
    {
        match self {
            Session::Idle(state) => state.handle_event(event),
            Session::SendingData(state) => state.handle_event(event),
            Session::WaitingForRxWindow(state) => state.handle_event(event),
            Session::WaitingForRx(state) => state.handle_event(event),
        }
    }
}

impl<R: PhyRxTx + Timings, C, G: Fn() -> u32> Idle<R, C, G> {
    pub closed spec fn view(&self) -> DeviceView {
        self.shared.view_with(Phase::SessionIdle, 0, [0u8, 0u8], Some(self.session), false, RxWindow::_1(0))
    }

    pub closed spec fn wf(&self) -> bool {
        self.shared.wf() && self.shared.radio_state() == radio::State::Idle
    }

    fn into_device(self) -> (r: Device<R, C, G>)
        ensures
            r@ == self.view(),
            r.wf() == self.wf(),
    {
        Device { state: SuperState::Session(Session::Idle(self)) }
    }

    /// Assembles the uplink into the buffer and counts it; on failure the
    /// buffer is left empty and the counter as it was.
    fn prepare_buffer(&mut self, data: &[u8], fport: u8, confirmed: bool) -> (r: bool)
        where C: CryptoFactory + Default,
        requires
            old(self).wf(),
        ensures
            final(self).wf(),
            r == can_assemble(old(self).session, data@, fport),
            r ==> counted_up(old(self).session, final(self).session),
            r ==> final(self).shared.spec_buffer().len() == 13 + data@.len(),
            r ==> final(self).shared.spec_buffer().subrange(0, 9) == codec::data_uplink_header(
                confirmed,
                fport,
                old(self).session.spec_devaddr()@,
                old(self).session.spec_fcnt_up(),
            ),
            !r ==> final(self).session == old(self).session,
            !r ==> final(self).shared.spec_buffer() == Seq::<u8>::empty(),
            final(self).shared.radio_state() == old(self).shared.radio_state(),
            final(self).shared.spec_tx_config() == old(self).shared.spec_tx_config(),
            final(self).shared.spec_rx_config() == old(self).shared.spec_rx_config(),
            final(self).shared.spec_credentials() == old(self).shared.spec_credentials(),
            final(self).shared.spec_region() == old(self).shared.spec_region(),
            final(self).shared.spec_downlink() == old(self).shared.spec_downlink(),
    {
        if data.len() > MAX_PAYLOAD || self.session.fcnt_up() == u32::MAX {
            self.shared.buffer.clear();
            return false;
        }
        let frame = codec::build_data_uplink::<C>(
            confirmed,
            fport,
            self.session.devaddr(),
            self.session.fcnt_up(),
            data,
            self.session.newskey(),
            self.session.appskey(),
        );
        match frame {
            Some(v) => {
                self.shared.buffer = v;
                self.session.fcnt_up_increment();
                true
            },
            None => {
                self.shared.buffer.clear();
                false
            },
        }
    }

    /// Sends application data; timeouts and session requests are ignored.
    pub fn handle_event<'a>(self, event: Event<'a, R>) -> (r: (Device<R, C, G>, Result<Response, crate::Error>))
        where C: CryptoFactory + Default,
        requires
            self.wf(),
        ensures
            r.0.wf(),
            match event {
                Event::SendData(d) => sent_data(self.view(), r.0@, r.1, d.data@, d.fport, d.confirmed),
                Event::RadioEvent(_) => refused(self.view(), r.0@, r.1),
                _ => kept(self.view(), r.0@, r.1, Response::Idle),
            },
    {
        match event {
            Event::SendData(send_data) => {
                let mut s = self;
                if !s.prepare_buffer(send_data.data, send_data.fport, send_data.confirmed) {
                    return (s.into_device(), Err(crate::Error::Session(Error::AssemblyFailed)));
                }
                let random = (s.shared.get_random)();
                let frequency = s.shared.region.get_data_frequency(#[verifier::truncate] (random as u8));
                let tx_config = uplink_tx_config(frequency);
                let response = s.shared.radio_state.handle_event(
                    &mut s.shared.radio,
                    radio::Event::TxRequest(tx_config, s.shared.buffer.as_slice()),
                );
                let fcnt_up = s.session.fcnt_up();
                settle_data_tx(s.shared, s.session, send_data.confirmed, response, Response::SendingDataUp(fcnt_up))
            },
            Event::RadioEvent(_) => (self.into_device(), Err(crate::Error::Session(Error::UnexpectedEvent))),
            _ => (self.into_device(), Ok(Response::Idle)),
        }
    }
}

impl<R: PhyRxTx + Timings, C, G: Fn() -> u32> SendingData<R, C, G> {
    pub closed spec fn view(&self) -> DeviceView {
        self.shared.view_with(Phase::SendingData, 0, [0u8, 0u8], Some(self.session), self.confirmed, RxWindow::_1(0))
    }

    pub closed spec fn wf(&self) -> bool {
        self.shared.wf() && self.shared.radio_state() == radio::State::Txing
    }

    fn into_device(self) -> (r: Device<R, C, G>)
        ensures
            r@ == self.view(),
            r.wf() == self.wf(),
    {
        Device { state: SuperState::Session(Session::SendingData(self)) }
    }

    /// Waits for the driver to report the uplink sent, then schedules the first
    /// receive window; a timeout is tolerated.
    pub fn handle_event<'a>(self, event: Event<'a, R>) -> (r: (Device<R, C, G>, Result<Response, crate::Error>))
        where C: CryptoFactory + Default,
        requires
            self.wf(),
        ensures
            r.0.wf(),
            match event {
                Event::RadioEvent(_) => {
                    ||| kept(self.view(), r.0@, r.1, Response::SendingDataUp(self.view().session.unwrap().spec_fcnt_up()))
                    ||| exists|ms: u32| r.1 == Ok::<Response, crate::Error>(Response::TimeoutRequest(rx1_time(ms)))
                            && r.0@ == (DeviceView {
                                phase: Phase::RxWindow,
                                radio: radio::State::Idle,
                                window: RxWindow::_1(rx1_time(ms)),
                                ..self.view()
                            })
                },
                Event::Timeout => kept(self.view(), r.0@, r.1, Response::Idle),
                _ => refused(self.view(), r.0@, r.1),
            },
    {
        match event {
            Event::RadioEvent(e) => {
                let mut s = self;
                let response = s.shared.radio_state.handle_event(&mut s.shared.radio, radio::Event::PhyEvent(e));
                let fcnt_up = s.session.fcnt_up();
                settle_data_tx(s.shared, s.session, s.confirmed, response, Response::SendingDataUp(fcnt_up))
            },
            Event::Timeout => (self.into_device(), Ok(Response::Idle)),
            _ => (self.into_device(), Err(crate::Error::Session(Error::UnexpectedEvent))),
        }
    }
}

impl<R: PhyRxTx + Timings, C, G: Fn() -> u32> WaitingForRxWindow<R, C, G> {
    pub closed spec fn view(&self) -> DeviceView {
        self.shared.view_with(Phase::RxWindow, 0, [0u8, 0u8], Some(self.session), self.confirmed, self.rx_window)
    }

    pub closed spec fn wf(&self) -> bool {
        self.shared.wf() && self.shared.radio_state() == radio::State::Idle
    }

    fn into_device(self) -> (r: Device<R, C, G>)
        ensures
            r@ == self.view(),
            r.wf() == self.wf(),
    {
        Device { state: SuperState::Session(Session::WaitingForRxWindow(self)) }
    }

    /// When the window opens, listens on the RX1 frequency and asks for a
    /// timeout when the window closes.
    pub fn handle_event<'a>(self, event: Event<'a, R>) -> (r: (Device<R, C, G>, Result<Response, crate::Error>))
        where C: CryptoFactory + Default,
        requires
            self.wf(),
        ensures
            r.0.wf(),
            event is Timeout ==> exists|duration: u32|
                r.1 == Ok::<Response, crate::Error>(Response::TimeoutRequest(window_close(self.view().window, duration)))
                && r.0@ == (DeviceView {
                    phase: Phase::WaitingForRx,
                    radio: radio::State::Rxing,
                    rx_config: Some(downlink_config(window_frequency(self.view().region, self.view().window))),
                    ..self.view()
                }),
            !(event is Timeout) ==> refused(self.view(), r.0@, r.1),
    {
        match event {
            Event::Timeout => {
                let mut s = self;
                let frequency = match s.rx_window {
                    RxWindow::_1(_) => s.shared.region.get_rxwindow1_frequency(),
                    RxWindow::_2(_) => s.shared.region.get_rxwindow2_frequency(),
                };
                let rx_config = downlink_rx_config(frequency);
                let _ = s.shared.radio_state.handle_event(&mut s.shared.radio, radio::Event::RxRequest(rx_config));
                let duration = s.shared.radio.get_rx_window_duration_ms();
                let close: u32 = match s.rx_window {
                    RxWindow::_1(time) => {
                        let time_between_windows = s.shared.region.get_receive_delay2()
                            - s.shared.region.get_receive_delay1();
                        if time_between_windows > duration {
                            time.wrapping_add(duration)
                        } else {
                            time.wrapping_add(time_between_windows)
                        }
                    },
                    RxWindow::_2(time) => time.wrapping_add(duration),
                };
                let next = WaitingForRx {
                    shared: s.shared,
                    session: s.session,
                    confirmed: s.confirmed,
                    rx_window: s.rx_window,
                };
                let d = next.into_device();
                assert(close == window_close(self.view().window, duration));
                (d, Ok(Response::TimeoutRequest(close)))
            },
            _ => (self.into_device(), Err(crate::Error::Session(Error::UnexpectedEvent))),
        }
    }
}

/// The session after admitting a downlink with counter `f`: `fcnt_down` is
/// `f`, the rest as it was.
pub open spec fn counted_down(before: SessionData, after: SessionData, f: u32) -> bool {
    &&& after.spec_fcnt_down() == f
    &&& after.spec_fcnt_up() == before.spec_fcnt_up()
    &&& after.spec_devaddr() == before.spec_devaddr()
    &&& after.spec_newskey() == before.spec_newskey()
    &&& after.spec_appskey() == before.spec_appskey()
}

/// `d` is `frame` with its FRMPayload decrypted: the same length, the same
/// header, FPort and MIC.
pub open spec fn decrypted_from(frame: Seq<u8>, d: Seq<u8>) -> bool {
    &&& d.len() == frame.len()
    &&& forall|i: int|
        0 <= i < frame.len() && (i < codec::frm_payload_start(frame) || i >= frame.len() - 4)
            ==> d[i] == frame[i]
}

/// What a listening session does with a received `frame` whose MIC checked out
/// as `mic_valid`: an admitted frame moves `fcnt_down` to its counter, waits
/// decrypted in the downlink slot and ends the exchange with `DataDown`; any
/// other frame is dropped and the session keeps listening.
pub open spec fn admitted(
    before: DeviceView,
    frame: Seq<u8>,
    mic_valid: bool,
    after: DeviceView,
    r: Result<Response, crate::Error>,
) -> bool {
    let s = before.session.unwrap();
    if downlink_accepted(s, frame, mic_valid) {
        &&& r == Ok::<Response, crate::Error>(Response::DataDown(frame_fcnt(frame)))
        &&& after.session matches Some(t) && counted_down(s, t, frame_fcnt(frame))
        &&& after.downlink matches Some(d) && decrypted_from(frame, d)
        &&& after == (DeviceView {
            phase: Phase::SessionIdle,
            session: after.session,
            downlink: after.downlink,
            confirmed: false,
            window: RxWindow::_1(0),
            ..before
        })
    } else {
        r == Ok::<Response, crate::Error>(Response::WaitingForDataDown) && after == before
    }
}

/// The outcome of a radio event while listening: a received frame is handled
/// as `admitted` says (the radio is idle once it has received); a radio still
/// listening keeps the state; a radio that is no longer listening refuses.
pub open spec fn received(before: DeviceView, after: DeviceView, r: Result<Response, crate::Error>) -> bool {
    ||| exists|frame: Seq<u8>, mic_valid: bool|
        #[trigger] admitted(DeviceView { radio: radio::State::Idle, ..before }, frame, mic_valid, after, r)
    ||| (r == Ok::<Response, crate::Error>(Response::WaitingForDataDown) && after == before)
    ||| (r matches Err(crate::Error::Radio(_)) && after == before)
}

impl<R: PhyRxTx + Timings, C, G: Fn() -> u32> WaitingForRx<R, C, G> {
    pub closed spec fn view(&self) -> DeviceView {
        self.shared.view_with(Phase::WaitingForRx, 0, [0u8, 0u8], Some(self.session), self.confirmed, self.rx_window)
    }

    pub closed spec fn wf(&self) -> bool {
        &&& self.shared.wf()
        &&& (self.shared.radio_state() == radio::State::Rxing || self.shared.radio_state()
            == radio::State::Idle)
    }

    fn into_device(self) -> (r: Device<R, C, G>)
        ensures
            r@ == self.view(),
            r.wf() == self.wf(),
    {
        Device { state: SuperState::Session(Session::WaitingForRx(self)) }
    }

    /// A received frame that passes `accept_downlink` ends the exchange; on
    /// timeout the first window gives way to the second, and the second to
    /// `NoAck` (confirmed uplink) or `ReadyToSend`.
    pub fn handle_event<'a>(self, event: Event<'a, R>) -> (r: (Device<R, C, G>, Result<Response, crate::Error>))
        where C: CryptoFactory + Default,
        requires
            self.wf(),
        ensures
            r.0.wf(),
            match event {
                Event::RadioEvent(_) => received(self.view(), r.0@, r.1),
                Event::Timeout => {
                    ||| (r.1 matches Err(crate::Error::Radio(radio::Error::PhyError(_))) && r.0@ == (DeviceView { radio: radio::State::Idle, ..self.view() }))
                    ||| match self.view().window {
                        RxWindow::_1(t1) => r.1 == Ok::<Response, crate::Error>(Response::TimeoutRequest(add_ms(t1, window_gap())))
                            && r.0@ == (DeviceView {
                                phase: Phase::RxWindow,
                                radio: radio::State::Idle,
                                window: RxWindow::_2(add_ms(t1, window_gap())),
                                ..self.view()
                            }),
                        RxWindow::_2(_) => r.1 == Ok::<Response, crate::Error>(if self.view().confirmed { Response::NoAck } else { Response::ReadyToSend })
                            && r.0@ == (DeviceView {
                                phase: Phase::SessionIdle,
                                radio: radio::State::Idle,
                                confirmed: false,
                                window: RxWindow::_1(0),
                                ..self.view()
                            }),
                    }
                },
                _ => refused(self.view(), r.0@, r.1),
            },
    {
        match event {
            Event::RadioEvent(e) => {
                let mut s = self;
                let response = s.shared.radio_state.handle_event(&mut s.shared.radio, radio::Event::PhyEvent(e));
                match response {
                    Ok(radio::Response::Rx(_)) => s.take_downlink(),
                    Ok(_) => (s.into_device(), Ok(Response::WaitingForDataDown)),
                    Err(e) => (s.into_device(), Err(crate::Error::Radio(e))),
                }
            },
            Event::Timeout => {
                let mut s = self;
                if s.shared.radio_state.get_state() == radio::State::Rxing {
                    if let Err(e) = s.shared.radio_state.handle_event(&mut s.shared.radio, radio::Event::Timeout) {
                        return (s.into_device(), Err(crate::Error::Radio(e)));
                    }
                }
                match s.rx_window {
                    RxWindow::_1(t1) => {
                        let time_between_windows = s.shared.region.get_receive_delay2()
                            - s.shared.region.get_receive_delay1();
                        let t2 = t1.wrapping_add(time_between_windows);
                        let next = WaitingForRxWindow {
                            shared: s.shared,
                            session: s.session,
                            confirmed: s.confirmed,
                            rx_window: RxWindow::_2(t2),
                        };
                        (next.into_device(), Ok(Response::TimeoutRequest(t2)))
                    },
                    RxWindow::_2(_) => {
                        let response = if s.confirmed {
                            Response::NoAck
                        } else {
                            Response::ReadyToSend
                        };
                        let next = Idle { shared: s.shared, session: s.session };
                        (next.into_device(), Ok(response))
                    },
                }
            },
            _ => (self.into_device(), Err(crate::Error::Session(Error::UnexpectedEvent))),
        }
    }

    /// Checks the received frame against the session and admits it or drops it.
    fn take_downlink(self) -> (r: (Device<R, C, G>, Result<Response, crate::Error>))
        where C: CryptoFactory + Default,
        requires
            self.shared.wf(),
            self.shared.radio_state() == radio::State::Idle,
        ensures
            r.0.wf(),
            exists|frame: Seq<u8>, mic_valid: bool| #[trigger] admitted(self.view(), frame, mic_valid, r.0@, r.1),
    {
        let mut s = self;
        let packet: &Vec<u8> = s.shared.radio.get_received_packet();
        let frame = super::copy_range(packet, 0, packet.len());
        let mut mic_valid = false;
        if frame.len() <= 256 && codec::parses_as_data::<C>(frame.as_slice()) && 12 + frame[5] as usize
            % 16 <= frame.len() && frame[1] == s.session.devaddr()[0] && frame[2]
            == s.session.devaddr()[1] && frame[3] == s.session.devaddr()[2] && frame[4]
            == s.session.devaddr()[3] {
            let fcnt: u32 = frame[6] as u32 + 256 * frame[7] as u32;
            mic_valid = codec::data_mic_is_valid::<C>(frame.as_slice(), s.session.newskey(), fcnt);
        }
        s.settle_downlink(frame.as_slice(), mic_valid)
    }

    /// Admits `frame` or drops it, given whether its MIC checked out under the
    /// session's NwkSKey.
    fn settle_downlink(self, frame: &[u8], mic_valid: bool) -> (r: (Device<R, C, G>, Result<Response, crate::Error>))
        where C: CryptoFactory + Default,
        requires
            self.shared.wf(),
            self.shared.radio_state() == radio::State::Idle,
        ensures
            r.0.wf(),
            admitted(self.view(), frame@, mic_valid, r.0@, r.1),
    {
        let mut s = self;
        match accept_downlink(&s.session, frame, mic_valid) {
            Some(fcnt) => {
                let decrypted = codec::decrypt_data::<C>(
                    frame,
                    s.session.newskey(),
                    s.session.appskey(),
                    fcnt,
                );
                assert(decrypted@[0] == frame@[0] && decrypted@[5] == frame@[5]);
                s.session.set_fcnt_down(fcnt);
                s.shared.downlink = Some(Downlink::Data(decrypted));
                let next = Idle { shared: s.shared, session: s.session };
                (next.into_device(), Ok(Response::DataDown(fcnt)))
            },
            None => (s.into_device(), Ok(Response::WaitingForDataDown)),
        }
    }
}

} // verus!
