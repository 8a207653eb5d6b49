use vstd::prelude::*;

mod codec;
pub mod laws;
pub mod radio;
pub mod region;
mod state_machines;
mod types;

pub use state_machines::{downlink_part, fopts, frm_payload, no_session, session, DeviceView, Downlink, Phase, RxWindow, Shared};
use lorawan_encoding::keys::CryptoFactory;
pub use types::{Credentials, SessionData};

verus! {

pub type TimestampMs = u32;

pub type FcntDown = u32;

pub type FcntUp = u32;

/// What the engine tells the host after an event.
#[derive(Debug, Clone, Copy, PartialEq, Eq, Structural)]
pub enum Response {
    Idle,
    DataDown(FcntDown),
    TimeoutRequest(TimestampMs),
    SendingJoinRequest,
    WaitingForJoinAccept,
    Rxing,
    NewSession,
    SendingDataUp(FcntUp),
    WaitingForDataDown,
    NoAck,
    ReadyToSend,
}

#[derive(Debug, Clone, Copy, PartialEq, Eq, Structural)]
pub enum Error {
    Radio(radio::Error),
    Session(session::Error),
    NoSession(no_session::Error),
}

/// An application request to send `data` on `fport`.
pub struct SendData<'a> {
    pub data: &'a [u8],
    pub fport: u8,
    pub confirmed: bool,
}

impl From<radio::Error> for Error {
    fn from(radio_error: radio::Error) -> (r: Error)
        ensures
            r == Error::Radio(radio_error),
    {
        Error::Radio(radio_error)
    }
}

impl vstd::std_specs::convert::FromSpecImpl<radio::Error> for Error {
    open spec fn obeys_from_spec() -> bool {
        true
    }

    open spec fn from_spec(v: radio::Error) -> Error {
        Error::Radio(v)
    }
}

pub enum Event<'a, R: radio::PhyRxTx> {
    NewSession,
    RadioEvent(R::PhyEvent),
    Timeout,
    SendData(SendData<'a>),
}

/// Receive-window timing of the radio, implemented by the host.
pub trait Timings {
    fn get_rx_window_offset_ms(&mut self) -> i32;

    fn get_rx_window_duration_ms(&mut self) -> u32;
}

} // verus!

verus! {

pub enum State<R: radio::PhyRxTx + Timings, C, G: Fn() -> u32> {
    NoSession(no_session::NoSession<R, C, G>),
    Session(session::Session<R, C, G>),
}

/// A LoRaWAN class A end device: a reducer that takes one event at a time.
pub struct Device<R: radio::PhyRxTx + Timings, C, G: Fn() -> u32> {
    pub(crate) state: State<R, C, G>,
}

impl<R: radio::PhyRxTx + Timings, C, G: Fn() -> u32> View for Device<
    R,
    C,
    G,
> {
    type V = DeviceView;

    closed spec fn view(&self) -> DeviceView {
        match self.state {
            State::NoSession(s) => s.view(),
            State::Session(s) => s.view(),
        }
    }
}

/// The phases of a joined device.
pub open spec fn is_session_phase(p: Phase) -> bool {
    p == Phase::SessionIdle || p == Phase::SendingData || p == Phase::RxWindow || p == Phase::WaitingForRx
}

/// What one event does to the engine, for every outcome of the driver, the
/// random source and the codec: the state after it and the response.
pub open spec fn transition<'a, R: radio::PhyRxTx>(
    before: DeviceView,
    event: Event<'a, R>,
    after: DeviceView,
    r: Result<Response, Error>,
) -> bool {
    match before.phase {
        Phase::JoinIdle => match event {
            Event::NewSession | Event::Timeout => no_session::join_sent(before, after, r),
            _ => no_session::refused(before, after, r),
        },
        Phase::SendingJoin => match event {
            Event::RadioEvent(_) => {
                ||| (r == Ok::<Response, Error>(Response::SendingJoinRequest) && after == before)
                ||| exists|ms: u32|
                    r == Ok::<Response, Error>(Response::TimeoutRequest(no_session::join_window_time(ms)))
                        && after == (DeviceView {
                        phase: Phase::JoinRxWindow,
                        radio: radio::State::Idle,
                        ..before
                    })
            },
            _ => no_session::refused(before, after, r),
        },
        Phase::JoinRxWindow => match event {
            Event::Timeout => r == Ok::<Response, Error>(Response::WaitingForJoinAccept) && after
                == (DeviceView {
                phase: Phase::WaitingForJoinResponse,
                radio: radio::State::Rxing,
                rx_config: Some(
                    state_machines::downlink_config(region::rx1_frequency(before.region) as u32),
                ),
                ..before
            }),
            _ => no_session::refused(before, after, r),
        },
        Phase::WaitingForJoinResponse => match event {
            Event::RadioEvent(_) => {
                ||| no_session::joined(before, after, r)
                ||| (r == Ok::<Response, Error>(Response::WaitingForJoinAccept) && after == (
                DeviceView { radio: after.radio, ..before }))
                ||| (r matches Err(Error::Radio(_)) && after == before)
            },
            Event::Timeout => {
                &&& after == (DeviceView {
                    phase: Phase::JoinIdle,
                    radio: radio::State::Idle,
                    devnonce: [0u8, 0u8],
                    ..before
                })
                &&& (r == Ok::<Response, Error>(Response::Idle) || r matches Err(
                    Error::Radio(radio::Error::PhyError(_)),
                ))
            },
            _ => no_session::refused(before, after, r),
        },
        Phase::SessionIdle => match event {
            Event::SendData(d) => session::sent_data(before, after, r, d.data@, d.fport, d.confirmed),
            Event::RadioEvent(_) => session::refused(before, after, r),
            _ => session::kept(before, after, r, Response::Idle),
        },
        Phase::SendingData => match event {
            Event::RadioEvent(_) => {
                ||| session::kept(
                    before,
                    after,
                    r,
                    Response::SendingDataUp(before.session.unwrap().spec_fcnt_up()),
                )
                ||| exists|ms: u32|
                    r == Ok::<Response, Error>(Response::TimeoutRequest(session::rx1_time(ms)))
                        && after == (DeviceView {
                        phase: Phase::RxWindow,
                        radio: radio::State::Idle,
                        window: RxWindow::_1(session::rx1_time(ms)),
                        ..before
                    })
            },
            Event::Timeout => session::kept(before, after, r, Response::Idle),
            _ => session::refused(before, after, r),
        },
        Phase::RxWindow => match event {
            Event::Timeout => exists|duration: u32|
                r == Ok::<Response, Error>(
                    Response::TimeoutRequest(session::window_close(before.window, duration)),
                ) && after == (DeviceView {
                    phase: Phase::WaitingForRx,
                    radio: radio::State::Rxing,
                    rx_config: Some(
                        state_machines::downlink_config(
                            session::window_frequency(before.region, before.window),
                        ),
                    ),
                    ..before
                }),
            _ => session::refused(before, after, r),
        },
        Phase::WaitingForRx => match event {
            Event::RadioEvent(_) => session::received(before, after, r),
            Event::Timeout => {
                ||| (r matches Err(Error::Radio(radio::Error::PhyError(_))) && after == (
                DeviceView { radio: radio::State::Idle, ..before }))
                ||| match before.window {
                    RxWindow::_1(t1) => r == Ok::<Response, Error>(
                        Response::TimeoutRequest(session::add_ms(t1, session::window_gap())),
                    ) && after == (DeviceView {
                        phase: Phase::RxWindow,
                        radio: radio::State::Idle,
                        window: RxWindow::_2(session::add_ms(t1, session::window_gap())),
                        ..before
                    }),
                    RxWindow::_2(_) => r == Ok::<Response, Error>(
                        if before.confirmed {
                            Response::NoAck
                        } else {
                            Response::ReadyToSend
                        },
                    ) && after == (DeviceView {
                        phase: Phase::SessionIdle,
                        radio: radio::State::Idle,
                        confirmed: false,
                        window: RxWindow::_1(0),
                        ..before
                    }),
                }
            },
            _ => session::refused(before, after, r),
        },
    }
}

impl<R: radio::PhyRxTx + Timings, C, G: Fn() -> u32> Device<R, C, G> {
    pub closed spec fn wf(&self) -> bool {
        match self.state {
            State::NoSession(s) => s.wf(),
            State::Session(s) => s.wf(),
        }
    }

    /// A device that has not joined yet, for the US915 region with sub-band 2.
    pub fn new(radio: R, deveui: [u8; 8], appeui: [u8; 8], appkey: [u8; 16], get_random: G) -> (r:
        Device<R, C, G>)
        requires
            forall|u: ()| get_random.requires(u),
        ensures
            r.wf(),
            r@.phase == Phase::JoinIdle,
            r@.radio == radio::State::Idle,
            r@.credentials == Credentials::new_spec(appeui, deveui, appkey),
            r@.region.region() == region::Region::US915,
            r@.region matches region::State::US915(s) && s.pinned_subband() == Some(2u8),
            r@.buffer == Seq::<u8>::empty(),
            r@.downlink == None::<Seq<u8>>,
            r@.join_attempts == 0,
            r@.session == None::<SessionData>,
    {
        let mut region = region::Configuration::new(region::Region::US915);
        region.set_subband(2);
        let shared = Shared::new(radio, Credentials::new(appeui, deveui, appkey), region, get_random);
        Device { state: State::NoSession(no_session::NoSession::new(shared)) }
    }

    /// Handles one event: the state moves as `transition` says.
    pub fn handle_event<'a>(self, event: Event<'a, R>) -> (r: (Self, Result<Response, Error>))
        where C: CryptoFactory + Default,
        requires
            self.wf(),
        ensures
            r.0.wf(),
            transition(self@, event, r.0@, r.1),
    {
        match self.state {
            State::NoSession(state) => state.handle_event(event),
            State::Session(state) => state.handle_event(event),
        }
    }

    /// What every well-formed device satisfies: the scratch buffer holds at
    /// most 256 bytes, and a session exists exactly in the session phases.
    pub proof fn lemma_view_wf(&self)
        requires
            self.wf(),
        ensures
            self@.buffer.len() <= 256,
            self@.region.wf(),
            (self@.session is Some) == is_session_phase(self@.phase),
    {
        match self.state {
            State::NoSession(s) => s.lemma_view_wf(),
            State::Session(s) => s.lemma_view_wf(),
        }
    }

    /// The data of the active session, if there is one.
    pub fn get_session(&self) -> (r: Option<&SessionData>)
        ensures
            r == match self@.session { Some(s) => Some(&s), None => None::<&SessionData> },
    {
        match &self.state {
            State::NoSession(s) => s.session(),
            State::Session(s) => s.session(),
        }
    }

    /// Takes the application payload of the kept downlink (FPort 1 and up).
    pub fn get_downlink_payload(&mut self) -> (r: Option<Vec<u8>>)
        requires
            old(self).wf(),
        ensures
            final(self).wf(),
            match r {
                Some(v) => downlink_part(old(self)@.downlink, true) == Some(v@)
                    && final(self)@ == (DeviceView { downlink: None, ..old(self)@ }),
                None => downlink_part(old(self)@.downlink, true) == None::<Seq<u8>>
                    && final(self)@ == old(self)@,
            },
    {
        match &mut self.state {
            State::NoSession(s) => s.take_part(true),
            State::Session(s) => s.take_part(true),
        }
    }

    /// Takes the MAC commands of the kept downlink: those in its FOpts, or its
    /// FPort 0 payload.
    pub fn get_downlink_mac(&mut self) -> (r: Option<Vec<u8>>)
        requires
            old(self).wf(),
        ensures
            final(self).wf(),
            match r {
                Some(v) => downlink_part(old(self)@.downlink, false) == Some(v@)
                    && final(self)@ == (DeviceView { downlink: None, ..old(self)@ }),
                None => downlink_part(old(self)@.downlink, false) == None::<Seq<u8>>
                    && final(self)@ == old(self)@,
            },
    {
        match &mut self.state {
            State::NoSession(s) => s.take_part(false),
            State::Session(s) => s.take_part(false),
        }
    }

    /// The radio driver, for the host.
    pub fn get_radio(&mut self) -> &mut R {
        match &mut self.state {
            State::NoSession(no_session::NoSession::Idle(s)) => &mut s.shared.radio,
            State::NoSession(no_session::NoSession::SendingJoin(s)) => &mut s.shared.radio,
            State::NoSession(no_session::NoSession::WaitingForRxWindow(s)) => &mut s.shared.radio,
            State::NoSession(no_session::NoSession::WaitingForJoinResponse(s)) => &mut s.shared.radio,
            State::Session(session::Session::Idle(s)) => &mut s.shared.radio,
            State::Session(session::Session::SendingData(s)) => &mut s.shared.radio,
            State::Session(session::Session::WaitingForRxWindow(s)) => &mut s.shared.radio,
            State::Session(session::Session::WaitingForRx(s)) => &mut s.shared.radio,
        }
    }

    /// The device credentials.
    pub fn get_credentials(&self) -> (r: &Credentials)
        ensures
            *r == self@.credentials,
    {
        match &self.state {
            State::NoSession(s) => s.credentials(),
            State::Session(s) => s.credentials(),
        }
    }

    /// Sends `data` on `fport`: the event `SendData`.
    pub fn send(self, data: &[u8], fport: u8, confirmed: bool) -> (r: (Self, Result<Response, Error>))
        where C: CryptoFactory + Default,
        requires
            self.wf(),
        ensures
            r.0.wf(),
            transition(self@, Event::<R>::SendData(SendData { data, fport, confirmed }), r.0@, r.1),
    {
        self.handle_event(Event::SendData(SendData { data, fport, confirmed }))
    }
}

} // verus!
