use vstd::prelude::*;
use super::{PhyError, PhyResponse, PhyRxTx, RfConfig, RxQuality, TxConfig};

verus! {

/// Which radio operations are legal: a request only when idle, and at most
/// one of transmission and reception in flight.
#[derive(Debug, Clone, Copy, PartialEq, Eq, Structural)]
pub enum State {
    Idle,
    Txing,
    Rxing,
}

#[derive(Debug, Clone, Copy, PartialEq, Eq, Structural)]
pub enum Response {
    /// Packet sent, at this time in milliseconds.
    TxComplete(u32),
    /// Sending a packet.
    Txing,
    /// Packet received.
    Rx(RxQuality),
    /// In receiving mode.
    Rxing,
    Idle,
}

#[derive(Debug, Clone, Copy, PartialEq, Eq, Structural)]
pub enum Error {
    /// The request is illegal in the current radio state.
    BadState,
    /// The transceiver failed, or failed to cancel.
    PhyError(PhyError),
}

pub enum Event<'a, R: PhyRxTx> {
    TxRequest(TxConfig, &'a [u8]),
    RxRequest(RfConfig),
    PhyEvent(R::PhyEvent),
    Timeout,
}

/// The kind of a radio event, without its payload.
#[derive(Debug, Clone, Copy, PartialEq, Eq, Structural)]
pub enum EventKind {
    TxRequest,
    RxRequest,
    PhyEvent,
    Timeout,
}

impl<'a, R: PhyRxTx> Event<'a, R> {
    pub open spec fn kind(&self) -> EventKind {
        match self {
            Event::TxRequest(_, _) => EventKind::TxRequest,
            Event::RxRequest(_) => EventKind::RxRequest,
            Event::PhyEvent(_) => EventKind::PhyEvent,
            Event::Timeout => EventKind::Timeout,
        }
    }

    pub open spec fn is_request(&self) -> bool {
        self is TxRequest || self is RxRequest
    }
}

/// The outcome of an event of kind `kind` in radio state `s`, given what the
/// driver answered: `sent` is what sending returned, `phy` what the driver made
/// of a physical-layer event and `cancel` what a cancellation returned.
pub open spec fn step(
    s: State,
    kind: EventKind,
    sent: Option<u32>,
    phy: Option<PhyResponse>,
    cancel: Result<(), PhyError>,
) -> (State, Result<Response, Error>) {
    match s {
        State::Idle => match kind {
            EventKind::TxRequest => match sent {
                Some(ms) => (State::Idle, Ok(Response::TxComplete(ms))),
                None => (State::Txing, Ok(Response::Txing)),
            },
            EventKind::RxRequest => (State::Rxing, Ok(Response::Rxing)),
            _ => (State::Idle, Err(Error::BadState)),
        },
        State::Txing => match kind {
            EventKind::PhyEvent => match phy {
                Some(PhyResponse::TxDone(ms)) => (State::Idle, Ok(Response::TxComplete(ms))),
                _ => (State::Txing, Ok(Response::Txing)),
            },
            EventKind::Timeout => match cancel {
                Ok(_) => (State::Idle, Ok(Response::Idle)),
                Err(e) => (State::Idle, Err(Error::PhyError(e))),
            },
            _ => (State::Txing, Err(Error::BadState)),
        },
        State::Rxing => match kind {
            EventKind::PhyEvent => match phy {
                Some(PhyResponse::RxDone(q)) => (State::Idle, Ok(Response::Rx(q))),
                _ => (State::Rxing, Ok(Response::Rxing)),
            },
            EventKind::Timeout => match cancel {
                Ok(_) => (State::Idle, Ok(Response::Idle)),
                Err(e) => (State::Idle, Err(Error::PhyError(e))),
            },
            _ => (State::Rxing, Err(Error::BadState)),
        },
    }
}

/// Maps what the driver answered to the next radio state and the response.
pub fn next_state(
    s: State,
    kind: EventKind,
    sent: Option<u32>,
    phy: Option<PhyResponse>,
    cancel: Result<(), PhyError>,
) -> (r: (State, Result<Response, Error>))
    ensures
        r == step(s, kind, sent, phy, cancel),
{
    match s {
        State::Idle => match kind {
            EventKind::TxRequest => match sent {
                Some(ms) => (State::Idle, Ok(Response::TxComplete(ms))),
                None => (State::Txing, Ok(Response::Txing)),
            },
            EventKind::RxRequest => (State::Rxing, Ok(Response::Rxing)),
            _ => (State::Idle, Err(Error::BadState)),
        },
        State::Txing => match kind {
            EventKind::PhyEvent => match phy {
                Some(PhyResponse::TxDone(ms)) => (State::Idle, Ok(Response::TxComplete(ms))),
                _ => (State::Txing, Ok(Response::Txing)),
            },
            EventKind::Timeout => match cancel {
                Ok(_) => (State::Idle, Ok(Response::Idle)),
                Err(e) => (State::Idle, Err(Error::PhyError(e))),
            },
            _ => (State::Txing, Err(Error::BadState)),
        },
        State::Rxing => match kind {
            EventKind::PhyEvent => match phy {
                Some(PhyResponse::RxDone(q)) => (State::Idle, Ok(Response::Rx(q))),
                _ => (State::Rxing, Ok(Response::Rxing)),
            },
            EventKind::Timeout => match cancel {
                Ok(_) => (State::Idle, Ok(Response::Idle)),
                Err(e) => (State::Idle, Err(Error::PhyError(e))),
            },
            _ => (State::Rxing, Err(Error::BadState)),
        },
    }
}

/// The radio state machine in front of a driver. It also records the last
/// configurations it handed to the driver.
#[derive(Debug, Clone, Copy)]
pub struct StateWrapper {
    radio_state: State,
    tx_config: Option<TxConfig>,
    rx_config: Option<RfConfig>,
}

impl StateWrapper {
    pub closed spec fn state(&self) -> State {
        self.radio_state
    }

    /// The configuration of the last transmission handed to the driver.
    pub closed spec fn tx_config(&self) -> Option<TxConfig> {
        self.tx_config
    }

    /// The configuration of the last reception handed to the driver.
    pub closed spec fn rx_config(&self) -> Option<RfConfig> {
        self.rx_config
    }

    pub fn default() -> (r: StateWrapper)
        ensures
            r.state() == State::Idle,
            r.tx_config() == None::<TxConfig>,
            r.rx_config() == None::<RfConfig>,
    {
        StateWrapper { radio_state: State::Idle, tx_config: None, rx_config: None }
    }

    pub fn get_state(&self) -> (r: State)
        ensures
            r == self.state(),
    {
        self.radio_state
    }

    pub fn get_tx_config(&self) -> (r: Option<TxConfig>)
        ensures
            r == self.tx_config(),
    {
        self.tx_config
    }

    pub fn get_rx_config(&self) -> (r: Option<RfConfig>)
        ensures
            r == self.rx_config(),
    {
        self.rx_config
    }

    /// Passes `event` to the driver where it is legal in the current state,
    /// then moves as `next_state` says for what the driver answered.
    pub fn handle_event<'a, R: PhyRxTx>(&mut self, radio: &mut R, event: Event<'a, R>) -> (r:
        Result<Response, Error>)
        ensures
            exists|sent: Option<u32>, phy: Option<PhyResponse>, cancel: Result<(), PhyError>|
                (final(self).state(), r) == step(old(self).state(), event.kind(), sent, phy, cancel),
            // a packet is reported only by a radio that was receiving
            r matches Ok(Response::Rx(_)) ==> old(self).state() == State::Rxing,
            r matches Ok(Response::TxComplete(_)) ==> old(self).state() == State::Txing || (old(
                self,
            ).state() == State::Idle && event is TxRequest),
            // reception starts only on a reception request while idle
            final(self).state() == State::Rxing ==> old(self).state() == State::Rxing || (old(
                self,
            ).state() == State::Idle && event is RxRequest),
            // a legal request is never refused
            old(self).state() == State::Idle && event.is_request() ==> r.is_ok(),
            // what the driver was configured with
            final(self).tx_config() == (match event {
                Event::TxRequest(c, _) => if old(self).state() == State::Idle {
                    Some(c)
                } else {
                    old(self).tx_config()
                },
                _ => old(self).tx_config(),
            }),
            final(self).rx_config() == (match event {
                Event::RxRequest(c) => if old(self).state() == State::Idle {
                    Some(c)
                } else {
                    old(self).rx_config()
                },
                _ => old(self).rx_config(),
            }),
    {
        let ghost ev = event;
        let mut sent: Option<u32> = None;
        let mut phy: Option<PhyResponse> = None;
        let mut cancel: Result<(), PhyError> = Ok(());
        let kind = match event {
            Event::TxRequest(config, buf) => {
                if self.radio_state == State::Idle {
                    radio.configure_tx(config);
                    sent = radio.send(buf);
                    self.tx_config = Some(config);
                }
                EventKind::TxRequest
            },
            Event::RxRequest(config) => {
                if self.radio_state == State::Idle {
                    radio.configure_rx(config);
                    radio.set_rx();
                    self.rx_config = Some(config);
                }
                EventKind::RxRequest
            },
            Event::PhyEvent(e) => {
                if self.radio_state != State::Idle {
                    phy = radio.handle_phy_event(e);
                }
                EventKind::PhyEvent
            },
            Event::Timeout => {
                if self.radio_state == State::Txing {
                    cancel = radio.cancel_tx();
                } else if self.radio_state == State::Rxing {
                    cancel = radio.cancel_rx();
                }
                EventKind::Timeout
            },
        };
        let (new_state, response) = next_state(self.radio_state, kind, sent, phy, cancel);
        self.radio_state = new_state;
        assert((self.radio_state, response) == step(old(self).state(), ev.kind(), sent, phy, cancel));
        response
    }
}

} // verus!
