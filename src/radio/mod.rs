use vstd::prelude::*;

mod state_machine;
mod types;

pub use state_machine::{next_state, step, Error, Event, EventKind, Response, State, StateWrapper};
pub use types::{Bandwidth, CodingRate, RfConfig, RxQuality, SpreadingFactor, TxConfig};

verus! {

/// What the driver reports after digesting a physical-layer event.
#[derive(Debug, Clone, Copy, PartialEq, Eq, Structural)]
pub enum PhyResponse {
    Busy,
    TxDone(u32),
    RxDone(RxQuality),
    TxError,
    RxError,
}

#[derive(Debug, Clone, Copy, PartialEq, Eq, Structural)]
pub enum PhyError {
    TxError,
    RxError,
}

/// The radio transceiver, implemented by the host for its silicon.
/// All operations are non-blocking.
pub trait PhyRxTx {
    type PhyEvent;

    /// Starts sending `buffer`. A driver that sends synchronously returns the
    /// time at which the transmission ended; one that sends asynchronously
    /// returns `None` and later reports `TxDone` from `handle_phy_event`.
    fn send(&mut self, buffer: &[u8]) -> Option<u32>;

    /// The buffer that holds the last received packet.
    fn get_received_packet(&mut self) -> &mut Vec<u8>;

    fn cancel_tx(&mut self) -> Result<(), PhyError>;

    fn cancel_rx(&mut self) -> Result<(), PhyError>;

    fn configure_tx(&mut self, config: TxConfig);

    fn configure_rx(&mut self, config: RfConfig);

    fn set_rx(&mut self);

    fn handle_phy_event(&mut self, event: Self::PhyEvent) -> Option<PhyResponse>;
}

} // verus!
