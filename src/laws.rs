use vstd::prelude::*;
use crate::radio::PhyRxTx;
use crate::session::{self, downlink_accepted, frame_fcnt};
use crate::types::SessionData;
use crate::{transition, DeviceView, Error, Event, Phase, Response};

verus! {

/// Every uplink that goes out is counted: `fcnt_up` after it is `fcnt_up`
/// before it plus one.
pub proof fn lemma_uplink_counts<'a, R: PhyRxTx>(
    before: DeviceView,
    event: Event<'a, R>,
    after: DeviceView,
    r: Result<Response, Error>,
)
    requires
        before.phase == Phase::SessionIdle,
        before.session is Some,
        event is SendData,
        transition(before, event, after, r),
        r is Ok,
    ensures
        after.session matches Some(t) && t.spec_fcnt_up() == before.session.unwrap().spec_fcnt_up()
            + 1,
{
}

/// An uplink that cannot be assembled leaves the buffer empty and the
/// session, with its counter, as it was.
pub proof fn lemma_assembly_failure<'a, R: PhyRxTx>(
    before: DeviceView,
    event: Event<'a, R>,
    after: DeviceView,
    r: Result<Response, Error>,
)
    requires
        before.phase == Phase::SessionIdle,
        before.session is Some,
        event is SendData,
        transition(before, event, after, r),
        r is Err,
    ensures
        after.buffer.len() == 0,
        after.session == before.session,
{
}

/// An admitted downlink sets `fcnt_down` to its counter, which is higher than
/// the previous `fcnt_down` unless it is 0, the network's counter reset.
pub proof fn lemma_downlink_counter<'a, R: PhyRxTx>(
    before: DeviceView,
    event: Event<'a, R>,
    after: DeviceView,
    r: Result<Response, Error>,
)
    requires
        transition(before, event, after, r),
        r matches Ok(Response::DataDown(_)),
    ensures
        match r {
            Ok(Response::DataDown(f)) => {
                &&& after.session matches Some(t) && t.spec_fcnt_down() == f
                &&& f > 0 ==> f > before.session.unwrap().spec_fcnt_down()
            },
            _ => false,
        },
{
    if before.phase == Phase::WaitingForRx && event is RadioEvent {
        let (frame, mic_valid) = choose|frame: Seq<u8>, mic_valid: bool|
            #[trigger] session::admitted(
                DeviceView { radio: crate::radio::State::Idle, ..before },
                frame,
                mic_valid,
                after,
                r,
            );
    }
}

/// A downlink whose counter equals a non-zero `fcnt_down` is a replay and is
/// never admitted, whatever its MIC.
pub proof fn lemma_replay_rejected(session: SessionData, frame: Seq<u8>, mic_valid: bool)
    requires
        frame_fcnt(frame) == session.spec_fcnt_down(),
        session.spec_fcnt_down() != 0,
    ensures
        !downlink_accepted(session, frame, mic_valid),
{
}

/// In the joining idle state a timeout is a retry: it does exactly what
/// `NewSession` does.
pub proof fn lemma_timeout_retries_join<'a, R: PhyRxTx>(
    before: DeviceView,
    after: DeviceView,
    r: Result<Response, Error>,
)
    requires
        before.phase == Phase::JoinIdle,
    ensures
        transition(before, Event::<'a, R>::Timeout, after, r) == transition(
            before,
            Event::<'a, R>::NewSession,
            after,
            r,
        ),
{
}

/// In the joined idle state a timeout changes nothing and answers `Idle`.
pub proof fn lemma_session_idle_ignores_timeout<'a, R: PhyRxTx>(
    before: DeviceView,
    after: DeviceView,
    r: Result<Response, Error>,
)
    requires
        before.phase == Phase::SessionIdle,
        transition(before, Event::<'a, R>::Timeout, after, r),
    ensures
        after == before,
        r == Ok::<Response, Error>(Response::Idle),
{
}

} // verus!
