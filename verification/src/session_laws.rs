//! What holds of a session whatever its engine answers.

use std::time::SystemTime;

use vstd::prelude::*;

use crate::error::{HybridAsrError, HybridAsrResult};
use crate::event::{
    AsrEvent, AsrStateChangeReason, AsrStateTransitionEvent, EventReceiver, HubModel, SessionEvent,
};
use crate::event_laws::{
    emitted_all, is_live, law_new_subscriber_is_live, law_readers_hear_everything_in_order, waiting,
};
use crate::session::{
    engine_call, failure_in, is_created, is_performed, EngineCall, SessionModel, SessionRequest,
};
use crate::types::AsrState;

verus! {

/// A change of state as an event.
pub open spec fn change(
    from: AsrState,
    to: AsrState,
    reason: AsrStateChangeReason,
    at: SystemTime,
) -> AsrEvent {
    AsrEvent::StateChanged(AsrStateTransitionEvent { from, to, reason, timestamp: at })
}

/// The change of state before the engine is called for a request, if there is one.
pub open spec fn change_before(request: SessionRequest, state: AsrState) -> Option<
    (AsrState, AsrStateChangeReason),
> {
    match request {
        SessionRequest::Start => Some(
            (AsrState::Initializing, AsrStateChangeReason::StartRequested),
        ),
        SessionRequest::Accept => if state == AsrState::Paused {
            None
        } else {
            Some((AsrState::Recognizing, AsrStateChangeReason::RecognitionRequested))
        },
        SessionRequest::Resume => Some(
            (AsrState::Recognizing, AsrStateChangeReason::ResumeRequested),
        ),
        SessionRequest::Finish => Some((AsrState::Finishing, AsrStateChangeReason::FinishRequested)),
        SessionRequest::Pause | SessionRequest::PrepareNextTurn | SessionRequest::Reset => None,
    }
}

/// The change of state after the engine has done what a request wanted, if there is one.
pub open spec fn change_after(request: SessionRequest) -> Option<(AsrState, AsrStateChangeReason)> {
    match request {
        SessionRequest::Start => Some((AsrState::Ready, AsrStateChangeReason::StartSucceeded)),
        SessionRequest::Pause => Some((AsrState::Paused, AsrStateChangeReason::PauseRequested)),
        SessionRequest::Finish => Some((AsrState::Finished, AsrStateChangeReason::FinishRequested)),
        SessionRequest::PrepareNextTurn => Some(
            (AsrState::Ready, AsrStateChangeReason::PrepareNextTurnRequested),
        ),
        SessionRequest::Reset => Some((AsrState::Ready, AsrStateChangeReason::ResetRequested)),
        SessionRequest::Accept | SessionRequest::Resume => None,
    }
}

/// What subscribers hear of a change, and of none.
pub open spec fn change_events(
    from: AsrState,
    to: Option<(AsrState, AsrStateChangeReason)>,
    at: SystemTime,
) -> Seq<AsrEvent> {
    match to {
        Some((to, reason)) => seq![change(from, to, reason, at)],
        None => Seq::empty(),
    }
}

/// The state that a change leads to; without one it stays.
pub open spec fn changed_state(
    from: AsrState,
    to: Option<(AsrState, AsrStateChangeReason)>,
) -> AsrState {
    match to {
        Some((to, _)) => to,
        None => from,
    }
}

/// What subscribers hear of an engine's error in the state `from`.
pub open spec fn error_events(from: AsrState, error: HybridAsrError, at: SystemTime) -> Seq<
    AsrEvent,
> {
    seq![
        change(from, AsrState::Error, AsrStateChangeReason::ErrorOccurred, at),
        AsrEvent::Error(error.message),
    ]
}

/// What subscribers hear of a request in a state.
pub open spec fn request_events(
    state: AsrState,
    request: SessionRequest,
    failure: Option<HybridAsrError>,
    begun: SystemTime,
    ended: SystemTime,
) -> Seq<AsrEvent> {
    let first = change_before(request, state);
    let between = changed_state(state, first);
    change_events(state, first, begun) + (if engine_call(request, state) is None {
        Seq::empty()
    } else {
        match failure {
            Some(error) => error_events(between, error, ended),
            None => change_events(between, change_after(request), ended),
        }
    })
}

/// The state that a request leads to.
pub open spec fn state_after(
    state: AsrState,
    request: SessionRequest,
    failure: Option<HybridAsrError>,
) -> AsrState {
    if engine_call(request, state) is None {
        changed_state(state, change_before(request, state))
    } else if failure is Some {
        AsrState::Error
    } else {
        changed_state(changed_state(state, change_before(request, state)), change_after(request))
    }
}

proof fn lemma_no_event(hub: HubModel)
    ensures
        emitted_all(hub, Seq::<AsrEvent>::empty()) == hub,
{
}

proof fn lemma_one_event(hub: HubModel, event: AsrEvent)
    ensures
        emitted_all(hub, seq![event]) == hub.emitted(event),
{
    assert(seq![event].drop_last() =~= Seq::<AsrEvent>::empty());
    assert(emitted_all(hub, Seq::<AsrEvent>::empty()) == hub);
}

proof fn lemma_more_events(hub: HubModel, first: Seq<AsrEvent>, second: Seq<AsrEvent>)
    ensures
        emitted_all(hub, first + second) == emitted_all(emitted_all(hub, first), second),
    decreases second.len(),
{
    if second.len() == 0 {
        assert(first + second =~= first);
    } else {
        lemma_more_events(hub, first, second.drop_last());
        assert((first + second).drop_last() =~= first + second.drop_last());
    }
}

proof fn lemma_change(
    before: SessionModel,
    to: Option<(AsrState, AsrStateChangeReason)>,
    at: SystemTime,
)
    ensures
        emitted_all(before.hub, change_events(before.state, to, at)) == (match to {
            Some((to, reason)) => before.moved(to, reason, at).hub,
            None => before.hub,
        }),
{
    match to {
        Some((to, reason)) => lemma_one_event(before.hub, change(before.state, to, reason, at)),
        None => lemma_no_event(before.hub),
    }
}

/// An engine's error leaves the session in the state `Error`, and subscribers hear of the change
/// and then of the message.
pub proof fn law_errors_lead_to_the_error_state(
    before: SessionModel,
    error: HybridAsrError,
    at: SystemTime,
)
    ensures
        before.failed(error, at).state == AsrState::Error,
        before.failed(error, at).hub == emitted_all(
            before.hub,
            error_events(before.state, error, at),
        ),
{
    let first = change(before.state, AsrState::Error, AsrStateChangeReason::ErrorOccurred, at);
    let second = AsrEvent::Error(error.message);
    lemma_one_event(before.hub, first);
    lemma_one_event(before.hub.emitted(first), second);
    lemma_more_events(before.hub, seq![first], seq![second]);
    assert(seq![first] + seq![second] =~= error_events(before.state, error, at));
}

/// A session is idle when it is made, and whoever subscribed to its hub before hears that it was.
pub proof fn law_session_begins_idle(
    hub: HubModel,
    after: SessionModel,
    message: String,
    at: SystemTime,
)
    requires
        is_created(hub, after, message, at),
    ensures
        after.state == AsrState::Idle,
        message@ == "ASR 会话已创建"@,
        after.hub == emitted_all(
            hub,
            seq![AsrEvent::Session(SessionEvent { message, timestamp: at })],
        ),
{
    lemma_one_event(hub, AsrEvent::Session(SessionEvent { message, timestamp: at }));
}

/// What a request does: the state that it leads to, and what subscribers hear of it. A start goes
/// through `Initializing` to `Ready`, audio leads to `Recognizing`, the end of a stream goes
/// through `Finishing` to `Finished`, and an engine's error leads to `Error` from wherever the
/// session is.
pub proof fn law_requests_are_told(
    before: SessionModel,
    after: SessionModel,
    request: SessionRequest,
    failure: Option<HybridAsrError>,
    begun: SystemTime,
    ended: SystemTime,
)
    requires
        is_performed(before, after, request, failure, begun, ended),
    ensures
        after.state == state_after(before.state, request, failure),
        after.hub == emitted_all(
            before.hub,
            request_events(before.state, request, failure, begun, ended),
        ),
{
    let first = change_before(request, before.state);
    let events = change_events(before.state, first, begun);
    let middle = before.begun(request, begun);
    lemma_change(before, first, begun);
    assert(middle.hub == emitted_all(before.hub, events));
    if engine_call(request, before.state) is None {
        assert(events + Seq::<AsrEvent>::empty() =~= events);
    } else {
        match failure {
            Some(error) => {
                law_errors_lead_to_the_error_state(middle, error, ended);
                lemma_more_events(before.hub, events, error_events(middle.state, error, ended));
            },
            None => {
                lemma_change(middle, change_after(request), ended);
                lemma_more_events(
                    before.hub,
                    events,
                    change_events(middle.state, change_after(request), ended),
                );
            },
        }
    }
}

/// The state in which a run of events leaves whoever follows its changes from `from` on, if every
/// change begins where the one before it ended; other events change nothing.
pub open spec fn chain_end(from: AsrState, events: Seq<AsrEvent>) -> Option<AsrState>
    decreases events.len(),
{
    if events.len() == 0 {
        Some(from)
    } else {
        match (chain_end(from, events.drop_last()), events.last()) {
            (Some(state), AsrEvent::StateChanged(change)) => if change.from == state {
                Some(change.to)
            } else {
                None
            },
            (state, _) => state,
        }
    }
}

proof fn lemma_chains_join(from: AsrState, first: Seq<AsrEvent>, second: Seq<AsrEvent>)
    requires
        chain_end(from, first) is Some,
    ensures
        chain_end(from, first + second) == chain_end(chain_end(from, first)->0, second),
    decreases second.len(),
{
    if second.len() == 0 {
        assert(first + second =~= first);
    } else {
        lemma_chains_join(from, first, second.drop_last());
        assert((first + second).drop_last() =~= first + second.drop_last());
    }
}

proof fn lemma_change_is_a_chain(
    from: AsrState,
    to: Option<(AsrState, AsrStateChangeReason)>,
    at: SystemTime,
)
    ensures
        chain_end(from, change_events(from, to, at)) == Some(changed_state(from, to)),
{
    reveal_with_fuel(chain_end, 2);
    if let Some((to, reason)) = to {
        assert(seq![change(from, to, reason, at)].drop_last() =~= Seq::<AsrEvent>::empty());
    }
}

proof fn lemma_error_is_a_chain(from: AsrState, error: HybridAsrError, at: SystemTime)
    ensures
        chain_end(from, error_events(from, error, at)) == Some(AsrState::Error),
{
    let first = change(from, AsrState::Error, AsrStateChangeReason::ErrorOccurred, at);
    lemma_change_is_a_chain(
        from,
        Some((AsrState::Error, AsrStateChangeReason::ErrorOccurred)),
        at,
    );
    assert(error_events(from, error, at).drop_last() =~= seq![first]);
}

proof fn lemma_request_is_a_chain(
    state: AsrState,
    request: SessionRequest,
    failure: Option<HybridAsrError>,
    begun: SystemTime,
    ended: SystemTime,
)
    ensures
        chain_end(state, request_events(state, request, failure, begun, ended)) == Some(
            state_after(state, request, failure),
        ),
{
    let first = change_before(request, state);
    let between = changed_state(state, first);
    let events = change_events(state, first, begun);
    lemma_change_is_a_chain(state, first, begun);
    if engine_call(request, state) is None {
        assert(events + Seq::<AsrEvent>::empty() =~= events);
    } else {
        match failure {
            Some(error) => {
                lemma_error_is_a_chain(between, error, ended);
                lemma_chains_join(state, events, error_events(between, error, ended));
            },
            None => {
                lemma_change_is_a_chain(between, change_after(request), ended);
                lemma_chains_join(
                    state,
                    events,
                    change_events(between, change_after(request), ended),
                );
            },
        }
    }
}

/// One request to a session, with the engine's error, if it answered with one, and the times.
pub struct PerformedRequest {
    pub request: SessionRequest,
    pub failure: Option<HybridAsrError>,
    pub begun: SystemTime,
    pub ended: SystemTime,
}

/// The session after a run of requests.
pub open spec fn after_requests(session: SessionModel, requests: Seq<PerformedRequest>) -> SessionModel
    decreases requests.len(),
{
    if requests.len() == 0 {
        session
    } else {
        let last = requests.last();
        after_requests(session, requests.drop_last()).performed(
            last.request,
            last.failure,
            last.begun,
            last.ended,
        )
    }
}

/// What subscribers hear of a run of requests in a state.
pub open spec fn events_of_requests(state: AsrState, requests: Seq<PerformedRequest>) -> Seq<AsrEvent>
    decreases requests.len(),
{
    if requests.len() == 0 {
        Seq::empty()
    } else {
        let earlier = requests.drop_last();
        let last = requests.last();
        events_of_requests(state, earlier) + request_events(
            state_of_requests(state, earlier),
            last.request,
            last.failure,
            last.begun,
            last.ended,
        )
    }
}

/// The state that a run of requests leads to.
pub open spec fn state_of_requests(state: AsrState, requests: Seq<PerformedRequest>) -> AsrState
    decreases requests.len(),
{
    if requests.len() == 0 {
        state
    } else {
        state_after(
            state_of_requests(state, requests.drop_last()),
            requests.last().request,
            requests.last().failure,
        )
    }
}

proof fn lemma_requests_are_told(session: SessionModel, requests: Seq<PerformedRequest>)
    ensures
        after_requests(session, requests).state == state_of_requests(session.state, requests),
        after_requests(session, requests).hub == emitted_all(
            session.hub,
            events_of_requests(session.state, requests),
        ),
        chain_end(session.state, events_of_requests(session.state, requests)) == Some(
            state_of_requests(session.state, requests),
        ),
    decreases requests.len(),
{
    if requests.len() == 0 {
        lemma_no_event(session.hub);
    } else {
        let earlier = requests.drop_last();
        let last = requests.last();
        let before = after_requests(session, earlier);
        let events = request_events(
            before.state,
            last.request,
            last.failure,
            last.begun,
            last.ended,
        );
        lemma_requests_are_told(session, earlier);
        law_requests_are_told(
            before,
            after_requests(session, requests),
            last.request,
            last.failure,
            last.begun,
            last.ended,
        );
        lemma_more_events(session.hub, events_of_requests(session.state, earlier), events);
        lemma_request_is_a_chain(
            before.state,
            last.request,
            last.failure,
            last.begun,
            last.ended,
        );
        lemma_chains_join(session.state, events_of_requests(session.state, earlier), events);
    }
}

/// Whatever a session is asked, and whatever its engine answers: a live reader that takes nothing
/// meanwhile stays live and finds, behind what waited for it before, a run of events whose changes
/// form a chain from the state in which the session was to the state in which it is.
pub proof fn law_changes_form_a_chain(
    session: SessionModel,
    requests: Seq<PerformedRequest>,
    receiver: EventReceiver,
)
    requires
        !session.hub.closed,
        is_live(session.hub, receiver),
    ensures
        !after_requests(session, requests).hub.closed,
        is_live(after_requests(session, requests).hub, receiver),
        waiting(after_requests(session, requests).hub, receiver) == waiting(session.hub, receiver)
            + events_of_requests(session.state, requests),
        chain_end(session.state, events_of_requests(session.state, requests)) == Some(
            after_requests(session, requests).state,
        ),
{
    lemma_requests_are_told(session, requests);
    law_readers_hear_everything_in_order(
        session.hub,
        events_of_requests(session.state, requests),
        receiver,
    );
}

/// Whoever subscribes to a session that has just been made gets a chain of changes from `Idle` to
/// the state of the session.
pub proof fn law_subscribers_follow_from_idle(
    hub: HubModel,
    created: SessionModel,
    message: String,
    at: SystemTime,
    receiver: EventReceiver,
    requests: Seq<PerformedRequest>,
)
    requires
        !hub.closed,
        is_created(hub, created, message, at),
        receiver.hub() == created.hub.id,
        receiver.slot() == created.hub.free_slot(),
    ensures
        ({
            let subscribed = SessionModel { hub: created.hub.subscribed(), ..created };
            let after = after_requests(subscribed, requests);
            chain_end(AsrState::Idle, waiting(after.hub, receiver)) == Some(after.state)
        }),
{
    let subscribed = SessionModel { hub: created.hub.subscribed(), ..created };
    law_new_subscriber_is_live(created.hub, receiver);
    law_changes_form_a_chain(subscribed, requests, receiver);
    assert(Seq::<AsrEvent>::empty() + events_of_requests(AsrState::Idle, requests)
        =~= events_of_requests(AsrState::Idle, requests));
}

/// A session can go on after a turn: once it has finished one and is ready for the next, audio
/// leads to `Recognizing` again, as it did in the first turn.
pub proof fn law_turns_can_follow_each_other(state: AsrState)
    ensures
        state_after(state, SessionRequest::Finish, None) == AsrState::Finished,
        state_after(AsrState::Finished, SessionRequest::PrepareNextTurn, None) == AsrState::Ready,
        state_after(AsrState::Ready, SessionRequest::Accept, None) == AsrState::Recognizing,
{
}

/// A session that was paused takes audio again once it is resumed, and none before.
pub proof fn law_pause_and_resume(state: AsrState)
    ensures
        state_after(state, SessionRequest::Pause, None) == AsrState::Paused,
        engine_call(SessionRequest::Accept, AsrState::Paused) is None,
        state_after(AsrState::Paused, SessionRequest::Accept, None) == AsrState::Paused,
        state_after(AsrState::Paused, SessionRequest::Resume, None) == AsrState::Recognizing,
        engine_call(SessionRequest::Accept, AsrState::Recognizing) is Some,
{
}

/// The calls into the engine that requests lead to: each request has its own, a pause resets the
/// engine, audio is handed on in every state but `Paused`, and a resumption is no matter of the
/// engine.
pub proof fn law_requests_lead_to_their_calls(state: AsrState)
    ensures
        engine_call(SessionRequest::Start, state) == Some(EngineCall::Start),
        engine_call(SessionRequest::Pause, state) == Some(EngineCall::Reset),
        engine_call(SessionRequest::Reset, state) == Some(EngineCall::Reset),
        engine_call(SessionRequest::Finish, state) == Some(EngineCall::Finish),
        engine_call(SessionRequest::PrepareNextTurn, state) == Some(EngineCall::PrepareNextTurn),
        engine_call(SessionRequest::Resume, state) is None,
        state != AsrState::Paused ==> engine_call(SessionRequest::Accept, state) == Some(
            EngineCall::Accept,
        ),
        state == AsrState::Paused ==> engine_call(SessionRequest::Accept, state) is None,
{
}

/// What is told before the engine is called, and what once it has answered.
pub proof fn law_steps_are_told(
    before: SessionModel,
    request: SessionRequest,
    failure: Option<HybridAsrError>,
    at: SystemTime,
)
    ensures
        before.begun(request, at).state == changed_state(
            before.state,
            change_before(request, before.state),
        ),
        before.begun(request, at).hub == emitted_all(
            before.hub,
            change_events(before.state, change_before(request, before.state), at),
        ),
        before.completed(request, failure, at).state == if failure is Some {
            AsrState::Error
        } else {
            changed_state(before.state, change_after(request))
        },
        before.completed(request, failure, at).hub == emitted_all(
            before.hub,
            match failure {
                Some(error) => error_events(before.state, error, at),
                None => change_events(before.state, change_after(request), at),
            },
        ),
{
    lemma_change(before, change_before(request, before.state), at);
    lemma_change(before, change_after(request), at);
    if let Some(error) = failure {
        law_errors_lead_to_the_error_state(before, error, at);
    }
}

/// An engine's answer decides where a request leads: any error to the state `Error`, with exactly its
/// message as the last thing that subscribers hear, and any other answer to where the request was
/// meant to lead.
pub proof fn law_answers_decide<R>(
    before: SessionModel,
    after: SessionModel,
    request: SessionRequest,
    outcome: HybridAsrResult<R>,
    begun: SystemTime,
    ended: SystemTime,
)
    requires
        is_performed(before, after, request, failure_in(outcome), begun, ended),
        request == SessionRequest::Accept ==> before.state != AsrState::Paused,
        request != SessionRequest::Resume,
    ensures
        outcome is Ok ==> after.state == (match request {
            SessionRequest::Accept => AsrState::Recognizing,
            SessionRequest::Pause => AsrState::Paused,
            SessionRequest::Finish => AsrState::Finished,
            _ => AsrState::Ready,
        }),
        outcome matches Err(error) ==> after.state == AsrState::Error && exists|hub: HubModel|
            after.hub == #[trigger] hub.emitted(AsrEvent::Error(error.message)),
{
    if let Err(error) = outcome {
        let middle = before.begun(request, begun).moved(
            AsrState::Error,
            AsrStateChangeReason::ErrorOccurred,
            ended,
        );
        assert(after.hub == middle.hub.emitted(AsrEvent::Error(error.message)));
    }
}

} // verus!
