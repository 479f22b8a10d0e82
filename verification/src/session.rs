//! The life of a recognition session: its states, and the events that tell of them.

use std::time::SystemTime;

use vstd::prelude::*;

use crate::backend::RealtimeAsrBackend;
use crate::error::{HybridAsrError, HybridAsrResult};
use crate::event::{
    AsrEvent, AsrStateChangeReason, AsrStateTransitionEvent, EventHub, EventReceiver, HubModel,
    ReceiveError, SessionEvent,
};
use crate::types::{AsrResult, AsrState};

verus! {

/// What subscribers are told when a session has been made.
pub const SESSION_CREATED: &'static str = "ASR 会话已创建";

/// What a session can be asked for.
#[derive(Clone, Copy, Debug, PartialEq, Eq, Structural)]
pub enum SessionRequest {
    Start,
    /// Take audio.
    Accept,
    Pause,
    Resume,
    Finish,
    PrepareNextTurn,
    Reset,
}

/// The call into the engine that a request leads to.
#[derive(Clone, Copy, Debug, PartialEq, Eq, Structural)]
pub enum EngineCall {
    Start,
    Accept,
    Reset,
    PrepareNextTurn,
    Finish,
}

/// The call into the engine that a request leads to in a state, if it leads to one: a paused
/// session drops audio, and a resumption is no matter of the engine.
pub open spec fn engine_call(request: SessionRequest, state: AsrState) -> Option<EngineCall> {
    match request {
        SessionRequest::Start => Some(EngineCall::Start),
        SessionRequest::Accept => if state == AsrState::Paused {
            None
        } else {
            Some(EngineCall::Accept)
        },
        SessionRequest::Pause | SessionRequest::Reset => Some(EngineCall::Reset),
        SessionRequest::Resume => None,
        SessionRequest::Finish => Some(EngineCall::Finish),
        SessionRequest::PrepareNextTurn => Some(EngineCall::PrepareNextTurn),
    }
}

/// The error in an engine's answer, if it is one.
pub open spec fn failure_in<R>(outcome: HybridAsrResult<R>) -> Option<HybridAsrError> {
    match outcome {
        Ok(_) => None,
        Err(error) => Some(error),
    }
}

/// The state of a session together with its event hub.
#[verifier::ext_equal]
pub struct SessionModel {
    pub state: AsrState,
    pub hub: HubModel,
}

impl SessionModel {
    /// The session after a change of state, which its subscribers hear of.
    pub open spec fn moved(
        self,
        to: AsrState,
        reason: AsrStateChangeReason,
        at: SystemTime,
    ) -> SessionModel {
        let change = AsrStateTransitionEvent { from: self.state, to, reason, timestamp: at };
        SessionModel { state: to, hub: self.hub.emitted(AsrEvent::StateChanged(change)) }
    }

    /// The session after an engine's error: the state is `Error`, and its subscribers hear of
    /// the change first and then of the message.
    pub open spec fn failed(self, error: HybridAsrError, at: SystemTime) -> SessionModel {
        let moved = self.moved(AsrState::Error, AsrStateChangeReason::ErrorOccurred, at);
        SessionModel { hub: moved.hub.emitted(AsrEvent::Error(error.message)), ..moved }
    }

    /// The session before the engine is called for a request.
    pub open spec fn begun(self, request: SessionRequest, at: SystemTime) -> SessionModel {
        match request {
            SessionRequest::Start => self.moved(
                AsrState::Initializing,
                AsrStateChangeReason::StartRequested,
                at,
            ),
            SessionRequest::Accept => if self.state == AsrState::Paused {
                self
            } else {
                self.moved(AsrState::Recognizing, AsrStateChangeReason::RecognitionRequested, at)
            },
            SessionRequest::Resume => self.moved(
                AsrState::Recognizing,
                AsrStateChangeReason::ResumeRequested,
                at,
            ),
            SessionRequest::Finish => self.moved(
                AsrState::Finishing,
                AsrStateChangeReason::FinishRequested,
                at,
            ),
            SessionRequest::Pause | SessionRequest::PrepareNextTurn | SessionRequest::Reset => self,
        }
    }

    /// The session after the engine has done what a request wanted.
    pub open spec fn succeeded(self, request: SessionRequest, at: SystemTime) -> SessionModel {
        match request {
            SessionRequest::Start => self.moved(
                AsrState::Ready,
                AsrStateChangeReason::StartSucceeded,
                at,
            ),
            SessionRequest::Pause => self.moved(
                AsrState::Paused,
                AsrStateChangeReason::PauseRequested,
                at,
            ),
            SessionRequest::Finish => self.moved(
                AsrState::Finished,
                AsrStateChangeReason::FinishRequested,
                at,
            ),
            SessionRequest::PrepareNextTurn => self.moved(
                AsrState::Ready,
                AsrStateChangeReason::PrepareNextTurnRequested,
                at,
            ),
            SessionRequest::Reset => self.moved(
                AsrState::Ready,
                AsrStateChangeReason::ResetRequested,
                at,
            ),
            SessionRequest::Accept | SessionRequest::Resume => self,
        }
    }

    /// The session after the engine has answered.
    pub open spec fn completed(
        self,
        request: SessionRequest,
        failure: Option<HybridAsrError>,
        at: SystemTime,
    ) -> SessionModel {
        match failure {
            Some(error) => self.failed(error, at),
            None => self.succeeded(request, at),
        }
    }

    /// The session after a request as a whole. `failure` is the error with which the engine
    /// answered, where it was called and failed.
    pub open spec fn performed(
        self,
        request: SessionRequest,
        failure: Option<HybridAsrError>,
        begun: SystemTime,
        ended: SystemTime,
    ) -> SessionModel {
        if engine_call(request, self.state) is Some {
            self.begun(request, begun).completed(request, failure, ended)
        } else {
            self.begun(request, begun)
        }
    }

    pub open spec fn told(self, event: AsrEvent) -> SessionModel {
        SessionModel { hub: self.hub.emitted(event), ..self }
    }
}

/// Whether `after` is a session made over `hub`: idle, and announced.
pub open spec fn is_created(hub: HubModel, after: SessionModel, message: String, at: SystemTime) -> bool {
    &&& message@ == SESSION_CREATED@
    &&& after == (SessionModel { state: AsrState::Idle, hub }).told(
        AsrEvent::Session(SessionEvent { message, timestamp: at }),
    )
}

/// Whether `after` follows from `before` by a request to which the engine, if it was called,
/// answered with `failure` or with success.
pub open spec fn is_performed(
    before: SessionModel,
    after: SessionModel,
    request: SessionRequest,
    failure: Option<HybridAsrError>,
    begun: SystemTime,
    ended: SystemTime,
) -> bool {
    after == before.performed(request, failure, begun, ended)
}

/// The states of a session, and what its subscribers hear of each step.
///
/// The steps before and after a call into the engine stand apart, so that nothing has to be held
/// while the engine works: `begin` says which call to make, and `complete` takes its answer. An
/// answer that nobody waits for changes nothing.
pub struct SessionLifecycle {
    state: AsrState,
    pending: Option<SessionRequest>,
}

impl SessionLifecycle {
    pub closed spec fn state_model(self) -> AsrState {
        self.state
    }

    /// The request whose engine call is under way.
    pub closed spec fn awaited(self) -> Option<SessionRequest> {
        self.pending
    }

    pub open spec fn with(self, hub: EventHub) -> SessionModel {
        SessionModel { state: self.state_model(), hub: hub@ }
    }

    /// The lifecycle of a session that nothing has happened to.
    pub fn new() -> (lifecycle: Self)
        ensures
            lifecycle.state_model() == AsrState::Idle,
            lifecycle.awaited() is None,
    {
        SessionLifecycle { state: AsrState::Idle, pending: None }
    }

    /// The current state.
    pub fn state(&self) -> (state: AsrState)
        ensures
            state == self.state_model(),
    {
        self.state
    }

    /// Tells subscribers something about the session.
    pub fn publish_session_event(&self, hub: &mut EventHub, message: String, at: SystemTime)
        ensures
            self.with(*final(hub)) == self.with(*old(hub)).told(
                AsrEvent::Session(SessionEvent { message, timestamp: at }),
            ),
    {
        hub.emit(AsrEvent::Session(SessionEvent { message, timestamp: at }));
    }

    fn transition_state(
        &mut self,
        hub: &mut EventHub,
        to: AsrState,
        reason: AsrStateChangeReason,
        at: SystemTime,
    )
        ensures
            final(self).with(*final(hub)) == old(self).with(*old(hub)).moved(to, reason, at),
            final(self).awaited() == old(self).awaited(),
    {
        let from: AsrState = self.state;
        self.state = to;
        hub.emit(
            AsrEvent::StateChanged(AsrStateTransitionEvent { from, to, reason, timestamp: at }),
        );
    }

    fn handle_error(
        &mut self,
        hub: &mut EventHub,
        error: HybridAsrError,
        at: SystemTime,
    ) -> (same: HybridAsrError)
        ensures
            same == error,
            final(self).with(*final(hub)) == old(self).with(*old(hub)).failed(error, at),
            final(self).awaited() == old(self).awaited(),
    {
        let message: String = error.message.clone();
        self.transition_state(hub, AsrState::Error, AsrStateChangeReason::ErrorOccurred, at);
        hub.emit(AsrEvent::Error(message));
        error
    }

    /// Takes a request and says which call into the engine it leads to, if it leads to one.
    pub fn begin(&mut self, hub: &mut EventHub, request: SessionRequest, at: SystemTime) -> (call:
        Option<EngineCall>)
        ensures
            call == engine_call(request, old(self).state_model()),
            final(self).with(*final(hub)) == old(self).with(*old(hub)).begun(request, at),
            final(self).awaited() == if call is Some {
                Some(request)
            } else {
                None
            },
    {
        let call: Option<EngineCall> = match request {
            SessionRequest::Start => {
                self.transition_state(
                    hub,
                    AsrState::Initializing,
                    AsrStateChangeReason::StartRequested,
                    at,
                );
                Some(EngineCall::Start)
            },
            SessionRequest::Accept => {
                if self.state == AsrState::Paused {
                    None
                } else {
                    self.transition_state(
                        hub,
                        AsrState::Recognizing,
                        AsrStateChangeReason::RecognitionRequested,
                        at,
                    );
                    Some(EngineCall::Accept)
                }
            },
            SessionRequest::Pause => Some(EngineCall::Reset),
            SessionRequest::Resume => {
                self.transition_state(
                    hub,
                    AsrState::Recognizing,
                    AsrStateChangeReason::ResumeRequested,
                    at,
                );
                None
            },
            SessionRequest::Finish => {
                self.transition_state(
                    hub,
                    AsrState::Finishing,
                    AsrStateChangeReason::FinishRequested,
                    at,
                );
                Some(EngineCall::Finish)
            },
            SessionRequest::PrepareNextTurn => Some(EngineCall::PrepareNextTurn),
            SessionRequest::Reset => Some(EngineCall::Reset),
        };
        self.pending = if call.is_some() {
            Some(request)
        } else {
            None
        };
        call
    }

    fn succeed(&mut self, hub: &mut EventHub, request: SessionRequest, at: SystemTime)
        ensures
            final(self).with(*final(hub)) == old(self).with(*old(hub)).succeeded(request, at),
            final(self).awaited() == old(self).awaited(),
    {
        match request {
            SessionRequest::Start => self.transition_state(
                hub,
                AsrState::Ready,
                AsrStateChangeReason::StartSucceeded,
                at,
            ),
            SessionRequest::Pause => self.transition_state(
                hub,
                AsrState::Paused,
                AsrStateChangeReason::PauseRequested,
                at,
            ),
            SessionRequest::Finish => self.transition_state(
                hub,
                AsrState::Finished,
                AsrStateChangeReason::FinishRequested,
                at,
            ),
            SessionRequest::PrepareNextTurn => self.transition_state(
                hub,
                AsrState::Ready,
                AsrStateChangeReason::PrepareNextTurnRequested,
                at,
            ),
            SessionRequest::Reset => self.transition_state(
                hub,
                AsrState::Ready,
                AsrStateChangeReason::ResetRequested,
                at,
            ),
            SessionRequest::Accept => {},
            SessionRequest::Resume => {},
        }
    }

    /// Takes the engine's answer to the call that `begin` asked for, and hands it on.
    pub fn complete<R>(
        &mut self,
        hub: &mut EventHub,
        outcome: HybridAsrResult<R>,
        at: SystemTime,
    ) -> (same: HybridAsrResult<R>)
        ensures
            same == outcome,
            final(self).awaited() is None,
            final(self).with(*final(hub)) == (match old(self).awaited() {
                Some(request) => old(self).with(*old(hub)).completed(
                    request,
                    failure_in(outcome),
                    at,
                ),
                None => old(self).with(*old(hub)),
            }),
    {
        let awaited: Option<SessionRequest> = self.pending.take();
        match (awaited, outcome) {
            (None, outcome) => outcome,
            (Some(request), Ok(value)) => {
                self.succeed(hub, request, at);
                Ok(value)
            },
            (Some(_), Err(error)) => Err(self.handle_error(hub, error, at)),
        }
    }
}

/// Why a session could not be made, with the event hub that it was to have, closed.
#[derive(Debug)]
pub struct SessionRefusal {
    pub error: HybridAsrError,
    pub event_hub: EventHub,
}

/// A session that owns one engine and is reused over several turns.
///
/// `finish` ends the session, while `prepare_next_turn` keeps the engine warm.
pub struct HybridAsrSession<B: RealtimeAsrBackend> {
    backend: B,
    lifecycle: SessionLifecycle,
    event_hub: EventHub,
}

impl<B: RealtimeAsrBackend> View for HybridAsrSession<B> {
    type V = SessionModel;

    closed spec fn view(&self) -> SessionModel {
        self.lifecycle.with(self.event_hub)
    }
}

impl<B: RealtimeAsrBackend> HybridAsrSession<B> {
    pub closed spec fn engine(self) -> B {
        self.backend
    }

    /// A session over an engine that may have failed to come up, with an event hub of its own.
    pub fn new(backend: HybridAsrResult<B>) -> (made: HybridAsrResult<Self>)
        ensures
            made matches Err(error) ==> backend matches Err(cause) && error == cause,
            backend is Ok ==> made is Ok,
            made matches Ok(session) ==> {
                &&& backend matches Ok(engine) && session.engine() == engine
                &&& exists|message: String, at: SystemTime|
                    #[trigger] is_created(HubModel::fresh(0), session@, message, at)
            },
    {
        match Self::new_with_event_hub(backend, EventHub::default()) {
            Ok(session) => Ok(session),
            Err(refusal) => Err(refusal.error),
        }
    }

    /// A session over an engine that may have failed to come up, with a hub that may already have
    /// subscribers.
    ///
    /// Where the engine failed the hub is closed, so that no reader waits for a session that will
    /// never be.
    pub fn new_with_event_hub(backend: HybridAsrResult<B>, event_hub: EventHub) -> (made: Result<
        Self,
        SessionRefusal,
    >)
        ensures
            made matches Err(refusal) ==> {
                &&& backend matches Err(cause) && refusal.error == cause
                &&& refusal.event_hub@ == event_hub@.shut()
            },
            backend is Ok ==> made is Ok,
            made matches Ok(session) ==> {
                &&& backend matches Ok(engine) && session.engine() == engine
                &&& exists|message: String, at: SystemTime|
                    #[trigger] is_created(event_hub@, session@, message, at)
            },
    {
        let mut event_hub: EventHub = event_hub;
        match backend {
            Ok(backend) => Ok(Self::announced(backend, event_hub)),
            Err(error) => {
                event_hub.close();
                Err(SessionRefusal { error, event_hub })
            },
        }
    }

    /// A session over `backend`, with an event hub of its own.
    pub fn new_with_backend(backend: B) -> (session: Self)
        ensures
            session.engine() == backend,
            exists|message: String, at: SystemTime|
                #[trigger] is_created(HubModel::fresh(0), session@, message, at),
    {
        Self::announced(backend, EventHub::default())
    }

    fn announced(backend: B, event_hub: EventHub) -> (session: Self)
        ensures
            session.engine() == backend,
            exists|message: String, at: SystemTime|
                #[trigger] is_created(event_hub@, session@, message, at),
    {
        let ghost hub = event_hub@;
        let mut session: Self = HybridAsrSession {
            backend,
            lifecycle: SessionLifecycle::new(),
            event_hub,
        };
        let message: String = SESSION_CREATED.to_owned();
        let at: SystemTime = SystemTime::now();
        let ghost text = message;
        session.lifecycle.publish_session_event(&mut session.event_hub, message, at);
        proof {
            assert(is_created(hub, session@, text, at));
        }
        session
    }

    /// Subscribes to the events of the session.
    pub fn subscribe_events(&mut self) -> (receiver: EventReceiver)
        ensures
            receiver.hub() == old(self)@.hub.id,
            receiver.slot() == old(self)@.hub.free_slot(),
            final(self)@ == (SessionModel { hub: old(self)@.hub.subscribed(), ..old(self)@ }),
            final(self).engine() == old(self).engine(),
    {
        self.event_hub.subscribe()
    }

    /// The next event that waits for `receiver`.
    pub fn receive_event(&mut self, receiver: &EventReceiver) -> (next: Result<
        AsrEvent,
        ReceiveError,
    >)
        ensures
            next == old(self)@.hub.answer(*receiver),
            final(self)@ == (SessionModel { hub: old(self)@.hub.taken(*receiver), ..old(self)@ }),
            final(self).engine() == old(self).engine(),
    {
        self.event_hub.try_receive(receiver)
    }

    /// Starts the engine.
    pub fn start(&mut self) -> (outcome: HybridAsrResult<()>)
        ensures
            B::start_call(old(self).engine(), final(self).engine(), outcome),
            exists|begun: SystemTime, ended: SystemTime|
                #[trigger] is_performed(
                    old(self)@,
                    final(self)@,
                    SessionRequest::Start,
                    failure_in(outcome),
                    begun,
                    ended,
                ),
    {
        let begun: SystemTime = SystemTime::now();
        let _ = self.lifecycle.begin(&mut self.event_hub, SessionRequest::Start, begun);
        let outcome: HybridAsrResult<()> = self.backend.start();
        let ended: SystemTime = SystemTime::now();
        let same: HybridAsrResult<()> = self.lifecycle.complete(
            &mut self.event_hub,
            outcome,
            ended,
        );
        proof {
            assert(is_performed(
                old(self)@,
                self@,
                SessionRequest::Start,
                failure_in(same),
                begun,
                ended,
            ));
        }
        same
    }

    /// Hands audio to the engine. A paused session drops it.
    pub fn accept_samples(&mut self, samples: &[B::Sample]) -> (outcome: HybridAsrResult<
        Vec<AsrResult<B::Time>>,
    >)
        ensures
            old(self)@.state == AsrState::Paused ==> {
                &&& outcome matches Ok(results) && results@.len() == 0
                &&& final(self)@ == old(self)@
                &&& final(self).engine() == old(self).engine()
            },
            old(self)@.state != AsrState::Paused ==> B::accept_call(
                old(self).engine(),
                samples@,
                final(self).engine(),
                outcome,
            ),
            exists|begun: SystemTime, ended: SystemTime|
                #[trigger] is_performed(
                    old(self)@,
                    final(self)@,
                    SessionRequest::Accept,
                    failure_in(outcome),
                    begun,
                    ended,
                ),
    {
        let begun: SystemTime = SystemTime::now();
        if self.lifecycle.begin(&mut self.event_hub, SessionRequest::Accept, begun).is_none() {
            proof {
                assert(is_performed(
                    old(self)@,
                    self@,
                    SessionRequest::Accept,
                    None,
                    begun,
                    begun,
                ));
            }
            return Ok(Vec::new());
        }
        let outcome: HybridAsrResult<Vec<AsrResult<B::Time>>> = self.backend.accept_samples(
            samples,
        );
        let ended: SystemTime = SystemTime::now();
        let same: HybridAsrResult<Vec<AsrResult<B::Time>>> = self.lifecycle.complete(
            &mut self.event_hub,
            outcome,
            ended,
        );
        proof {
            assert(is_performed(
                old(self)@,
                self@,
                SessionRequest::Accept,
                failure_in(same),
                begun,
                ended,
            ));
        }
        same
    }

    /// Drops what the engine has buffered, and takes no audio until resumed.
    pub fn pause(&mut self) -> (outcome: HybridAsrResult<()>)
        ensures
            B::reset_call(old(self).engine(), final(self).engine(), outcome),
            exists|begun: SystemTime, ended: SystemTime|
                #[trigger] is_performed(
                    old(self)@,
                    final(self)@,
                    SessionRequest::Pause,
                    failure_in(outcome),
                    begun,
                    ended,
                ),
    {
        self.reset_for(SessionRequest::Pause)
    }

    /// Resets the engine for a request that asks for it.
    fn reset_for(&mut self, request: SessionRequest) -> (outcome: HybridAsrResult<()>)
        requires
            request == SessionRequest::Pause || request == SessionRequest::Reset,
        ensures
            B::reset_call(old(self).engine(), final(self).engine(), outcome),
            exists|begun: SystemTime, ended: SystemTime|
                #[trigger] is_performed(
                    old(self)@,
                    final(self)@,
                    request,
                    failure_in(outcome),
                    begun,
                    ended,
                ),
    {
        let begun: SystemTime = SystemTime::now();
        let _ = self.lifecycle.begin(&mut self.event_hub, request, begun);
        let outcome: HybridAsrResult<()> = self.backend.reset();
        let ended: SystemTime = SystemTime::now();
        let same: HybridAsrResult<()> = self.lifecycle.complete(
            &mut self.event_hub,
            outcome,
            ended,
        );
        proof {
            assert(is_performed(old(self)@, self@, request, failure_in(same), begun, ended));
        }
        same
    }

    /// Takes audio again.
    pub fn resume(&mut self)
        ensures
            final(self).engine() == old(self).engine(),
            exists|begun: SystemTime, ended: SystemTime|
                #[trigger] is_performed(
                    old(self)@,
                    final(self)@,
                    SessionRequest::Resume,
                    None,
                    begun,
                    ended,
                ),
    {
        let begun: SystemTime = SystemTime::now();
        let _ = self.lifecycle.begin(&mut self.event_hub, SessionRequest::Resume, begun);
        proof {
            assert(is_performed(old(self)@, self@, SessionRequest::Resume, None, begun, begun));
        }
    }

    /// Ends the session.
    pub fn finish(&mut self) -> (outcome: HybridAsrResult<Vec<AsrResult<B::Time>>>)
        ensures
            B::finish_call(old(self).engine(), final(self).engine(), outcome),
            exists|begun: SystemTime, ended: SystemTime|
                #[trigger] is_performed(
                    old(self)@,
                    final(self)@,
                    SessionRequest::Finish,
                    failure_in(outcome),
                    begun,
                    ended,
                ),
    {
        let begun: SystemTime = SystemTime::now();
        let _ = self.lifecycle.begin(&mut self.event_hub, SessionRequest::Finish, begun);
        let outcome: HybridAsrResult<Vec<AsrResult<B::Time>>> = self.backend.finish();
        let ended: SystemTime = SystemTime::now();
        let same: HybridAsrResult<Vec<AsrResult<B::Time>>> = self.lifecycle.complete(
            &mut self.event_hub,
            outcome,
            ended,
        );
        proof {
            assert(is_performed(
                old(self)@,
                self@,
                SessionRequest::Finish,
                failure_in(same),
                begun,
                ended,
            ));
        }
        same
    }

    /// Ends one turn.
    pub fn finish_turn(&mut self) -> (outcome: HybridAsrResult<Vec<AsrResult<B::Time>>>)
        ensures
            B::finish_call(old(self).engine(), final(self).engine(), outcome),
            exists|begun: SystemTime, ended: SystemTime|
                #[trigger] is_performed(
                    old(self)@,
                    final(self)@,
                    SessionRequest::Finish,
                    failure_in(outcome),
                    begun,
                    ended,
                ),
    {
        self.finish()
    }

    /// Makes the engine ready for the next turn.
    pub fn prepare_next_turn(&mut self) -> (outcome: HybridAsrResult<()>)
        ensures
            B::prepare_next_turn_call(old(self).engine(), final(self).engine(), outcome),
            exists|begun: SystemTime, ended: SystemTime|
                #[trigger] is_performed(
                    old(self)@,
                    final(self)@,
                    SessionRequest::PrepareNextTurn,
                    failure_in(outcome),
                    begun,
                    ended,
                ),
    {
        let begun: SystemTime = SystemTime::now();
        let _ = self.lifecycle.begin(
            &mut self.event_hub,
            SessionRequest::PrepareNextTurn,
            begun,
        );
        let outcome: HybridAsrResult<()> = self.backend.prepare_next_turn();
        let ended: SystemTime = SystemTime::now();
        let same: HybridAsrResult<()> = self.lifecycle.complete(
            &mut self.event_hub,
            outcome,
            ended,
        );
        proof {
            assert(is_performed(
                old(self)@,
                self@,
                SessionRequest::PrepareNextTurn,
                failure_in(same),
                begun,
                ended,
            ));
        }
        same
    }

    /// Resets the engine.
    pub fn reset(&mut self) -> (outcome: HybridAsrResult<()>)
        ensures
            B::reset_call(old(self).engine(), final(self).engine(), outcome),
            exists|begun: SystemTime, ended: SystemTime|
                #[trigger] is_performed(
                    old(self)@,
                    final(self)@,
                    SessionRequest::Reset,
                    failure_in(outcome),
                    begun,
                    ended,
                ),
    {
        self.reset_for(SessionRequest::Reset)
    }

    /// The current state.
    pub fn state(&self) -> (state: AsrState)
        ensures
            state == self@.state,
    {
        self.lifecycle.state()
    }

    /// Gives the session up: its event stream ends, and its readers can still take what waits for
    /// them.
    pub fn close(self) -> (event_hub: EventHub)
        ensures
            event_hub@ == self@.hub.shut(),
    {
        let mut event_hub: EventHub = self.event_hub;
        event_hub.close();
        event_hub
    }
}

} // verus!
