use std::sync::{Arc, Mutex};
use std::time::SystemTime;

use hybrid_asr::event::{EventHub, EventReceiver, ReceiveError};
use hybrid_asr::{
    AsrEvent, AsrResult, AsrState, AsrStateChangeReason, HybridAsrError, HybridAsrResult,
    HybridAsrSession, RealtimeAsrBackend,
};

#[derive(Default)]
struct BackendProbe {
    start_calls: usize,
    accept_calls: usize,
    reset_calls: usize,
    prepare_next_turn_calls: usize,
    finish_calls: usize,
    fail_start: bool,
    fail_accept: bool,
    fail_reset: bool,
    fail_prepare_next_turn: bool,
    fail_finish: bool,
}

struct FakeBackend {
    probe: Arc<Mutex<BackendProbe>>,
    results: Vec<AsrResult<f64>>,
}

impl FakeBackend {
    fn new(probe: Arc<Mutex<BackendProbe>>) -> Self {
        Self {
            probe,
            results: vec![AsrResult {
                text: "hello".to_string(),
                start_time: 0.0,
                end_time: 1.0,
                start_sample: 0,
                sample_count: 16_000,
                is_final: true,
            }],
        }
    }
}

fn outcome<T>(fail: bool, message: &str, value: T) -> HybridAsrResult<T> {
    if fail {
        Err(HybridAsrError::from_text(message))
    } else {
        Ok(value)
    }
}

impl RealtimeAsrBackend for FakeBackend {
    type Sample = f32;
    type Time = f64;

    fn start(&mut self) -> HybridAsrResult<()> {
        let mut probe = self.probe.lock().unwrap();
        probe.start_calls += 1;
        outcome(probe.fail_start, "start failed", ())
    }

    fn accept_samples(&mut self, _samples: &[f32]) -> HybridAsrResult<Vec<AsrResult<f64>>> {
        let mut probe = self.probe.lock().unwrap();
        probe.accept_calls += 1;
        outcome(probe.fail_accept, "accept failed", self.results.clone())
    }

    fn reset(&mut self) -> HybridAsrResult<()> {
        let mut probe = self.probe.lock().unwrap();
        probe.reset_calls += 1;
        outcome(probe.fail_reset, "reset failed", ())
    }

    fn prepare_next_turn(&mut self) -> HybridAsrResult<()> {
        let mut probe = self.probe.lock().unwrap();
        probe.prepare_next_turn_calls += 1;
        outcome(
            probe.fail_prepare_next_turn,
            "prepare next turn failed",
            (),
        )
    }

    fn finish(&mut self) -> HybridAsrResult<Vec<AsrResult<f64>>> {
        let mut probe = self.probe.lock().unwrap();
        probe.finish_calls += 1;
        outcome(probe.fail_finish, "finish failed", self.results.clone())
    }
}

fn new_session(probe: Arc<Mutex<BackendProbe>>) -> HybridAsrSession<FakeBackend> {
    HybridAsrSession::new_with_backend(FakeBackend::new(probe))
}

fn waiting_events(
    session: &mut HybridAsrSession<FakeBackend>,
    receiver: &EventReceiver,
) -> Vec<AsrEvent> {
    let mut events = Vec::new();
    while let Ok(event) = session.receive_event(receiver) {
        events.push(event);
    }
    events
}

fn state_changes(events: &[AsrEvent]) -> Vec<(AsrState, AsrState)> {
    events
        .iter()
        .filter_map(|event| match event {
            AsrEvent::StateChanged(event) => Some((event.from, event.to)),
            _ => None,
        })
        .collect()
}

#[test]
fn starts_from_idle_state() {
    let probe = Arc::new(Mutex::new(BackendProbe::default()));
    let session = new_session(probe);
    assert_eq!(session.state(), AsrState::Idle);
}

#[test]
fn start_transitions_to_ready() {
    let probe = Arc::new(Mutex::new(BackendProbe::default()));
    let mut session = new_session(probe.clone());
    session.start().unwrap();
    assert_eq!(session.state(), AsrState::Ready);
    assert_eq!(probe.lock().unwrap().start_calls, 1);
}

#[test]
fn subscribe_events_reports_state_changes() {
    let probe = Arc::new(Mutex::new(BackendProbe::default()));
    let mut session = new_session(probe);
    let receiver = session.subscribe_events();

    session.start().unwrap();
    session.accept_samples(&[0.1, 0.2]).unwrap();
    session.finish().unwrap();

    let events = waiting_events(&mut session, &receiver);
    let state_changes = state_changes(&events);

    assert!(state_changes.contains(&(AsrState::Idle, AsrState::Initializing)));
    assert!(state_changes.contains(&(AsrState::Initializing, AsrState::Ready)));
    assert!(state_changes.contains(&(AsrState::Ready, AsrState::Recognizing)));
    assert!(state_changes.contains(&(AsrState::Finishing, AsrState::Finished)));
}

#[test]
fn accept_transitions_to_recognizing() {
    let probe = Arc::new(Mutex::new(BackendProbe::default()));
    let mut session = new_session(probe.clone());
    session.start().unwrap();
    let results = session.accept_samples(&[0.1, 0.2]).unwrap();
    assert_eq!(session.state(), AsrState::Recognizing);
    assert_eq!(results.len(), 1);
    assert_eq!(probe.lock().unwrap().accept_calls, 1);
}

#[test]
fn pause_and_resume_update_state() {
    let probe = Arc::new(Mutex::new(BackendProbe::default()));
    let mut session = new_session(probe.clone());
    session.start().unwrap();
    session.pause().unwrap();
    assert_eq!(session.state(), AsrState::Paused);
    session.resume();
    assert_eq!(session.state(), AsrState::Recognizing);
    assert_eq!(probe.lock().unwrap().reset_calls, 1);
}

#[test]
fn finish_transitions_to_finished() {
    let probe = Arc::new(Mutex::new(BackendProbe::default()));
    let mut session = new_session(probe.clone());
    session.start().unwrap();
    let results = session.finish().unwrap();
    assert_eq!(session.state(), AsrState::Finished);
    assert_eq!(results.len(), 1);
    assert_eq!(probe.lock().unwrap().finish_calls, 1);
}

#[test]
fn prepare_next_turn_returns_to_ready_without_recreating_backend() {
    let probe = Arc::new(Mutex::new(BackendProbe::default()));
    let mut session = new_session(probe.clone());
    session.start().unwrap();
    session.accept_samples(&[0.1, 0.2]).unwrap();
    session.finish_turn().unwrap();
    session.prepare_next_turn().unwrap();

    let probe = probe.lock().unwrap();
    assert_eq!(session.state(), AsrState::Ready);
    assert_eq!(probe.start_calls, 1);
    assert_eq!(probe.finish_calls, 1);
    assert_eq!(probe.prepare_next_turn_calls, 1);
}

#[test]
fn backend_errors_drive_error_state() {
    let probe = Arc::new(Mutex::new(BackendProbe {
        fail_accept: true,
        ..BackendProbe::default()
    }));
    let mut session = new_session(probe);
    let receiver = session.subscribe_events();
    session.start().unwrap();
    let error = session.accept_samples(&[0.1]).unwrap_err().to_string();
    assert!(error.contains("accept failed"));
    assert_eq!(session.state(), AsrState::Error);
    assert!(waiting_events(&mut session, &receiver).iter().any(
        |event| matches!(event, AsrEvent::Error(message) if message.contains("accept failed"))
    ));
}

#[test]
fn paused_session_drops_intermediate_audio() {
    let probe = Arc::new(Mutex::new(BackendProbe::default()));
    let mut session = new_session(probe.clone());
    session.start().unwrap();
    session.pause().unwrap();
    let results = session.accept_samples(&[0.1, 0.2]).unwrap();
    assert!(results.is_empty());
    assert_eq!(probe.lock().unwrap().accept_calls, 0);
}

#[test]
fn dropping_session_closes_event_stream() {
    let probe = Arc::new(Mutex::new(BackendProbe::default()));
    let (receiver, mut hub) = {
        let mut session = new_session(probe);
        (session.subscribe_events(), session.close())
    };

    assert!(matches!(
        hub.try_receive(&receiver),
        Err(ReceiveError::Disconnected)
    ));
}

#[test]
fn a_start_is_told_as_two_changes() {
    let probe = Arc::new(Mutex::new(BackendProbe::default()));
    let mut session = new_session(probe);
    let receiver = session.subscribe_events();
    session.start().unwrap();

    let events = waiting_events(&mut session, &receiver);
    assert_eq!(events.len(), 2);
    assert_eq!(
        state_changes(&events),
        vec![
            (AsrState::Idle, AsrState::Initializing),
            (AsrState::Initializing, AsrState::Ready),
        ]
    );
    assert!(
        matches!(&events[0], AsrEvent::StateChanged(event) if event.reason == AsrStateChangeReason::StartRequested)
    );
    assert!(
        matches!(&events[1], AsrEvent::StateChanged(event) if event.reason == AsrStateChangeReason::StartSucceeded)
    );
}

#[test]
fn an_error_is_told_after_the_change_of_state() {
    let probe = Arc::new(Mutex::new(BackendProbe {
        fail_start: true,
        ..BackendProbe::default()
    }));
    let mut session = new_session(probe);
    let receiver = session.subscribe_events();
    let error = session.start().unwrap_err();
    assert_eq!(error.to_string(), "start failed");

    let events = waiting_events(&mut session, &receiver);
    assert_eq!(events.len(), 3);
    assert_eq!(
        state_changes(&events),
        vec![
            (AsrState::Idle, AsrState::Initializing),
            (AsrState::Initializing, AsrState::Error),
        ]
    );
    assert_eq!(events[2], AsrEvent::Error("start failed".to_string()));
}

#[test]
fn every_failing_call_leads_to_the_error_state() {
    let probe = Arc::new(Mutex::new(BackendProbe {
        fail_reset: true,
        fail_prepare_next_turn: true,
        fail_finish: true,
        ..BackendProbe::default()
    }));
    let mut session = new_session(probe.clone());
    session.start().unwrap();
    assert_eq!(session.pause().unwrap_err().to_string(), "reset failed");
    assert_eq!(session.state(), AsrState::Error);
    assert_eq!(session.reset().unwrap_err().to_string(), "reset failed");
    assert_eq!(session.state(), AsrState::Error);
    assert_eq!(
        session.prepare_next_turn().unwrap_err().to_string(),
        "prepare next turn failed"
    );
    assert_eq!(session.state(), AsrState::Error);
    assert_eq!(session.finish().unwrap_err().to_string(), "finish failed");
    assert_eq!(session.state(), AsrState::Error);
    assert_eq!(probe.lock().unwrap().reset_calls, 2);
    assert_eq!(probe.lock().unwrap().finish_calls, 1);
}

#[test]
fn a_reset_leads_back_to_ready() {
    let probe = Arc::new(Mutex::new(BackendProbe::default()));
    let mut session = new_session(probe.clone());
    session.start().unwrap();
    session.accept_samples(&[0.5]).unwrap();
    session.reset().unwrap();
    assert_eq!(session.state(), AsrState::Ready);
    assert_eq!(probe.lock().unwrap().reset_calls, 1);
}

#[test]
fn a_paused_session_is_silent_about_dropped_audio() {
    let probe = Arc::new(Mutex::new(BackendProbe::default()));
    let mut session = new_session(probe);
    session.start().unwrap();
    session.pause().unwrap();
    let receiver = session.subscribe_events();
    session.accept_samples(&[0.1]).unwrap();
    assert_eq!(
        session.receive_event(&receiver),
        Err(ReceiveError::Empty)
    );
    assert_eq!(session.state(), AsrState::Paused);
}

#[test]
fn whoever_subscribed_before_hears_that_the_session_was_made() {
    let before = SystemTime::now();
    let mut hub = EventHub::default();
    let receiver = hub.subscribe();
    let backend = FakeBackend::new(Arc::new(Mutex::new(BackendProbe::default())));
    let mut session = HybridAsrSession::new_with_event_hub(Ok(backend), hub).unwrap_or_else(
        |refusal| panic!("the engine came up, but: {}", refusal.error.to_string()),
    );
    match session.receive_event(&receiver) {
        Ok(AsrEvent::Session(event)) => {
            assert_eq!(event.message, "ASR 会话已创建");
            assert!(event.timestamp >= before);
        }
        other => panic!("expected a session event, got {other:?}"),
    }
}

#[test]
fn an_engine_that_fails_to_come_up_closes_the_hub() {
    let mut hub = EventHub::default();
    let receiver = hub.subscribe();
    hub.emit(AsrEvent::Error("early".to_string()));
    let failed: HybridAsrResult<FakeBackend> = Err(HybridAsrError::from_text("no engine"));
    let mut refusal = match HybridAsrSession::new_with_event_hub(failed, hub) {
        Ok(_) => panic!("there is no engine to make a session of"),
        Err(refusal) => refusal,
    };
    assert_eq!(refusal.error.to_string(), "no engine");
    assert_eq!(
        refusal.event_hub.try_receive(&receiver),
        Ok(AsrEvent::Error("early".to_string()))
    );
    assert_eq!(
        refusal.event_hub.try_receive(&receiver),
        Err(ReceiveError::Disconnected)
    );
    let failed: HybridAsrResult<FakeBackend> = Err(HybridAsrError::from_text("no engine"));
    match HybridAsrSession::new(failed) {
        Ok(_) => panic!("there is no engine to make a session of"),
        Err(error) => assert_eq!(error.to_string(), "no engine"),
    }
}
