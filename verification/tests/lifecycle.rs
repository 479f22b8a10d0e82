use std::time::{Duration, SystemTime};

use hybrid_asr::event::{AsrStateTransitionEvent, EventHub};
use hybrid_asr::session::{EngineCall, SessionLifecycle, SessionRequest};
use hybrid_asr::{AsrEvent, AsrState, AsrStateChangeReason, HybridAsrError};

fn at(seconds: u64) -> SystemTime {
    SystemTime::UNIX_EPOCH + Duration::from_secs(seconds)
}

fn change(
    from: AsrState,
    to: AsrState,
    reason: AsrStateChangeReason,
    seconds: u64,
) -> AsrEvent {
    AsrEvent::StateChanged(AsrStateTransitionEvent {
        from,
        to,
        reason,
        timestamp: at(seconds),
    })
}

#[test]
fn the_steps_around_an_engine_tell_the_same_story() {
    let mut hub = EventHub::default();
    let receiver = hub.subscribe();
    let mut lifecycle = SessionLifecycle::new();
    assert_eq!(lifecycle.state(), AsrState::Idle);

    assert_eq!(
        lifecycle.begin(&mut hub, SessionRequest::Start, at(1)),
        Some(EngineCall::Start)
    );
    assert_eq!(lifecycle.state(), AsrState::Initializing);
    lifecycle.complete(&mut hub, Ok(()), at(2)).unwrap();
    assert_eq!(
        lifecycle.begin(&mut hub, SessionRequest::Accept, at(3)),
        Some(EngineCall::Accept)
    );
    assert_eq!(lifecycle.complete(&mut hub, Ok(7), at(4)).unwrap(), 7);
    assert_eq!(
        lifecycle.begin(&mut hub, SessionRequest::Pause, at(4)),
        Some(EngineCall::Reset)
    );
    lifecycle.complete(&mut hub, Ok(()), at(5)).unwrap();
    assert_eq!(
        lifecycle.begin(&mut hub, SessionRequest::Accept, at(6)),
        None
    );
    assert_eq!(
        lifecycle.begin(&mut hub, SessionRequest::Resume, at(7)),
        None
    );
    assert_eq!(
        lifecycle.begin(&mut hub, SessionRequest::Finish, at(8)),
        Some(EngineCall::Finish)
    );
    assert_eq!(
        lifecycle.complete(&mut hub, Ok("end"), at(9)).unwrap(),
        "end"
    );
    assert_eq!(
        lifecycle.begin(&mut hub, SessionRequest::PrepareNextTurn, at(9)),
        Some(EngineCall::PrepareNextTurn)
    );
    lifecycle.complete(&mut hub, Ok(()), at(10)).unwrap();
    assert_eq!(
        lifecycle.begin(&mut hub, SessionRequest::Reset, at(10)),
        Some(EngineCall::Reset)
    );
    let error = lifecycle
        .complete(
            &mut hub,
            Err::<(), _>(HybridAsrError::from_text("lost")),
            at(11),
        )
        .unwrap_err();
    assert_eq!(error.to_string(), "lost");
    assert_eq!(lifecycle.state(), AsrState::Error);

    let mut events = Vec::new();
    while let Ok(event) = hub.try_receive(&receiver) {
        events.push(event);
    }
    assert_eq!(
        events,
        vec![
            change(
                AsrState::Idle,
                AsrState::Initializing,
                AsrStateChangeReason::StartRequested,
                1
            ),
            change(
                AsrState::Initializing,
                AsrState::Ready,
                AsrStateChangeReason::StartSucceeded,
                2
            ),
            change(
                AsrState::Ready,
                AsrState::Recognizing,
                AsrStateChangeReason::RecognitionRequested,
                3
            ),
            change(
                AsrState::Recognizing,
                AsrState::Paused,
                AsrStateChangeReason::PauseRequested,
                5
            ),
            change(
                AsrState::Paused,
                AsrState::Recognizing,
                AsrStateChangeReason::ResumeRequested,
                7
            ),
            change(
                AsrState::Recognizing,
                AsrState::Finishing,
                AsrStateChangeReason::FinishRequested,
                8
            ),
            change(
                AsrState::Finishing,
                AsrState::Finished,
                AsrStateChangeReason::FinishRequested,
                9
            ),
            change(
                AsrState::Finished,
                AsrState::Ready,
                AsrStateChangeReason::PrepareNextTurnRequested,
                10
            ),
            change(
                AsrState::Ready,
                AsrState::Error,
                AsrStateChangeReason::ErrorOccurred,
                11
            ),
            AsrEvent::Error("lost".to_string()),
        ]
    );
}

#[test]
fn an_answer_that_nobody_waits_for_changes_nothing() {
    let mut hub = EventHub::default();
    let receiver = hub.subscribe();
    let mut lifecycle = SessionLifecycle::new();
    assert_eq!(lifecycle.complete(&mut hub, Ok(3), at(1)).unwrap(), 3);
    let stray = Err::<(), _>(HybridAsrError::from_text("stray"));
    assert!(lifecycle.complete(&mut hub, stray, at(2)).is_err());
    assert_eq!(lifecycle.state(), AsrState::Idle);
    assert!(hub.try_receive(&receiver).is_err());
}

#[test]
fn changes_form_a_chain() {
    let mut hub = EventHub::default();
    let receiver = hub.subscribe();
    let mut lifecycle = SessionLifecycle::new();
    let requests = [
        SessionRequest::Start,
        SessionRequest::Pause,
        SessionRequest::Accept,
        SessionRequest::Resume,
        SessionRequest::Accept,
        SessionRequest::Reset,
        SessionRequest::Finish,
        SessionRequest::PrepareNextTurn,
    ];
    for fail_at in 0..=requests.len() {
        for (number, request) in requests.iter().enumerate() {
            if lifecycle.begin(&mut hub, *request, at(1)).is_some() {
                let outcome = if number == fail_at {
                    Err(HybridAsrError::from_text("lost"))
                } else {
                    Ok(())
                };
                let _ = lifecycle.complete(&mut hub, outcome, at(2));
            }
        }
    }
    let mut state = AsrState::Idle;
    while let Ok(event) = hub.try_receive(&receiver) {
        if let AsrEvent::StateChanged(change) = event {
            assert_eq!(change.from, state);
            state = change.to;
        }
    }
    assert_eq!(state, lifecycle.state());
}
