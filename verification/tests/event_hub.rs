use std::path::PathBuf;
use std::time::SystemTime;

use hybrid_asr::event::{
    AsrEvent, EventHub, ModelLifecycleEvent, ModelLifecyclePhase, ModelResourceKind, ReceiveError,
    SessionEvent,
};

fn assert_receiver_disconnected<T>(result: Result<T, ReceiveError>) {
    assert!(matches!(result, Err(ReceiveError::Disconnected)));
}

#[test]
fn close_disconnects_existing_receivers() {
    let mut hub = EventHub::default();
    let receiver = hub.subscribe();

    hub.close();

    assert_receiver_disconnected(hub.try_receive(&receiver));
}

#[test]
fn close_is_idempotent() {
    let mut hub = EventHub::default();

    hub.close();
    hub.close();
}

#[test]
fn emit_becomes_noop_after_close() {
    let mut hub = EventHub::default();
    let receiver = hub.subscribe();
    hub.close();

    hub.emit(AsrEvent::Error("should not be delivered".to_string()));

    assert_receiver_disconnected(hub.try_receive(&receiver));
}

#[test]
fn subscribe_after_close_returns_disconnected_receiver() {
    let mut hub = EventHub::default();
    hub.close();

    let receiver = hub.subscribe();

    assert_receiver_disconnected(hub.try_receive(&receiver));
}

#[test]
fn an_open_hub_has_nothing_for_a_new_subscriber() {
    let mut hub = EventHub::default();
    hub.emit(AsrEvent::Error("too early".to_string()));
    let receiver = hub.subscribe();

    assert_eq!(hub.try_receive(&receiver), Err(ReceiveError::Empty));
}

#[test]
fn every_reader_gets_every_event_in_order() {
    let mut hub = EventHub::default();
    let first = hub.subscribe();
    let second = hub.subscribe();
    for number in 0..3 {
        hub.emit(AsrEvent::Error(format!("event {number}")));
    }

    for receiver in [&first, &second] {
        for number in 0..3 {
            assert_eq!(
                hub.try_receive(receiver),
                Ok(AsrEvent::Error(format!("event {number}")))
            );
        }
        assert_eq!(hub.try_receive(receiver), Err(ReceiveError::Empty));
    }
}

#[test]
fn what_waits_can_be_read_after_the_hub_was_closed() {
    let mut hub = EventHub::default();
    let receiver = hub.subscribe();
    hub.emit(AsrEvent::Error("last words".to_string()));
    hub.close();
    hub.emit(AsrEvent::Error("too late".to_string()));

    assert_eq!(
        hub.try_receive(&receiver),
        Ok(AsrEvent::Error("last words".to_string()))
    );
    assert_receiver_disconnected(hub.try_receive(&receiver));
}

#[test]
fn a_reader_that_has_gone_disturbs_nobody() {
    let mut hub = EventHub::default();
    let gone = hub.subscribe();
    let still_there = hub.subscribe();
    hub.emit(AsrEvent::Error("one".to_string()));
    hub.hang_up(gone);
    hub.emit(AsrEvent::Error("two".to_string()));

    assert_eq!(
        hub.try_receive(&still_there),
        Ok(AsrEvent::Error("one".to_string()))
    );
    assert_eq!(
        hub.try_receive(&still_there),
        Ok(AsrEvent::Error("two".to_string()))
    );
}

#[test]
fn events_are_handed_out_as_they_were_emitted() {
    let at = SystemTime::UNIX_EPOCH;
    let model = ModelLifecycleEvent {
        resource_kind: ModelResourceKind::Vad,
        phase: ModelLifecyclePhase::Downloading,
        downloaded_bytes: Some(3),
        total_bytes: None,
        target_dir: PathBuf::from("models/vad"),
        message: "halfway".to_string(),
        timestamp: at,
    };
    let session = SessionEvent {
        message: "hello".to_string(),
        timestamp: at,
    };
    let mut hub = EventHub::default();
    let receiver = hub.subscribe();
    hub.emit(AsrEvent::Model(model.clone()));
    hub.emit(AsrEvent::Session(session.clone()));

    assert_eq!(hub.try_receive(&receiver), Ok(AsrEvent::Model(model)));
    assert_eq!(hub.try_receive(&receiver), Ok(AsrEvent::Session(session)));
}

#[test]
fn resources_and_phases_have_stable_names() {
    assert_eq!(ModelResourceKind::Asr.as_str(), "asr");
    assert_eq!(ModelResourceKind::Vad.as_str(), "vad");
    assert_eq!(ModelLifecyclePhase::Missing.as_str(), "missing");
    assert_eq!(ModelLifecyclePhase::Downloading.as_str(), "downloading");
    assert_eq!(ModelLifecyclePhase::Downloaded.as_str(), "downloaded");
    assert_eq!(ModelLifecyclePhase::Failed.as_str(), "failed");
}

#[test]
fn a_receiver_of_another_hub_gets_nothing() {
    let mut hub = EventHub::with_id(1);
    let own = hub.subscribe();
    let mut other = EventHub::with_id(2);
    let stranger = other.subscribe();
    hub.emit(AsrEvent::Error("for my readers".to_string()));

    assert_receiver_disconnected(hub.try_receive(&stranger));
    assert_eq!(
        other.try_receive(&stranger),
        Err(ReceiveError::Empty)
    );
    hub.hang_up(stranger);
    assert_eq!(
        hub.try_receive(&own),
        Ok(AsrEvent::Error("for my readers".to_string()))
    );
}

#[test]
fn the_place_of_a_reader_that_has_gone_is_taken_anew() {
    let mut hub = EventHub::default();
    let gone = hub.subscribe();
    let still_there = hub.subscribe();
    hub.emit(AsrEvent::Error("one".to_string()));
    hub.hang_up(gone);
    let newcomer = hub.subscribe();
    assert_eq!(hub.try_receive(&newcomer), Err(ReceiveError::Empty));
    hub.emit(AsrEvent::Error("two".to_string()));

    assert_eq!(
        hub.try_receive(&newcomer),
        Ok(AsrEvent::Error("two".to_string()))
    );
    assert_eq!(hub.try_receive(&newcomer), Err(ReceiveError::Empty));
    for message in ["one", "two"] {
        assert_eq!(
            hub.try_receive(&still_there),
            Ok(AsrEvent::Error(message.to_string()))
        );
    }
}
