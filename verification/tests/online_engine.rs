use std::collections::VecDeque;

use hybrid_asr::config::OnlineAsrConfig;
use hybrid_asr::engine::online::{
    is_unauthorized_handshake_error, HandshakeFailure, HandshakeFault, Incoming, OnlineAction,
    OnlineAsrBackend, OnlineReply, OutgoingFrame, PcmSample, FINAL_BURSTS, READS_PER_BURST,
};
use hybrid_asr::engine::online_protocol::OnlineUtterance;
use hybrid_asr::{HybridAsrError, HybridAsrResult};

fn options(frame_bytes: usize, audio_format: &str) -> OnlineAsrConfig {
    OnlineAsrConfig {
        online_url: "wss://asr.example/ws".to_string(),
        app_auth_url: "https://auth.example/token".to_string(),
        k_code: "code".to_string(),
        k_secret: "secret".to_string(),
        visit_k_code: "visit".to_string(),
        trace_id: "trace".to_string(),
        biz_id: "biz".to_string(),
        hot_words: None,
        sample_rate: 16_000,
        audio_format: audio_format.to_string(),
        frame_bytes,
    }
}

/// A server as the tests want it: what it answers to handshakes, and what there is to read.
#[derive(Default)]
struct Server {
    refusals: VecDeque<HandshakeFault>,
    tokens: Vec<bool>,
    used_tokens: Vec<String>,
    incoming: VecDeque<Incoming>,
    sent: Vec<(Vec<u8>, i32)>,
    pongs: Vec<Vec<u8>>,
    reads: usize,
    closed: usize,
    fail_send: bool,
}

impl Server {
    fn run(&mut self, engine: &mut OnlineAsrBackend) -> HybridAsrResult<Vec<OnlineUtterance>> {
        for _ in 0..2_000 {
            let reply = match engine.action() {
                OnlineAction::Rest => return engine.take_outcome(),
                OnlineAction::FetchToken { refresh } => {
                    self.tokens.push(refresh);
                    OnlineReply::Token(Ok(format!("token-{}", self.tokens.len())))
                }
                OnlineAction::Connect(request) => {
                    assert_eq!(request.url, "wss://asr.example/ws");
                    assert_eq!(request.k_code, "code");
                    assert_eq!(request.visit_k_code, "visit");
                    self.used_tokens.push(request.app_access_token);
                    OnlineReply::Connected(match self.refusals.pop_front() {
                        None => Ok(()),
                        Some(fault) => Err(HandshakeFailure {
                            fault,
                            error: HybridAsrError::from_text("refused"),
                        }),
                    })
                }
                OnlineAction::SetTimeouts {
                    read_millis,
                    write_millis,
                } => {
                    assert_eq!((read_millis, write_millis), (20, 3_000));
                    OnlineReply::TimeoutsSet(Ok(()))
                }
                OnlineAction::Send(OutgoingFrame { bytes, status }) => {
                    if self.fail_send {
                        OnlineReply::Sent(Err(HybridAsrError::from_text("cut off")))
                    } else {
                        self.sent.push((bytes, status));
                        OnlineReply::Sent(Ok(()))
                    }
                }
                OnlineAction::Read => {
                    self.reads += 1;
                    OnlineReply::Read(self.incoming.pop_front().unwrap_or(Incoming::Quiet))
                }
                OnlineAction::SendPong(payload) => {
                    self.pongs.push(payload);
                    OnlineReply::PongSent(Ok(()))
                }
                OnlineAction::Close => {
                    self.closed += 1;
                    OnlineReply::Closed
                }
            };
            engine.advance(reply);
        }
        panic!("the errand did not come to an end");
    }

    fn statuses(&self) -> Vec<i32> {
        self.sent.iter().map(|(_, status)| *status).collect()
    }

    fn all_bytes(&self) -> Vec<u8> {
        self.sent
            .iter()
            .flat_map(|(bytes, _)| bytes.iter().copied())
            .collect()
    }
}

fn said(words: &str, msgtype: &str) -> String {
    format!(
        r#"{{"code":0,"data":{{"payload":{{"result":{{"msgtype":"{msgtype}","bg":0,"ed":10,"ws":[{{"cw":[{{"w":"{words}"}}]}}]}}}}}}}}"#
    )
}

fn samples(values: &[i16]) -> Vec<PcmSample> {
    values
        .iter()
        .map(|value| PcmSample {
            scaled: *value,
            bits: (*value as f32).to_bits(),
        })
        .collect()
}

fn started(server: &mut Server, frame_bytes: usize) -> OnlineAsrBackend {
    let mut engine = OnlineAsrBackend::new(options(frame_bytes, "pcm_s16le"));
    engine.start();
    server.run(&mut engine).unwrap();
    engine
}

#[test]
fn a_start_connects_once() {
    let mut server = Server::default();
    let mut engine = started(&mut server, 4);
    assert_eq!(server.tokens, vec![false]);
    assert_eq!(server.used_tokens, vec!["token-1".to_string()]);
    engine.start();
    server.run(&mut engine).unwrap();
    assert_eq!(server.tokens.len(), 1);
    assert_eq!(engine.options().k_code, "code");
}

#[test]
fn a_refused_token_is_refreshed_once() {
    let mut server = Server::default();
    server.refusals.push_back(HandshakeFault::Http(401));
    started(&mut server, 4);
    assert_eq!(server.tokens, vec![false, true]);
    assert_eq!(
        server.used_tokens,
        vec!["token-1".to_string(), "token-2".to_string()]
    );

    let mut server = Server::default();
    server.refusals.push_back(HandshakeFault::Http(401));
    server.refusals.push_back(HandshakeFault::Http(401));
    let mut engine = OnlineAsrBackend::new(options(4, "pcm_s16le"));
    engine.start();
    assert_eq!(server.run(&mut engine).unwrap_err().to_string(), "refused");
    assert_eq!(server.tokens, vec![false, true]);

    let mut server = Server::default();
    server.refusals.push_back(HandshakeFault::Http(500));
    let mut engine = OnlineAsrBackend::new(options(4, "pcm_s16le"));
    engine.start();
    assert!(server.run(&mut engine).is_err());
    assert_eq!(server.tokens, vec![false]);
}

#[test]
fn only_a_401_is_for_want_of_a_token() {
    assert!(is_unauthorized_handshake_error(&HandshakeFault::Http(401)));
    assert!(!is_unauthorized_handshake_error(&HandshakeFault::Http(403)));
    assert!(is_unauthorized_handshake_error(&HandshakeFault::HttpFormat(
        "invalid status 401 given".to_string()
    )));
    assert!(!is_unauthorized_handshake_error(
        &HandshakeFault::HttpFormat("invalid header".to_string())
    ));
    assert!(!is_unauthorized_handshake_error(&HandshakeFault::Other));
}

#[test]
fn full_frames_go_out_and_the_last_is_held_back() {
    let mut server = Server::default();
    let mut engine = started(&mut server, 4);
    engine.accept_samples(&samples(&[1, -2]));
    server.run(&mut engine).unwrap();
    assert!(server.sent.is_empty());
    engine.accept_samples(&samples(&[3, 4, 5]));
    server.run(&mut engine).unwrap();
    assert_eq!(
        server.sent,
        vec![(vec![1, 0, 254, 255], 0), (vec![3, 0, 4, 0], 1)]
    );
    engine.finish();
    server.run(&mut engine).unwrap();
    assert_eq!(server.statuses(), vec![0, 1, 2]);
    assert_eq!(server.all_bytes(), vec![1, 0, 254, 255, 3, 0, 4, 0, 5, 0]);
    assert_eq!(server.closed, 1);
}

#[test]
fn other_formats_send_the_samples_as_they_are() {
    let mut server = Server::default();
    let mut engine = OnlineAsrBackend::new(options(4096, "pcm_f32le"));
    engine.start();
    server.run(&mut engine).unwrap();
    let sample = PcmSample {
        scaled: 7,
        bits: 0.25_f32.to_bits(),
    };
    engine.accept_samples(&[sample]);
    server.run(&mut engine).unwrap();
    engine.finish();
    server.run(&mut engine).unwrap();
    assert_eq!(server.sent, vec![(0.25_f32.to_le_bytes().to_vec(), 2)]);
}

#[test]
fn only_whole_sentences_are_handed_out() {
    let mut server = Server::default();
    let mut engine = started(&mut server, 4);
    server
        .incoming
        .push_back(Incoming::Text(said("half", "progressive")));
    server
        .incoming
        .push_back(Incoming::Binary(said("whole", "sentence").into_bytes()));
    server.incoming.push_back(Incoming::Other);
    engine.accept_samples(&[]);
    let results = server.run(&mut engine).unwrap();
    assert_eq!(results.len(), 1);
    assert_eq!(results[0].text, "whole");
    assert!(results[0].is_final);
    assert_eq!(results[0].end, Some(10.0_f64.to_bits()));
    assert!(engine.take_outcome().unwrap().is_empty());
}

#[test]
fn one_burst_reads_a_limited_number_of_messages() {
    let mut server = Server::default();
    let mut engine = started(&mut server, 4);
    for _ in 0..20 {
        server
            .incoming
            .push_back(Incoming::Text(said("x", "sentence")));
    }
    engine.accept_samples(&[]);
    let results = server.run(&mut engine).unwrap();
    assert_eq!(results.len(), READS_PER_BURST as usize);
    assert_eq!(server.reads, 8);
}

#[test]
fn a_ping_is_answered_with_its_payload() {
    let mut server = Server::default();
    let mut engine = started(&mut server, 4);
    server.incoming.push_back(Incoming::Ping(vec![1, 2, 3]));
    server
        .incoming
        .push_back(Incoming::Text(said("after", "sentence")));
    engine.accept_samples(&[]);
    let results = server.run(&mut engine).unwrap();
    assert_eq!(server.pongs, vec![vec![1, 2, 3]]);
    assert_eq!(results[0].text, "after");
}

#[test]
fn the_end_of_a_stream_waits_for_the_last_sentence() {
    let mut server = Server::default();
    let mut engine = started(&mut server, 2);
    engine.accept_samples(&samples(&[1, 2]));
    server.run(&mut engine).unwrap();
    let reads = server.reads;
    engine.finish();
    server.run(&mut engine).unwrap();
    assert_eq!(server.reads - reads, 1 + FINAL_BURSTS as usize);

    let mut server = Server::default();
    let mut engine = started(&mut server, 2);
    engine.accept_samples(&samples(&[1, 2]));
    server.run(&mut engine).unwrap();
    server.incoming.push_back(Incoming::Quiet);
    server.incoming.push_back(Incoming::Quiet);
    server
        .incoming
        .push_back(Incoming::Text(said("bye", "sentence")));
    engine.finish();
    let results = server.run(&mut engine).unwrap();
    assert_eq!(results[0].text, "bye");
    assert!(server.incoming.is_empty());
    assert_eq!(server.closed, 1);
}

#[test]
fn audio_connects_where_there_is_no_connection() {
    let mut server = Server::default();
    let mut engine = OnlineAsrBackend::new(options(2, "pcm_s16le"));
    engine.accept_samples(&samples(&[1, 2]));
    server.run(&mut engine).unwrap();
    assert_eq!(server.tokens, vec![false]);
    assert_eq!(server.sent, vec![(vec![1, 0], 0)]);
}

#[test]
fn an_engine_without_audio_or_connection_has_nothing_to_finish() {
    let mut server = Server::default();
    let mut engine = OnlineAsrBackend::new(options(2, "pcm_s16le"));
    engine.finish();
    assert!(server.run(&mut engine).unwrap().is_empty());
    assert!(server.tokens.is_empty());
    assert_eq!(server.closed, 0);
}

#[test]
fn a_reset_drops_the_stream_and_connects_anew() {
    let mut server = Server::default();
    let mut engine = started(&mut server, 4);
    engine.accept_samples(&samples(&[1]));
    server.run(&mut engine).unwrap();
    server
        .incoming
        .push_back(Incoming::Text(said("dropped", "sentence")));
    engine.prepare_next_turn();
    assert!(server.run(&mut engine).unwrap().is_empty());
    assert_eq!(server.sent, vec![(vec![1, 0], 2)]);
    assert_eq!(server.closed, 1);
    assert_eq!(server.tokens, vec![false, false]);
    engine.accept_samples(&samples(&[2, 3, 4]));
    server.run(&mut engine).unwrap();
    assert_eq!(server.statuses(), vec![2, 0]);
}

#[test]
fn a_reset_survives_a_stream_that_cannot_be_ended() {
    let mut server = Server::default();
    let mut engine = started(&mut server, 4);
    engine.accept_samples(&samples(&[1]));
    server.run(&mut engine).unwrap();
    server.fail_send = true;
    engine.reset();
    assert!(server.run(&mut engine).is_ok());
    assert_eq!(server.tokens, vec![false]);
    server.fail_send = false;
    engine.finish();
    assert!(server.run(&mut engine).unwrap().is_empty());
    assert!(server.sent.is_empty());
}

#[test]
fn failures_end_an_errand_without_results() {
    let mut server = Server::default();
    let mut engine = started(&mut server, 4);
    server
        .incoming
        .push_back(Incoming::Text(said("lost", "sentence")));
    server
        .incoming
        .push_back(Incoming::Text(r#"{"code":5,"message":"busy"}"#.to_string()));
    engine.accept_samples(&[]);
    assert_eq!(
        server.run(&mut engine).unwrap_err().to_string(),
        "在线 ASR 服务返回失败 code=5, message=busy"
    );

    server.incoming.push_back(Incoming::Binary(vec![0xff, 0x41]));
    engine.accept_samples(&[]);
    let error = server.run(&mut engine).unwrap_err().to_string();
    assert_eq!(
        error,
        String::from_utf8(vec![0xff, 0x41]).unwrap_err().to_string()
    );

    server
        .incoming
        .push_back(Incoming::Failed(HybridAsrError::from_text("reset by peer")));
    engine.accept_samples(&[]);
    assert_eq!(
        server.run(&mut engine).unwrap_err().to_string(),
        "reset by peer"
    );

    server.fail_send = true;
    engine.accept_samples(&samples(&[1, 2, 3]));
    assert_eq!(server.run(&mut engine).unwrap_err().to_string(), "cut off");
}

#[test]
fn a_server_that_hangs_up_is_connected_to_again() {
    let mut server = Server::default();
    let mut engine = started(&mut server, 2);
    server.incoming.push_back(Incoming::Close);
    engine.accept_samples(&[]);
    server.run(&mut engine).unwrap();
    engine.accept_samples(&samples(&[1, 2]));
    server.run(&mut engine).unwrap();
    assert_eq!(server.tokens.len(), 2);
    server.incoming.push_back(Incoming::Gone);
    engine.accept_samples(&[]);
    server.run(&mut engine).unwrap();
    engine.start();
    server.run(&mut engine).unwrap();
    assert_eq!(server.tokens.len(), 3);
}

#[test]
fn a_reply_to_something_else_is_ignored() {
    let mut engine = OnlineAsrBackend::new(options(2, "pcm_s16le"));
    engine.start();
    engine.advance(OnlineReply::Closed);
    engine.advance(OnlineReply::Sent(Ok(())));
    assert!(matches!(
        engine.action(),
        OnlineAction::FetchToken { refresh: false }
    ));
}

#[test]
fn audio_in_two_pieces_goes_out_as_in_one() {
    let values: Vec<i16> = (1..=11).collect();
    for at in 0..=values.len() {
        let mut whole = Server::default();
        let mut engine = started(&mut whole, 4);
        engine.accept_samples(&samples(&[-1]));
        whole.run(&mut engine).unwrap();
        engine.accept_samples(&samples(&values));
        whole.run(&mut engine).unwrap();
        let sent_before_the_end = whole.sent.len();
        engine.finish();
        whole.run(&mut engine).unwrap();

        let mut split = Server::default();
        let mut engine = started(&mut split, 4);
        engine.accept_samples(&samples(&[-1]));
        split.run(&mut engine).unwrap();
        engine.accept_samples(&samples(&values[..at]));
        split.run(&mut engine).unwrap();
        engine.accept_samples(&samples(&values[at..]));
        split.run(&mut engine).unwrap();
        assert_eq!(split.sent.len(), sent_before_the_end);
        engine.finish();
        split.run(&mut engine).unwrap();

        assert_eq!(split.sent, whole.sent);
        assert_eq!(split.statuses(), vec![0, 1, 1, 1, 1, 2]);
    }
}

#[test]
fn no_audio_sends_no_frame() {
    let mut server = Server::default();
    let mut engine = started(&mut server, 4);
    engine.accept_samples(&samples(&[1, 2, 3]));
    server.run(&mut engine).unwrap();
    assert_eq!(server.sent.len(), 1);
    engine.accept_samples(&[]);
    server.run(&mut engine).unwrap();
    assert_eq!(server.sent.len(), 1);
    engine.finish();
    server.run(&mut engine).unwrap();
    assert_eq!(server.sent[1], (vec![3, 0], 2));
}
