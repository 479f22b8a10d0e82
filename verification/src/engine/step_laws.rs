//! What the online engine does with each reply, and how audio becomes bytes.

use vstd::prelude::*;

use crate::config::OnlineAsrConfig;
use crate::engine::online::{
    audio_bytes, sample_bytes, Errand, HandshakeFailure, Incoming, OnlineAction, OnlineModel,
    OnlineReply, PcmSample, Stage, FIRST_FRAME, LAST_FRAME, MIDDLE_FRAME,
};
use crate::engine::online_laws::{answers, has_failed, valid};
use crate::engine::online_protocol::{response_text_meaning, UtteranceModel};
use crate::engine::outcome_laws::{
    fault_in, is_unauthorized, law_only_401_is_for_want_of_a_token, message_in, sentence_in,
};

verus! {

/// The engine asks for what its stage is about, with what it has: the token, the frame and the
/// payload that it holds, and otherwise what is configured.
pub proof fn law_actions_are_those_of_the_stage(engine: OnlineModel, action: OnlineAction)
    requires
        valid(engine),
        engine.wants(action),
    ensures
        match engine.stage {
            Stage::Token => action matches OnlineAction::FetchToken { refresh } && refresh
                == engine.refreshing,
            Stage::Handshake => action matches OnlineAction::Connect(request) && request.url@
                == engine.options.online_url@ && request.app_access_token@ == engine.token
                && request.k_code@ == engine.options.k_code@ && request.visit_k_code@
                == engine.options.visit_k_code@,
            Stage::Timeouts => action matches OnlineAction::SetTimeouts {
                read_millis,
                write_millis,
            } && read_millis == 20 && write_millis == 3000,
            Stage::Sending => action matches OnlineAction::Send(frame) && engine.outgoing is Some
                && frame.bytes@ == engine.outgoing->0.bytes && frame.status
                == engine.outgoing->0.status,
            Stage::Reading => action is Read,
            Stage::Ponging => action matches OnlineAction::SendPong(payload) && payload@
                == engine.payload,
            Stage::Closing => action is Close,
            Stage::Resting => action is Rest,
        },
        FIRST_FRAME == 0,
        MIDDLE_FRAME == 1,
        LAST_FRAME == 2,
{
}

/// An engine that is connected has nothing to do to start; any other asks for a token, a kept one
/// first.
pub proof fn law_starts_make_a_connection(engine: OnlineModel)
    requires
        valid(engine),
        engine.stage == Stage::Resting,
    ensures
        engine.started().options == engine.options,
        engine.started().pending == engine.pending,
        engine.connected ==> engine.started().stage == Stage::Resting && engine.started().connected
            && engine.started().failure is None,
        !engine.connected ==> engine.started().stage == Stage::Token
            && !engine.started().refreshing && !engine.started().connected,
{
}

/// A connection is made with the token that was fetched, and once it is there, with its limits
/// set, a new stream begins and what waited goes out.
pub proof fn law_connections_are_made_in_steps(engine: OnlineModel, token: String)
    requires
        valid(engine),
    ensures
        engine.stage == Stage::Token ==> engine.next(OnlineReply::Token(Ok(token))) == (OnlineModel {
            stage: Stage::Handshake,
            token: token@,
            ..engine
        }),
        engine.stage == Stage::Handshake ==> engine.next(OnlineReply::Connected(Ok(()))) == (
        OnlineModel { stage: Stage::Timeouts, ..engine }),
        engine.stage == Stage::Timeouts ==> ({
            let after = engine.next(OnlineReply::TimeoutsSet(Ok(())));
            &&& after.connected
            &&& !after.first_frame_sent
            &&& after.pending == engine.pending
            &&& after.outgoing == engine.outgoing
            &&& after.options == engine.options
            &&& after.stage == if engine.outgoing is Some {
                Stage::Sending
            } else {
                Stage::Resting
            }
            &&& after.stage == Stage::Resting ==> after.failure is None
        }),
{
}

/// A refused handshake is tried once more with a new token if it was refused for want of a valid
/// one, and only then.
pub proof fn law_refused_handshakes(engine: OnlineModel, failure: HandshakeFailure)
    requires
        valid(engine),
        engine.stage == Stage::Handshake,
    ensures
        !engine.refreshing && is_unauthorized(failure.fault) ==> engine.next(
            OnlineReply::Connected(Err(failure)),
        ) == (OnlineModel { stage: Stage::Token, refreshing: true, ..engine }),
        engine.refreshing || !is_unauthorized(failure.fault) ==> has_failed(
            engine.next(OnlineReply::Connected(Err(failure))),
        ) && engine.next(OnlineReply::Connected(Err(failure))).failure == Some(failure.error@),
{
    law_only_401_is_for_want_of_a_token(failure.fault);
}

/// After each frame the engine reads what has come.
pub proof fn law_frames_are_followed_by_reading(engine: OnlineModel)
    requires
        valid(engine),
        engine.stage == Stage::Sending,
    ensures
        ({
            let after = engine.next(OnlineReply::Sent(Ok(())));
            &&& after.stage == Stage::Reading
            &&& after.reads_left == 8
            &&& !after.heard_final
            &&& after.outgoing is None
            &&& after.pending == engine.pending
            &&& after.first_frame_sent == engine.first_frame_sent
            &&& after.connected
            &&& after.results == engine.results
            &&& after.draining == engine.draining
            &&& after.options == engine.options
        }),
{
}

/// Whether a read gave something that the engine reads on after: a message that is understood, or
/// something that is none.
pub open spec fn is_passed(reply: OnlineReply) -> bool {
    match reply {
        OnlineReply::Read(Incoming::Text(_)) => message_in(reply) is Ok,
        OnlineReply::Read(Incoming::Binary(_)) => message_in(reply) is Ok,
        OnlineReply::Read(Incoming::Other) => true,
        _ => false,
    }
}

proof fn lemma_heard(engine: OnlineModel, meaning: Result<Option<UtteranceModel>, Seq<char>>)
    requires
        meaning is Ok,
    ensures
        exists|progressive: Option<Seq<char>>|
            engine.heard(meaning) == (#[trigger] with_heard(
                engine,
                progressive,
                sentence_in(meaning),
            )).read_on(),
{
    match meaning {
        Err(_) => {},
        Ok(None) => {
            assert(engine.results + Seq::<UtteranceModel>::empty() =~= engine.results);
            assert(with_heard(engine, engine.progressive, sentence_in(meaning)) == engine);
        },
        Ok(Some(utterance)) => {
            if utterance.is_final {
                assert(engine.results + seq![utterance] =~= engine.results.push(utterance));
                assert(with_heard(engine, None, sentence_in(meaning)) == (OnlineModel {
                    progressive: None,
                    results: engine.results.push(utterance),
                    heard_final: true,
                    ..engine
                }));
            } else {
                assert(engine.results + Seq::<UtteranceModel>::empty() =~= engine.results);
                assert(with_heard(engine, Some(utterance.text), sentence_in(meaning)) == (
                OnlineModel { progressive: Some(utterance.text), ..engine }));
            }
        },
    }
}

/// The engine after it was told of a sentence, or of none.
spec fn with_heard(
    engine: OnlineModel,
    progressive: Option<Seq<char>>,
    sentence: Seq<UtteranceModel>,
) -> OnlineModel {
    OnlineModel {
        progressive,
        results: engine.results + sentence,
        heard_final: engine.heard_final || sentence.len() > 0,
        ..engine
    }
}

proof fn lemma_passed(engine: OnlineModel, reply: OnlineReply)
    requires
        engine.stage == Stage::Reading,
        is_passed(reply),
    ensures
        exists|progressive: Option<Seq<char>>|
            engine.next(reply) == (#[trigger] with_heard(
                engine,
                progressive,
                sentence_in(message_in(reply)),
            )).read_on(),
{
    match reply {
        OnlineReply::Read(Incoming::Text(text)) => {
            assert(message_in(reply) == response_text_meaning(text@));
            lemma_heard(engine, message_in(reply));
        },
        OnlineReply::Read(Incoming::Binary(bytes)) => {
            assert(message_in(reply) == response_text_meaning(vstd::utf8::decode_utf8(bytes@)));
            lemma_heard(engine, message_in(reply));
        },
        _ => {
            assert(sentence_in(message_in(reply)) =~= Seq::<UtteranceModel>::empty());
            assert(engine.results + Seq::<UtteranceModel>::empty() =~= engine.results);
            assert(with_heard(engine, engine.progressive, sentence_in(message_in(reply)))
                == engine);
        },
    }
}

/// Within a burst the engine reads on: it counts what it has read, and changes nothing of the
/// stream.
pub proof fn law_bursts_go_on(engine: OnlineModel, reply: OnlineReply)
    requires
        valid(engine),
        engine.reads_left > 1,
        engine.stage == Stage::Reading && is_passed(reply) || engine.stage == Stage::Ponging && (
        reply matches OnlineReply::PongSent(Ok(_))),
    ensures
        ({
            let after = engine.next(reply);
            &&& after.stage == Stage::Reading
            &&& after.reads_left == engine.reads_left - 1
            &&& after.connected
            &&& after.pending == engine.pending
            &&& after.outgoing is None
            &&& after.first_frame_sent == engine.first_frame_sent
            &&& after.drains_left == engine.drains_left
            &&& after.draining == engine.draining
            &&& after.heard_final == (engine.heard_final || sentence_in(message_in(reply)).len()
                > 0)
        }),
{
    if engine.stage == Stage::Reading {
        lemma_passed(engine, reply);
    }
}

/// A ping is answered with what it carried, and then reading goes on where it was.
pub proof fn law_pings_are_answered(engine: OnlineModel, payload: Vec<u8>)
    requires
        valid(engine),
        engine.stage == Stage::Reading,
    ensures
        engine.next(OnlineReply::Read(Incoming::Ping(payload))) == (OnlineModel {
            stage: Stage::Ponging,
            payload: payload@,
            ..engine
        }),
{
}

/// Whether a reply tells that the connection is no more.
pub open spec fn is_hang_up(reply: OnlineReply) -> bool {
    match reply {
        OnlineReply::Read(Incoming::Close) => true,
        OnlineReply::Read(Incoming::Gone) => true,
        _ => false,
    }
}

/// Whether a reply ends a burst of reads: nothing has come, the connection is no more, or as many
/// messages have been read as a burst has.
pub open spec fn ends_burst(engine: OnlineModel, reply: OnlineReply) -> bool {
    ||| engine.stage == Stage::Reading && (is_hang_up(reply) || (reply matches OnlineReply::Read(
        Incoming::Quiet,
    )) || engine.reads_left == 1 && is_passed(reply))
    ||| engine.stage == Stage::Ponging && engine.reads_left == 1 && (reply matches
        OnlineReply::PongSent(Ok(_)))
}

proof fn lemma_burst_end(engine: OnlineModel, reply: OnlineReply)
    requires
        valid(engine),
        ends_burst(engine, reply),
    ensures
        exists|progressive: Option<Seq<char>>|
            engine.next(reply) == (OnlineModel {
                connected: !is_hang_up(reply),
                ..(#[trigger] with_heard(engine, progressive, sentence_in(message_in(reply))))
            }).end_burst(),
{
    assert(engine.results + Seq::<UtteranceModel>::empty() =~= engine.results);
    assert(with_heard(engine, engine.progressive, Seq::empty()) == engine);
    if engine.stage == Stage::Reading && is_passed(reply) {
        lemma_passed(engine, reply);
        let progressive = choose|progressive: Option<Seq<char>>|
            engine.next(reply) == (#[trigger] with_heard(
                engine,
                progressive,
                sentence_in(message_in(reply)),
            )).read_on();
        let told = with_heard(engine, progressive, sentence_in(message_in(reply)));
        assert(told == (OnlineModel { connected: true, ..told }));
    } else if is_hang_up(reply) {
        assert(engine.next(reply) == (OnlineModel { connected: false, ..engine }).end_burst());
    } else {
        assert(engine == (OnlineModel { connected: true, ..engine }));
    }
}

/// While audio is fed, the end of a burst is followed by the next full frame, as long as audio is
/// left behind it, and else by the end of the errand.
pub proof fn law_next_frame_follows_a_burst(engine: OnlineModel, reply: OnlineReply)
    requires
        valid(engine),
        engine.errand == Errand::Accept,
        ends_burst(engine, reply),
    ensures
        ({
            let after = engine.next(reply);
            let size = engine.options.frame_bytes as int;
            &&& after.connected == !is_hang_up(reply)
            &&& engine.pending.len() <= size ==> after.stage == Stage::Resting && after.failure
                is None && after.pending == engine.pending
            &&& engine.pending.len() > size ==> {
                &&& after.stage == if is_hang_up(reply) {
                    Stage::Token
                } else {
                    Stage::Sending
                }
                &&& after.outgoing matches Some(frame) && frame.bytes == engine.pending.take(size)
                    && frame.status == if engine.first_frame_sent {
                    1i32
                } else {
                    0i32
                }
                &&& after.pending == engine.pending.skip(size)
                &&& after.first_frame_sent
            }
        }),
{
    lemma_burst_end(engine, reply);
}

/// Where no audio was taken, the end of a burst is the end of the errand.
pub proof fn law_polls_end_with_a_burst(engine: OnlineModel, reply: OnlineReply)
    requires
        valid(engine),
        engine.errand == Errand::Poll,
        ends_burst(engine, reply),
    ensures
        engine.next(reply).stage == Stage::Resting,
        engine.next(reply).failure is None,
        engine.next(reply).pending == engine.pending,
        engine.next(reply).first_frame_sent == engine.first_frame_sent,
        engine.next(reply).connected == !is_hang_up(reply),
{
    lemma_burst_end(engine, reply);
}

/// At the end of a stream the engine listens, burst by burst, until a sentence was heard in one,
/// twenty of them are over or the connection is no more; and then it closes the connection.
pub proof fn law_ends_are_listened_for(engine: OnlineModel, reply: OnlineReply)
    requires
        valid(engine),
        engine.errand == Errand::Finish || engine.errand == Errand::Reset,
        ends_burst(engine, reply),
    ensures
        ({
            let after = engine.next(reply);
            let heard = engine.heard_final || sentence_in(message_in(reply)).len() > 0;
            let goes_on = if engine.draining {
                !heard && engine.drains_left > 0
            } else {
                engine.first_frame_sent
            };
            &&& is_hang_up(reply) && engine.errand == Errand::Finish ==> after.stage
                == Stage::Resting && after.failure is None && !after.connected
                && after.pending.len() == 0
            &&& is_hang_up(reply) && engine.errand == Errand::Reset ==> after.stage == Stage::Token
                && !after.connected && after.pending.len() == 0 && !after.refreshing
            &&& !is_hang_up(reply) && goes_on ==> {
                &&& after.stage == Stage::Reading
                &&& after.draining
                &&& after.drains_left == if engine.draining {
                    engine.drains_left - 1
                } else {
                    19
                }
                &&& after.reads_left == 8
                &&& !after.heard_final
                &&& after.connected
            }
            &&& !is_hang_up(reply) && !goes_on ==> after.stage == Stage::Closing
        }),
{
    lemma_burst_end(engine, reply);
}

/// Once a connection is closed the stream is over: the end of a stream is done, and a reset makes
/// a new connection, with nothing left of the old stream.
pub proof fn law_closing_ends_the_stream(engine: OnlineModel)
    requires
        valid(engine),
        engine.stage == Stage::Closing,
    ensures
        ({
            let after = engine.next(OnlineReply::Closed);
            &&& !after.connected
            &&& !after.first_frame_sent
            &&& after.pending.len() == 0
            &&& engine.errand == Errand::Finish ==> after.stage == Stage::Resting && after.failure
                is None
            &&& engine.errand == Errand::Reset ==> after.stage == Stage::Token
                && !after.refreshing
        }),
{
}

/// To end a stream, what was held back goes out as its last frame; without any, the engine listens
/// if a frame was sent, and closes the connection if none was; and without a connection there is
/// nothing to end.
pub proof fn law_streams_are_ended(engine: OnlineModel)
    requires
        valid(engine),
        engine.stage == Stage::Resting,
    ensures
        ({
            let after = engine.finishing();
            &&& after.options == engine.options
            &&& after.pending.len() == 0
            &&& engine.pending.len() > 0 ==> {
                &&& after.outgoing matches Some(frame) && frame.bytes == engine.pending
                    && frame.status == 2
                &&& after.first_frame_sent
                &&& !after.draining
                &&& after.stage == if engine.connected {
                    Stage::Sending
                } else {
                    Stage::Token
                }
            }
            &&& engine.pending.len() == 0 && !engine.connected ==> after.stage == Stage::Resting
                && after.failure is None
            &&& engine.pending.len() == 0 && engine.connected && engine.first_frame_sent ==> {
                &&& after.stage == Stage::Reading
                &&& after.draining
                &&& after.drains_left == 19
                &&& after.reads_left == 8
            }
            &&& engine.pending.len() == 0 && engine.connected && !engine.first_frame_sent
                ==> after.stage == Stage::Closing
        }),
{
}

/// A reset ends the stream of an open connection as the end of a stream does; without one it drops
/// what was held back and makes a connection.
pub proof fn law_resets_begin_anew(engine: OnlineModel)
    requires
        valid(engine),
        engine.stage == Stage::Resting,
    ensures
        ({
            let after = engine.resetting();
            &&& after.options == engine.options
            &&& after.pending.len() == 0
            &&& !engine.connected ==> after.stage == Stage::Token && !after.refreshing
                && !after.first_frame_sent
            &&& engine.connected && engine.pending.len() > 0 ==> after.stage == Stage::Sending && (
            after.outgoing matches Some(frame) && frame.bytes == engine.pending && frame.status
                == 2)
            &&& engine.connected && engine.pending.len() == 0 && engine.first_frame_sent
                ==> after.stage == Stage::Reading
            &&& engine.connected && engine.pending.len() == 0 && !engine.first_frame_sent
                ==> after.stage == Stage::Closing
        }),
{
}

/// A reset is not stopped by what goes wrong with the old stream: it goes on to a connection.
pub proof fn law_resets_outlive_the_old_stream(engine: OnlineModel, reply: OnlineReply)
    requires
        valid(engine),
        engine.errand == Errand::Reset,
        !engine.reconnecting,
        engine.failure is None,
        answers(engine.stage, reply),
        fault_in(reply) is Some,
    ensures
        engine.next(reply).failure is None,
        engine.next(reply).pending.len() == 0,
        !engine.next(reply).first_frame_sent,
        engine.next(reply).stage == Stage::Resting <==> engine.next(reply).connected,
{
}

/// Audio that is taken joins what is held back; where that is more than a frame, its first full
/// frame goes out, over a new connection where there is none.
pub proof fn law_taken_audio_goes_out(engine: OnlineModel, samples: Seq<PcmSample>)
    requires
        valid(engine),
        engine.stage == Stage::Resting,
        samples.len() > 0,
    ensures
        ({
            let after = engine.accepting(samples);
            let audio = engine.pending + audio_bytes(engine.options.audio_format@, samples);
            let size = engine.options.frame_bytes as int;
            &&& after.options == engine.options
            &&& audio.len() <= size ==> after.stage == Stage::Resting && after.failure is None
                && after.pending == audio && after.connected == engine.connected
            &&& audio.len() > size ==> {
                &&& after.stage == if engine.connected {
                    Stage::Sending
                } else {
                    Stage::Token
                }
                &&& after.outgoing matches Some(frame) && frame.bytes == audio.take(size)
                    && frame.status == if engine.first_frame_sent {
                    1i32
                } else {
                    0i32
                }
                &&& after.pending == audio.skip(size)
            }
        }),
{
}

/// Without audio, the engine reads what has come, if it is connected, and does nothing else.
pub proof fn law_no_audio_is_a_poll(engine: OnlineModel)
    requires
        valid(engine),
        engine.stage == Stage::Resting,
    ensures
        ({
            let after = engine.accepting(Seq::empty());
            &&& after.pending == engine.pending
            &&& after.connected == engine.connected
            &&& engine.connected ==> after.stage == Stage::Reading && after.reads_left == 8
            &&& !engine.connected ==> after.stage == Stage::Resting && after.failure is None
        }),
{
}

/// How many bytes a sample takes in a format.
pub open spec fn sample_width(format: Seq<char>) -> int {
    if format == "pcm_s16le"@ {
        2
    } else {
        4
    }
}

/// One sample in 16 bits is sent with its low byte first, in two's complement; in any other format
/// its four bytes are those of its bits, the lowest first.
pub proof fn law_samples_are_little_endian(format: Seq<char>, sample: PcmSample)
    ensures
        sample_bytes(format, sample).len() == sample_width(format),
        format == "pcm_s16le"@ ==> ({
            let bytes = sample_bytes(format, sample);
            let value = bytes[0] + 256 * bytes[1];
            value == sample.scaled || value == sample.scaled + 65536
        }),
        format != "pcm_s16le"@ ==> ({
            let bytes = sample_bytes(format, sample);
            sample.bits == bytes[0] + 256 * bytes[1] + 65536 * bytes[2] + 16777216 * bytes[3]
        }),
{
}

/// The bytes of a run of samples are those of its samples, each at its place.
pub proof fn law_audio_is_its_samples(format: Seq<char>, samples: Seq<PcmSample>, i: int)
    requires
        0 <= i < samples.len(),
    ensures
        audio_bytes(format, samples).len() == sample_width(format) * samples.len(),
        audio_bytes(format, samples).subrange(
            sample_width(format) * i,
            sample_width(format) * (i + 1),
        ) == sample_bytes(format, samples[i]),
    decreases samples.len(),
{
    let width = sample_width(format);
    let earlier = samples.drop_last();
    law_samples_are_little_endian(format, samples.last());
    lemma_audio_length(format, samples);
    lemma_audio_length(format, earlier);
    let bytes = audio_bytes(format, samples);
    assert(width == 2 || width == 4);
    if i == samples.len() - 1 {
        assert(bytes.subrange(width * i, width * (i + 1)) =~= sample_bytes(format, samples[i]));
    } else {
        law_audio_is_its_samples(format, earlier, i);
        assert(bytes.subrange(width * i, width * (i + 1)) =~= audio_bytes(
            format,
            earlier,
        ).subrange(width * i, width * (i + 1)));
    }
}

proof fn lemma_audio_length(format: Seq<char>, samples: Seq<PcmSample>)
    ensures
        audio_bytes(format, samples).len() == sample_width(format) * samples.len(),
    decreases samples.len(),
{
    if samples.len() > 0 {
        law_samples_are_little_endian(format, samples.last());
        lemma_audio_length(format, samples.drop_last());
        assert(sample_width(format) == 2 || sample_width(format) == 4);
    } else {
        assert(sample_width(format) * 0 == 0);
    }
}

/// A new engine has its options, no connection and no audio, and is at rest.
pub proof fn law_new_engines_have_nothing(options: OnlineAsrConfig)
    ensures
        OnlineModel::fresh(options).options == options,
        !OnlineModel::fresh(options).connected,
        OnlineModel::fresh(options).pending.len() == 0,
        !OnlineModel::fresh(options).first_frame_sent,
        OnlineModel::fresh(options).results.len() == 0,
        OnlineModel::fresh(options).failure is None,
        OnlineModel::fresh(options).stage == Stage::Resting,
{
}

/// To take an outcome leaves the engine as it is, but for the outcome.
pub proof fn law_outcomes_are_taken_once(engine: OnlineModel)
    ensures
        engine.taken() == (OnlineModel { results: Seq::empty(), failure: None, ..engine }),
{
}

/// A failure ends an errand and leaves the connection, what is held back and the stream as they
/// are. (A reset is another matter.)
pub proof fn law_failures_leave_the_stream(engine: OnlineModel, reply: OnlineReply)
    requires
        valid(engine),
        engine.errand != Errand::Reset,
        engine.stage != Stage::Resting,
        has_failed(engine.next(reply)),
    ensures
        engine.next(reply) == (OnlineModel {
            stage: Stage::Resting,
            outgoing: None,
            results: Seq::empty(),
            failure: engine.next(reply).failure,
            ..engine
        }),
{
    match (engine.stage, reply) {
        (Stage::Reading, OnlineReply::Read(incoming)) => {
            if is_passed(reply) {
                lemma_passed(engine, reply);
                let progressive = choose|progressive: Option<Seq<char>>|
                    engine.next(reply) == (#[trigger] with_heard(
                        engine,
                        progressive,
                        sentence_in(message_in(reply)),
                    )).read_on();
                lemma_burst_does_not_fail(
                    with_heard(engine, progressive, sentence_in(message_in(reply))),
                );
            } else {
                match incoming {
                    Incoming::Close | Incoming::Gone => lemma_burst_does_not_fail(
                        OnlineModel { connected: false, ..engine },
                    ),
                    Incoming::Quiet => lemma_burst_does_not_fail(engine),
                    _ => {},
                }
            }
        },
        (Stage::Sending, OnlineReply::Sent(Ok(_))) => lemma_burst_does_not_fail(
            OnlineModel { outgoing: None, heard_final: false, ..engine },
        ),
        (Stage::Ponging, OnlineReply::PongSent(Ok(_))) => lemma_burst_does_not_fail(engine),
        _ => {},
    }
}

proof fn lemma_burst_does_not_fail(engine: OnlineModel)
    requires
        engine.errand != Errand::Reset,
    ensures
        !has_failed(engine.end_burst()),
        engine.stage != Stage::Resting ==> !has_failed(engine.read_on()),
{
}

/// Every connection is tried with the kept token first; only a refused handshake asks for a new
/// one.
pub proof fn law_kept_tokens_are_tried_first(
    engine: OnlineModel,
    reply: OnlineReply,
    samples: Seq<PcmSample>,
)
    requires
        valid(engine),
    ensures
        engine.started().stage == Stage::Token ==> !engine.started().refreshing,
        engine.accepting(samples).stage == Stage::Token ==> !engine.accepting(samples).refreshing,
        engine.finishing().stage == Stage::Token ==> !engine.finishing().refreshing,
        engine.resetting().stage == Stage::Token ==> !engine.resetting().refreshing,
        engine.next(reply).stage == Stage::Token && engine.stage != Stage::Token && engine.stage
            != Stage::Handshake ==> !engine.next(reply).refreshing,
{
    match (engine.stage, reply) {
        (Stage::Reading, OnlineReply::Read(incoming)) => {
            if is_passed(reply) {
                lemma_passed(engine, reply);
                let progressive = choose|progressive: Option<Seq<char>>|
                    engine.next(reply) == (#[trigger] with_heard(
                        engine,
                        progressive,
                        sentence_in(message_in(reply)),
                    )).read_on();
                lemma_burst_tries_kept_token(
                    with_heard(engine, progressive, sentence_in(message_in(reply))),
                );
            } else {
                match incoming {
                    Incoming::Close | Incoming::Gone => lemma_burst_tries_kept_token(
                        OnlineModel { connected: false, ..engine },
                    ),
                    Incoming::Quiet => lemma_burst_tries_kept_token(engine),
                    _ => {},
                }
            }
        },
        (Stage::Sending, OnlineReply::Sent(Ok(_))) => lemma_burst_tries_kept_token(
            OnlineModel { outgoing: None, heard_final: false, ..engine },
        ),
        (Stage::Ponging, OnlineReply::PongSent(Ok(_))) => lemma_burst_tries_kept_token(engine),
        _ => {},
    }
}

proof fn lemma_burst_tries_kept_token(engine: OnlineModel)
    ensures
        engine.end_burst().stage == Stage::Token ==> !engine.end_burst().refreshing,
        engine.read_on().stage == Stage::Token ==> !engine.read_on().refreshing,
{
}

} // verus!
