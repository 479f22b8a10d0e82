//! What holds of the online engine whatever it is asked and whatever comes back.

use vstd::prelude::*;

use crate::engine::online::{
    audio_bytes, sample_bytes, Errand, FrameModel, Incoming, OnlineModel, OnlineReply, PcmSample,
    Stage, FINAL_BURSTS, FIRST_FRAME, LAST_FRAME, MIDDLE_FRAME, READS_PER_BURST,
};
use crate::engine::online_protocol::{response_text_meaning, UtteranceModel};
use crate::text::utf8_fault;

verus! {

/// Whether the engine is making a connection.
pub open spec fn is_connecting(stage: Stage) -> bool {
    stage == Stage::Token || stage == Stage::Handshake || stage == Stage::Timeouts
}

/// Whether the engine is ending a stream, or has ended one.
pub open spec fn is_ending(errand: Errand) -> bool {
    errand == Errand::Finish || errand == Errand::Reset
}

/// Whether a frame is one that the engine may be about to send: a full frame from within the
/// stream, behind which audio is left, or the last frame, which holds all that was left.
pub open spec fn is_proper_frame(engine: OnlineModel, frame: FrameModel) -> bool {
    if is_ending(engine.errand) {
        frame.status == LAST_FRAME && frame.bytes.len() > 0
    } else {
        &&& engine.errand == Errand::Accept
        &&& frame.status == FIRST_FRAME || frame.status == MIDDLE_FRAME
        &&& frame.bytes.len() == engine.options.frame_bytes
        &&& engine.pending.len() > 0
    }
}

/// Only whole sentences.
pub open spec fn all_final(utterances: Seq<UtteranceModel>) -> bool {
    forall|i: int| 0 <= i < utterances.len() ==> (#[trigger] utterances[i]).is_final
}

/// What holds of an engine in every state that it can come to.
pub open spec fn valid(engine: OnlineModel) -> bool {
    &&& all_final(engine.results)
    &&& is_connecting(engine.stage) ==> !engine.connected
    &&& engine.stage == Stage::Sending ==> engine.connected && engine.outgoing is Some
    &&& engine.stage == Stage::Reading || engine.stage == Stage::Ponging ==> engine.connected
        && engine.outgoing is None && 1 <= engine.reads_left <= READS_PER_BURST
    &&& engine.stage == Stage::Closing ==> engine.connected && engine.outgoing is None
        && is_ending(engine.errand)
    &&& engine.stage == Stage::Resting ==> engine.outgoing is None
    &&& engine.outgoing matches Some(frame) ==> is_proper_frame(engine, frame)
    &&& is_ending(engine.errand) ==> engine.pending.len() == 0
    &&& engine.errand == Errand::Accept ==> engine.pending.len() > 0
    &&& 0 <= engine.drains_left <= FINAL_BURSTS
    &&& engine.reconnecting ==> {
        &&& engine.errand == Errand::Reset
        &&& engine.outgoing is None
        &&& is_connecting(engine.stage) || engine.stage == Stage::Resting
        &&& !engine.first_frame_sent
        &&& engine.results.len() == 0
    }
    &&& engine.errand == Errand::Reset && !engine.reconnecting ==> !is_connecting(engine.stage)
    &&& engine.errand == Errand::Start ==> is_connecting(engine.stage) || engine.stage
        == Stage::Resting
    &&& engine.errand == Errand::Poll ==> !is_connecting(engine.stage)
    &&& is_connecting(engine.stage) && engine.errand == Errand::Finish ==> engine.outgoing is Some
        && !engine.draining
    &&& engine.stage == Stage::Sending && is_ending(engine.errand) ==> !engine.draining
    &&& is_connecting(engine.stage) && engine.errand == Errand::Accept ==> engine.outgoing is Some
}

/// A new engine is valid.
pub proof fn law_new_engine_is_valid(options: crate::config::OnlineAsrConfig)
    ensures
        valid(OnlineModel::fresh(options)),
{
}

/// Whatever a valid engine is asked, it stays valid.
pub proof fn law_errands_keep_validity(engine: OnlineModel, samples: Seq<PcmSample>)
    requires
        valid(engine),
    ensures
        valid(engine.started()),
        valid(engine.accepting(samples)),
        valid(engine.finishing()),
        valid(engine.resetting()),
        valid(engine.taken()),
{
    if samples.len() > 0 {
        assert(sample_bytes(engine.options.audio_format@, samples.last()).len() > 0);
        assert(audio_bytes(engine.options.audio_format@, samples).len() > 0);
    }
}

/// What holds of a valid engine within a burst of reads, whether or not it is still connected.
spec fn within_burst(engine: OnlineModel) -> bool {
    &&& all_final(engine.results)
    &&& engine.outgoing is None
    &&& is_ending(engine.errand) ==> engine.pending.len() == 0
    &&& engine.errand == Errand::Accept ==> engine.pending.len() > 0
    &&& 0 <= engine.drains_left <= FINAL_BURSTS
    &&& !engine.reconnecting
    &&& engine.errand != Errand::Start
}

proof fn lemma_failure(engine: OnlineModel, message: Seq<char>)
    requires
        valid(engine),
    ensures
        valid(engine.failed(message)),
{
}

proof fn lemma_end_burst(engine: OnlineModel)
    requires
        within_burst(engine),
    ensures
        valid(engine.end_burst()),
{
}

proof fn lemma_read_on(engine: OnlineModel)
    requires
        within_burst(engine),
        engine.connected,
        1 <= engine.reads_left <= READS_PER_BURST,
    ensures
        valid(engine.read_on()),
{
    lemma_end_burst(engine);
}

proof fn lemma_heard(engine: OnlineModel, meaning: Result<Option<UtteranceModel>, Seq<char>>)
    requires
        valid(engine),
        engine.stage == Stage::Reading,
    ensures
        valid(engine.heard(meaning)),
{
    match meaning {
        Err(message) => lemma_failure(engine, message),
        Ok(None) => lemma_read_on(engine),
        Ok(Some(utterance)) => {
            if utterance.is_final {
                lemma_read_on(
                    OnlineModel {
                        progressive: None,
                        results: engine.results.push(utterance),
                        heard_final: true,
                        ..engine
                    },
                );
            } else {
                lemma_read_on(OnlineModel { progressive: Some(utterance.text), ..engine });
            }
        },
    }
}

proof fn lemma_read(engine: OnlineModel, incoming: Incoming)
    requires
        valid(engine),
        engine.stage == Stage::Reading,
    ensures
        valid(engine.read(incoming)),
{
    match incoming {
        Incoming::Text(text) => lemma_heard(engine, response_text_meaning(text@)),
        Incoming::Binary(bytes) => {
            lemma_heard(engine, response_text_meaning(vstd::utf8::decode_utf8(bytes@)));
            lemma_failure(engine, utf8_fault(bytes@));
        },
        Incoming::Ping(_) => {},
        Incoming::Other => lemma_read_on(engine),
        Incoming::Close => lemma_end_burst(OnlineModel { connected: false, ..engine }),
        Incoming::Quiet => lemma_end_burst(engine),
        Incoming::Gone => lemma_end_burst(OnlineModel { connected: false, ..engine }),
        Incoming::Failed(error) => lemma_failure(engine, error@),
    }
}

/// Whatever a valid engine is told, it stays valid.
pub proof fn law_replies_keep_validity(engine: OnlineModel, reply: OnlineReply)
    requires
        valid(engine),
    ensures
        valid(engine.next(reply)),
{
    match (engine.stage, reply) {
        (Stage::Token, OnlineReply::Token(Err(error))) => lemma_failure(engine, error@),
        (Stage::Handshake, OnlineReply::Connected(Err(failure))) => lemma_failure(
            engine,
            failure.error@,
        ),
        (Stage::Timeouts, OnlineReply::TimeoutsSet(Err(error))) => lemma_failure(engine, error@),
        (Stage::Sending, OnlineReply::Sent(Ok(_))) => lemma_end_burst(
            OnlineModel { outgoing: None, heard_final: false, ..engine },
        ),
        (Stage::Sending, OnlineReply::Sent(Err(error))) => lemma_failure(engine, error@),
        (Stage::Reading, OnlineReply::Read(incoming)) => lemma_read(engine, incoming),
        (Stage::Ponging, OnlineReply::PongSent(Ok(_))) => lemma_read_on(engine),
        (Stage::Ponging, OnlineReply::PongSent(Err(error))) => lemma_failure(engine, error@),
        _ => {},
    }
}

/// The audio that the engine has taken and not sent yet.
pub open spec fn unsent(engine: OnlineModel) -> Seq<u8> {
    match engine.outgoing {
        Some(frame) => frame.bytes + engine.pending,
        None => engine.pending,
    }
}

/// Whether the errand has ended with an error.
pub open spec fn has_failed(engine: OnlineModel) -> bool {
    engine.stage == Stage::Resting && engine.failure is Some
}

proof fn lemma_next_frame_keeps_audio(engine: OnlineModel)
    requires
        engine.outgoing is None,
    ensures
        unsent(engine.next_frame()) == unsent(engine),
{
    let size = engine.options.frame_bytes as int;
    if engine.pending.len() > size {
        assert(engine.pending.take(size) + engine.pending.skip(size) =~= engine.pending);
    }
}

proof fn lemma_end_burst_keeps_audio(engine: OnlineModel)
    requires
        within_burst(engine),
        engine.errand != Errand::Reset,
    ensures
        unsent(engine.end_burst()) == unsent(engine),
{
    lemma_next_frame_keeps_audio(engine);
}

proof fn lemma_heard_keeps_audio(
    engine: OnlineModel,
    meaning: Result<Option<UtteranceModel>, Seq<char>>,
)
    requires
        valid(engine),
        engine.stage == Stage::Reading,
        engine.errand != Errand::Reset,
    ensures
        unsent(engine.heard(meaning)) == unsent(engine),
{
    match meaning {
        Err(_) => {},
        Ok(None) => lemma_end_burst_keeps_audio(engine),
        Ok(Some(utterance)) => {
            if utterance.is_final {
                lemma_end_burst_keeps_audio(
                    OnlineModel {
                        progressive: None,
                        results: engine.results.push(utterance),
                        heard_final: true,
                        ..engine
                    },
                );
            } else {
                lemma_end_burst_keeps_audio(
                    OnlineModel { progressive: Some(utterance.text), ..engine },
                );
            }
        },
    }
}

proof fn lemma_read_keeps_audio(engine: OnlineModel, incoming: Incoming)
    requires
        valid(engine),
        engine.stage == Stage::Reading,
        engine.errand != Errand::Reset,
    ensures
        unsent(engine.read(incoming)) == unsent(engine),
{
    match incoming {
        Incoming::Text(text) => lemma_heard_keeps_audio(engine, response_text_meaning(text@)),
        Incoming::Binary(bytes) => lemma_heard_keeps_audio(
            engine,
            response_text_meaning(vstd::utf8::decode_utf8(bytes@)),
        ),
        _ => {
            lemma_end_burst_keeps_audio(engine);
            lemma_end_burst_keeps_audio(OnlineModel { connected: false, ..engine });
        },
    }
}

/// No audio is lost, doubled or put out of order: while a stream is fed or finished, a reply
/// leaves the unsent audio as it is, but for a frame at its front, which is gone once it was sent
/// or once its sending has failed.
pub proof fn law_audio_is_sent_once_and_in_order(engine: OnlineModel, reply: OnlineReply)
    requires
        valid(engine),
        engine.errand != Errand::Reset,
    ensures
        engine.stage == Stage::Sending && (reply matches OnlineReply::Sent(Ok(_))) ==> unsent(engine)
            == engine.outgoing->0.bytes + unsent(engine.next(reply)),
        !(engine.stage == Stage::Sending && (reply matches OnlineReply::Sent(Ok(_)))) && !has_failed(
            engine.next(reply),
        ) ==> unsent(engine.next(reply)) == unsent(engine),
        engine.stage != Stage::Resting && has_failed(engine.next(reply)) ==> unsent(
            engine.next(reply),
        ) == engine.pending,
{
    match (engine.stage, reply) {
        (Stage::Sending, OnlineReply::Sent(Ok(_))) => lemma_end_burst_keeps_audio(
            OnlineModel { outgoing: None, heard_final: false, ..engine },
        ),
        (Stage::Reading, OnlineReply::Read(incoming)) => lemma_read_keeps_audio(engine, incoming),
        (Stage::Ponging, OnlineReply::PongSent(Ok(_))) => lemma_end_burst_keeps_audio(engine),
        _ => {},
    }
}

proof fn lemma_end_burst_keeps_errand(engine: OnlineModel)
    ensures
        engine.end_burst().errand == engine.errand,
{
}

proof fn lemma_heard_keeps_errand(
    engine: OnlineModel,
    meaning: Result<Option<UtteranceModel>, Seq<char>>,
)
    ensures
        engine.heard(meaning).errand == engine.errand,
{
    match meaning {
        Err(_) => {},
        Ok(None) => lemma_end_burst_keeps_errand(engine),
        Ok(Some(utterance)) => {
            lemma_end_burst_keeps_errand(
                OnlineModel {
                    progressive: None,
                    results: engine.results.push(utterance),
                    heard_final: true,
                    ..engine
                },
            );
            lemma_end_burst_keeps_errand(
                OnlineModel { progressive: Some(utterance.text), ..engine },
            );
        },
    }
}

/// A reply does not change what the engine is about.
pub proof fn lemma_errand_stays(engine: OnlineModel, reply: OnlineReply)
    ensures
        engine.next(reply).errand == engine.errand,
{
    match (engine.stage, reply) {
        (Stage::Sending, OnlineReply::Sent(Ok(_))) => lemma_end_burst_keeps_errand(
            OnlineModel { outgoing: None, heard_final: false, ..engine },
        ),
        (Stage::Reading, OnlineReply::Read(incoming)) => {
            match incoming {
                Incoming::Text(text) => lemma_heard_keeps_errand(
                    engine,
                    response_text_meaning(text@),
                ),
                Incoming::Binary(bytes) => lemma_heard_keeps_errand(
                    engine,
                    response_text_meaning(vstd::utf8::decode_utf8(bytes@)),
                ),
                Incoming::Close | Incoming::Gone => lemma_end_burst_keeps_errand(
                    OnlineModel { connected: false, ..engine },
                ),
                _ => lemma_end_burst_keeps_errand(engine),
            }
        },
        (Stage::Ponging, OnlineReply::PongSent(Ok(_))) => lemma_end_burst_keeps_errand(engine),
        _ => {},
    }
}

/// The engine after a run of replies.
pub open spec fn after_run(engine: OnlineModel, replies: Seq<OnlineReply>) -> OnlineModel
    decreases replies.len(),
{
    if replies.len() == 0 {
        engine
    } else {
        after_run(engine, replies.drop_last()).next(replies.last())
    }
}

/// The audio that a reply confirms to have gone out.
pub open spec fn sent_with(engine: OnlineModel, reply: OnlineReply) -> Seq<u8> {
    if engine.stage == Stage::Sending && reply matches OnlineReply::Sent(Ok(_)) {
        engine.outgoing->0.bytes
    } else {
        Seq::empty()
    }
}

/// The audio that has gone out in a run of replies.
pub open spec fn sent_in_run(engine: OnlineModel, replies: Seq<OnlineReply>) -> Seq<u8>
    decreases replies.len(),
{
    if replies.len() == 0 {
        Seq::empty()
    } else {
        sent_in_run(engine, replies.drop_last()) + sent_with(
            after_run(engine, replies.drop_last()),
            replies.last(),
        )
    }
}

proof fn lemma_step_sends(engine: OnlineModel, reply: OnlineReply)
    requires
        valid(engine),
        engine.errand != Errand::Reset,
        !has_failed(engine.next(reply)),
    ensures
        sent_with(engine, reply) + unsent(engine.next(reply)) == unsent(engine),
        !has_failed(engine),
{
    law_audio_is_sent_once_and_in_order(engine, reply);
    assert(Seq::<u8>::empty() + unsent(engine.next(reply)) =~= unsent(engine.next(reply)));
}

/// However a run of replies goes, as long as nothing fails: what has gone out in it, followed by
/// what is still unsent, is what was unsent before.
#[verifier::rlimit(30)]
pub proof fn law_runs_send_audio_in_order(engine: OnlineModel, replies: Seq<OnlineReply>)
    requires
        valid(engine),
        engine.errand != Errand::Reset,
        !has_failed(after_run(engine, replies)),
    ensures
        valid(after_run(engine, replies)),
        after_run(engine, replies).errand == engine.errand,
        sent_in_run(engine, replies) + unsent(after_run(engine, replies)) == unsent(engine),
    decreases replies.len(),
{
    if replies.len() == 0 {
        assert(Seq::<u8>::empty() + unsent(engine) =~= unsent(engine));
    } else {
        let before = after_run(engine, replies.drop_last());
        let reply = replies.last();
        lemma_run_keeps_validity(engine, replies.drop_last());
        lemma_errand_stays(before, reply);
        law_replies_keep_validity(before, reply);
        lemma_step_sends(before, reply);
        law_runs_send_audio_in_order(engine, replies.drop_last());
        let earlier = sent_in_run(engine, replies.drop_last());
        assert((earlier + sent_with(before, reply)) + unsent(before.next(reply)) =~= earlier + (
        sent_with(before, reply) + unsent(before.next(reply))));
    }
}

proof fn lemma_run_keeps_validity(engine: OnlineModel, replies: Seq<OnlineReply>)
    requires
        valid(engine),
    ensures
        valid(after_run(engine, replies)),
        after_run(engine, replies).errand == engine.errand,
    decreases replies.len(),
{
    if replies.len() > 0 {
        let before = after_run(engine, replies.drop_last());
        lemma_run_keeps_validity(engine, replies.drop_last());
        law_replies_keep_validity(before, replies.last());
        lemma_errand_stays(before, replies.last());
    }
}

/// By the end of a stream that ends well, all the audio that was held back has gone out.
pub proof fn law_whole_stream_is_sent(engine: OnlineModel, replies: Seq<OnlineReply>)
    requires
        valid(engine),
        engine.stage == Stage::Resting,
        after_run(engine.finishing(), replies).stage == Stage::Resting,
        after_run(engine.finishing(), replies).failure is None,
    ensures
        sent_in_run(engine.finishing(), replies) == engine.pending,
{
    law_errands_keep_validity(engine, Seq::empty());
    law_taken_audio_is_kept(engine, Seq::empty());
    law_runs_send_audio_in_order(engine.finishing(), replies);
    let after = after_run(engine.finishing(), replies);
    assert(unsent(after) =~= Seq::<u8>::empty());
    assert(sent_in_run(engine.finishing(), replies) + unsent(after) =~= sent_in_run(
        engine.finishing(),
        replies,
    ));
}

/// Audio that is taken joins the end of what is unsent, and the end of a stream adds and drops
/// nothing.
pub proof fn law_taken_audio_is_kept(engine: OnlineModel, samples: Seq<PcmSample>)
    requires
        valid(engine),
        engine.stage == Stage::Resting,
    ensures
        unsent(engine.accepting(samples)) == unsent(engine) + audio_bytes(
            engine.options.audio_format@,
            samples,
        ),
        unsent(engine.finishing()) == unsent(engine),
{
    let bytes = audio_bytes(engine.options.audio_format@, samples);
    if samples.len() == 0 {
        assert(unsent(engine) + bytes =~= unsent(engine));
    } else {
        lemma_next_frame_keeps_audio(
            (OnlineModel { pending: engine.pending + bytes, ..engine }).begun(Errand::Accept),
        );
    }
    assert(engine.pending + Seq::<u8>::empty() =~= engine.pending);
}

/// The frames that go out: within a stream each is full, and audio is left behind it, so that the
/// frame that ends the stream is never empty; and that frame alone carries the last status.
pub proof fn law_frames_are_proper(engine: OnlineModel)
    requires
        valid(engine),
        engine.stage == Stage::Sending,
    ensures
        engine.outgoing matches Some(frame) && is_proper_frame(engine, frame),
{
}

/// A stream that was fed does not end in silence: what was held back goes out as the frame that
/// ends it.
pub proof fn law_end_of_stream_is_marked(engine: OnlineModel)
    requires
        valid(engine),
        engine.stage == Stage::Resting,
        engine.errand == Errand::Accept,
    ensures
        engine.finishing().outgoing == Some(
            FrameModel { bytes: engine.pending, status: LAST_FRAME },
        ),
        engine.pending.len() > 0,
{
}

/// Only whole sentences are handed out.
pub proof fn law_only_sentences_are_results(engine: OnlineModel)
    requires
        valid(engine),
    ensures
        all_final(engine.results),
{
}

/// How an errand that has just succeeded leaves the engine: started and reset engines are
/// connected, a finished one is not and has no audio left, and one that was fed holds back some
/// audio, at most one frame of it.
pub open spec fn is_well_ended(engine: OnlineModel) -> bool {
    &&& engine.stage == Stage::Resting
    &&& engine.failure is None ==> match engine.errand {
        Errand::Start => engine.connected,
        Errand::Accept => 0 < engine.pending.len() <= engine.options.frame_bytes,
        Errand::Poll => true,
        Errand::Finish => !engine.connected && engine.pending.len() == 0,
        Errand::Reset => engine.connected && engine.pending.len() == 0
            && !engine.first_frame_sent && engine.results.len() == 0,
    }
}

spec fn is_well_ended_if_resting(engine: OnlineModel) -> bool {
    engine.stage == Stage::Resting ==> is_well_ended(engine)
}

proof fn lemma_end_burst_ends_well(engine: OnlineModel)
    requires
        within_burst(engine),
    ensures
        is_well_ended_if_resting(engine.end_burst()),
{
}

proof fn lemma_heard_ends_well(
    engine: OnlineModel,
    meaning: Result<Option<UtteranceModel>, Seq<char>>,
)
    requires
        valid(engine),
        engine.stage == Stage::Reading,
    ensures
        is_well_ended_if_resting(engine.heard(meaning)),
{
    match meaning {
        Err(_) => {},
        Ok(None) => lemma_end_burst_ends_well(engine),
        Ok(Some(utterance)) => {
            if utterance.is_final {
                lemma_end_burst_ends_well(
                    OnlineModel {
                        progressive: None,
                        results: engine.results.push(utterance),
                        heard_final: true,
                        ..engine
                    },
                );
            } else {
                lemma_end_burst_ends_well(
                    OnlineModel { progressive: Some(utterance.text), ..engine },
                );
            }
        },
    }
}

/// An errand that ends, at once or with a reply, ends as `is_well_ended` says.
pub proof fn law_errands_end_well(engine: OnlineModel, samples: Seq<PcmSample>, reply: OnlineReply)
    requires
        valid(engine),
    ensures
        engine.started().stage == Stage::Resting ==> is_well_ended(engine.started()),
        engine.accepting(samples).stage == Stage::Resting ==> is_well_ended(
            engine.accepting(samples),
        ),
        engine.finishing().stage == Stage::Resting ==> is_well_ended(engine.finishing()),
        engine.resetting().stage == Stage::Resting ==> is_well_ended(engine.resetting()),
        engine.stage != Stage::Resting && engine.next(reply).stage == Stage::Resting
            ==> is_well_ended(engine.next(reply)),
{
    match (engine.stage, reply) {
        (Stage::Sending, OnlineReply::Sent(Ok(_))) => lemma_end_burst_ends_well(
            OnlineModel { outgoing: None, heard_final: false, ..engine },
        ),
        (Stage::Reading, OnlineReply::Read(incoming)) => {
            match incoming {
                Incoming::Text(text) => lemma_heard_ends_well(engine, response_text_meaning(text@)),
                Incoming::Binary(bytes) => lemma_heard_ends_well(
                    engine,
                    response_text_meaning(vstd::utf8::decode_utf8(bytes@)),
                ),
                Incoming::Close | Incoming::Gone => lemma_end_burst_ends_well(
                    OnlineModel { connected: false, ..engine },
                ),
                _ => lemma_end_burst_ends_well(engine),
            }
        },
        (Stage::Ponging, OnlineReply::PongSent(Ok(_))) => lemma_end_burst_ends_well(engine),
        _ => {},
    }
}

/// A handshake that is refused for want of a valid token is tried once more with a new token, and
/// not a third time.
pub proof fn law_one_refresh_per_connection(engine: OnlineModel, reply: OnlineReply)
    requires
        valid(engine),
        engine.stage == Stage::Handshake,
        reply matches OnlineReply::Connected(Err(_)),
    ensures
        engine.refreshing ==> has_failed(engine.next(reply)),
        has_failed(engine.next(reply)) || engine.next(reply) == (OnlineModel {
            stage: Stage::Token,
            refreshing: true,
            ..engine
        }),
{
}

/// Whether a reply answers to what the engine waits for.
pub open spec fn answers(stage: Stage, reply: OnlineReply) -> bool {
    match stage {
        Stage::Resting => false,
        Stage::Token => reply is Token,
        Stage::Handshake => reply is Connected,
        Stage::Timeouts => reply is TimeoutsSet,
        Stage::Sending => reply is Sent,
        Stage::Reading => reply is Read,
        Stage::Ponging => reply is PongSent,
        Stage::Closing => reply is Closed,
    }
}

/// A bound on the steps that are left once the stream is closed.
pub open spec fn work_after_close(errand: Errand) -> int {
    if errand == Errand::Reset {
        6
    } else {
        0
    }
}

/// A bound on the steps that are left once what has come has been read.
pub open spec fn work_after_burst(engine: OnlineModel) -> int {
    match engine.errand {
        Errand::Start | Errand::Poll => 0,
        Errand::Accept => 30 * engine.pending.len() as int,
        Errand::Finish | Errand::Reset => (if engine.draining {
            17 * engine.drains_left
        } else {
            17 * FINAL_BURSTS + 1
        }) + 1 + work_after_close(engine.errand),
    }
}

/// A bound on the steps that are left once there is a connection.
pub open spec fn work_on_connection(engine: OnlineModel) -> int {
    if engine.outgoing is Some {
        18 + work_after_burst(engine)
    } else {
        0
    }
}

/// A bound on the steps that are left of the errand.
pub open spec fn work(engine: OnlineModel) -> int {
    match engine.stage {
        Stage::Resting => 0,
        Stage::Token => work_on_connection(engine) + (if engine.refreshing {
            3int
        } else {
            5int
        }),
        Stage::Handshake => work_on_connection(engine) + (if engine.refreshing {
            2int
        } else {
            4int
        }),
        Stage::Timeouts => work_on_connection(engine) + 1,
        Stage::Sending => 18 + work_after_burst(engine),
        Stage::Reading => 2 * engine.reads_left + work_after_burst(engine),
        Stage::Ponging => 2 * engine.reads_left - 1 + work_after_burst(engine),
        Stage::Closing => 1 + work_after_close(engine.errand),
    }
}

proof fn lemma_end_burst_is_progress(engine: OnlineModel)
    requires
        within_burst(engine),
        engine.options.frame_bytes > 0,
    ensures
        work(engine.end_burst()) <= work_after_burst(engine),
{
}

proof fn lemma_failure_is_progress(engine: OnlineModel, message: Seq<char>)
    requires
        valid(engine),
        engine.stage != Stage::Resting,
    ensures
        work(engine.failed(message)) < work(engine),
{
}

proof fn lemma_read_on_is_progress(engine: OnlineModel)
    requires
        within_burst(engine),
        1 <= engine.reads_left,
        engine.options.frame_bytes > 0,
    ensures
        work(engine.read_on()) < 2 * engine.reads_left - 1 + work_after_burst(engine),
{
    lemma_end_burst_is_progress(engine);
}

proof fn lemma_heard_is_progress(
    engine: OnlineModel,
    meaning: Result<Option<UtteranceModel>, Seq<char>>,
)
    requires
        valid(engine),
        engine.stage == Stage::Reading,
        engine.options.frame_bytes > 0,
    ensures
        work(engine.heard(meaning)) < work(engine),
{
    match meaning {
        Err(message) => lemma_failure_is_progress(engine, message),
        Ok(None) => lemma_read_on_is_progress(engine),
        Ok(Some(utterance)) => {
            if utterance.is_final {
                lemma_read_on_is_progress(
                    OnlineModel {
                        progressive: None,
                        results: engine.results.push(utterance),
                        heard_final: true,
                        ..engine
                    },
                );
            } else {
                lemma_read_on_is_progress(
                    OnlineModel { progressive: Some(utterance.text), ..engine },
                );
            }
        },
    }
}

proof fn lemma_read_is_progress(engine: OnlineModel, incoming: Incoming)
    requires
        valid(engine),
        engine.stage == Stage::Reading,
        engine.options.frame_bytes > 0,
    ensures
        work(engine.read(incoming)) < work(engine),
{
    match incoming {
        Incoming::Text(text) => lemma_heard_is_progress(engine, response_text_meaning(text@)),
        Incoming::Binary(bytes) => {
            lemma_heard_is_progress(engine, response_text_meaning(vstd::utf8::decode_utf8(bytes@)));
            lemma_failure_is_progress(engine, utf8_fault(bytes@));
        },
        Incoming::Ping(_) => {},
        Incoming::Other => lemma_read_on_is_progress(engine),
        Incoming::Close => lemma_end_burst_is_progress(OnlineModel { connected: false, ..engine }),
        Incoming::Quiet => lemma_end_burst_is_progress(engine),
        Incoming::Gone => lemma_end_burst_is_progress(OnlineModel { connected: false, ..engine }),
        Incoming::Failed(error) => lemma_failure_is_progress(engine, error@),
    }
}

/// Every errand comes to an end: as long as it has not, there is work left, and every answer
/// leaves less of it. (With frames of no bytes there would be no end to them.)
pub proof fn law_errands_come_to_an_end(engine: OnlineModel, reply: OnlineReply)
    requires
        valid(engine),
        engine.options.frame_bytes > 0,
        answers(engine.stage, reply),
    ensures
        0 <= work(engine.next(reply)) < work(engine),
{
    law_replies_keep_validity(engine, reply);
    match (engine.stage, reply) {
        (Stage::Token, OnlineReply::Token(Err(error))) => lemma_failure_is_progress(engine, error@),
        (Stage::Handshake, OnlineReply::Connected(Err(failure))) => lemma_failure_is_progress(
            engine,
            failure.error@,
        ),
        (Stage::Timeouts, OnlineReply::TimeoutsSet(Err(error))) => lemma_failure_is_progress(
            engine,
            error@,
        ),
        (Stage::Sending, OnlineReply::Sent(Err(error))) => lemma_failure_is_progress(engine, error@),
        (Stage::Reading, OnlineReply::Read(incoming)) => lemma_read_is_progress(engine, incoming),
        (Stage::Ponging, OnlineReply::PongSent(Ok(_))) => lemma_read_on_is_progress(engine),
        (Stage::Ponging, OnlineReply::PongSent(Err(error))) => lemma_failure_is_progress(
            engine,
            error@,
        ),
        _ => {},
    }
}

} // verus!
