//! What the outcome of an errand of the online engine is, by what was read meanwhile.

use vstd::prelude::*;

use crate::engine::online::{
    unauthorized, utterance_models, Errand, HandshakeFault, Incoming, OnlineModel, OnlineReply,
    PcmSample, Stage,
};
use crate::engine::online_laws::{
    after_run, answers, has_failed, law_errands_keep_validity, law_replies_keep_validity,
    lemma_errand_stays, valid,
};
use crate::engine::online_protocol::{response_text_meaning, OnlineUtterance, UtteranceModel};
use crate::error::HybridAsrResult;
use crate::text::utf8_fault;

verus! {

/// The sentence in what a message says: an utterance that is final, if there is one.
pub open spec fn sentence_in(meaning: Result<Option<UtteranceModel>, Seq<char>>) -> Seq<
    UtteranceModel,
> {
    match meaning {
        Ok(Some(utterance)) => if utterance.is_final {
            seq![utterance]
        } else {
            Seq::empty()
        },
        _ => Seq::empty(),
    }
}

/// What a read that gave a message says; nothing, where it gave none.
pub open spec fn message_in(reply: OnlineReply) -> Result<Option<UtteranceModel>, Seq<char>> {
    match reply {
        OnlineReply::Read(Incoming::Text(text)) => response_text_meaning(text@),
        OnlineReply::Read(Incoming::Binary(bytes)) => if vstd::utf8::valid_utf8(bytes@) {
            response_text_meaning(vstd::utf8::decode_utf8(bytes@))
        } else {
            Err(utf8_fault(bytes@))
        },
        _ => Ok(None),
    }
}

/// The sentences in what was read in a run of replies, in the order in which they were read.
pub open spec fn sentences_in(replies: Seq<OnlineReply>) -> Seq<UtteranceModel>
    decreases replies.len(),
{
    if replies.len() == 0 {
        Seq::empty()
    } else {
        sentences_in(replies.drop_last()) + sentence_in(message_in(replies.last()))
    }
}

/// The message of the error that a reply brings, if it brings one: that something could not be
/// done, or that what was read cannot be understood or reports a failure.
pub open spec fn fault_in(reply: OnlineReply) -> Option<Seq<char>> {
    match reply {
        OnlineReply::Token(Err(error)) => Some(error@),
        OnlineReply::Connected(Err(failure)) => Some(failure.error@),
        OnlineReply::TimeoutsSet(Err(error)) => Some(error@),
        OnlineReply::Sent(Err(error)) => Some(error@),
        OnlineReply::PongSent(Err(error)) => Some(error@),
        OnlineReply::Read(Incoming::Failed(error)) => Some(error@),
        _ => match message_in(reply) {
            Err(message) => Some(message),
            Ok(_) => None,
        },
    }
}

/// The fault that ended a run of replies, if one did.
pub open spec fn last_fault(replies: Seq<OnlineReply>) -> Option<Seq<char>> {
    if replies.len() == 0 {
        None
    } else {
        fault_in(replies.last())
    }
}

/// Whether each reply of a run answers to what the engine waits for when it comes.
pub open spec fn all_answer(engine: OnlineModel, replies: Seq<OnlineReply>) -> bool
    decreases replies.len(),
{
    replies.len() > 0 ==> all_answer(engine, replies.drop_last()) && answers(
        after_run(engine, replies.drop_last()).stage,
        replies.last(),
    )
}

/// Whether a handshake was refused for want of a valid token and may be tried once more.
pub open spec fn is_retried(engine: OnlineModel, reply: OnlineReply) -> bool {
    engine.stage == Stage::Handshake && !engine.refreshing && (reply matches OnlineReply::Connected(
        Err(failure),
    ) && is_unauthorized(failure.fault))
}

/// Whether a handshake fault tells of the HTTP status 401.
pub open spec fn is_unauthorized(fault: HandshakeFault) -> bool {
    match fault {
        HandshakeFault::Http(status) => status == 401,
        HandshakeFault::HttpFormat(message) => exists|at: int|
            0 <= at <= message@.len() - 3 && #[trigger] message@.subrange(at, at + 3) == seq![
                '4',
                '0',
                '1',
            ],
        HandshakeFault::Other => false,
    }
}

/// A handshake fault counts as one for want of a valid token exactly where it tells of the status
/// 401.
pub proof fn law_only_401_is_for_want_of_a_token(fault: HandshakeFault)
    ensures
        unauthorized(fault) == is_unauthorized(fault),
{
    reveal_strlit("401");
    assert("401"@ =~= seq!['4', '0', '1']);
}

/// What the engine has gathered of what it was told.
spec fn has_gathered(engine: OnlineModel, heard: Seq<UtteranceModel>) -> bool {
    engine.failure is None && engine.results == heard
}

proof fn lemma_burst_gathers(engine: OnlineModel)
    requires
        engine.errand != Errand::Reset,
        engine.failure is None,
    ensures
        has_gathered(engine.end_burst(), engine.results),
        has_gathered(engine.read_on(), engine.results),
{
}

proof fn lemma_heard_gathers(
    engine: OnlineModel,
    meaning: Result<Option<UtteranceModel>, Seq<char>>,
)
    requires
        engine.errand != Errand::Reset,
        engine.failure is None,
    ensures
        meaning is Ok ==> has_gathered(
            engine.heard(meaning),
            engine.results + sentence_in(meaning),
        ),
        meaning matches Err(message) ==> has_failed(engine.heard(meaning)) && engine.heard(
            meaning,
        ).failure == Some(message),
{
    assert(engine.results + Seq::<UtteranceModel>::empty() =~= engine.results);
    match meaning {
        Err(_) => {},
        Ok(None) => lemma_burst_gathers(engine),
        Ok(Some(utterance)) => {
            if utterance.is_final {
                let told = OnlineModel {
                    progressive: None,
                    results: engine.results.push(utterance),
                    heard_final: true,
                    ..engine
                };
                assert(engine.results + seq![utterance] =~= engine.results.push(utterance));
                lemma_burst_gathers(told);
            } else {
                lemma_burst_gathers(OnlineModel { progressive: Some(utterance.text), ..engine });
            }
        },
    }
}

/// A reply that brings an error ends an errand with that error, unless it is a refusal of a
/// handshake that is tried once more; any other adds the sentence that it brings to what was
/// gathered, and nothing else. (A reset is another matter.)
pub proof fn law_replies_add_their_sentence(engine: OnlineModel, reply: OnlineReply)
    requires
        valid(engine),
        engine.errand != Errand::Reset,
        engine.failure is None,
        answers(engine.stage, reply),
    ensures
        fault_in(reply) is None || is_retried(engine, reply) ==> engine.next(reply).failure is None
            && engine.next(reply).results == engine.results + sentence_in(message_in(reply)),
        fault_in(reply) is Some && !is_retried(engine, reply) ==> has_failed(engine.next(reply))
            && engine.next(reply).failure == fault_in(reply),
        is_retried(engine, reply) ==> engine.next(reply).stage != Stage::Resting,
{
    assert(engine.results + Seq::<UtteranceModel>::empty() =~= engine.results);
    match (engine.stage, reply) {
        (Stage::Handshake, OnlineReply::Connected(Err(failure))) => {
            law_only_401_is_for_want_of_a_token(failure.fault);
        },
        (Stage::Sending, OnlineReply::Sent(Ok(_))) => lemma_burst_gathers(
            OnlineModel { outgoing: None, heard_final: false, ..engine },
        ),
        (Stage::Reading, OnlineReply::Read(incoming)) => {
            match incoming {
                Incoming::Text(text) => lemma_heard_gathers(engine, response_text_meaning(text@)),
                Incoming::Binary(bytes) => lemma_heard_gathers(
                    engine,
                    response_text_meaning(vstd::utf8::decode_utf8(bytes@)),
                ),
                Incoming::Close | Incoming::Gone => lemma_burst_gathers(
                    OnlineModel { connected: false, ..engine },
                ),
                _ => lemma_burst_gathers(engine),
            }
        },
        (Stage::Ponging, OnlineReply::PongSent(Ok(_))) => lemma_burst_gathers(engine),
        _ => {},
    }
}

proof fn lemma_run_gathers(engine: OnlineModel, replies: Seq<OnlineReply>)
    requires
        valid(engine),
        engine.errand != Errand::Reset,
        has_gathered(engine, Seq::empty()),
        all_answer(engine, replies),
    ensures
        valid(after_run(engine, replies)),
        after_run(engine, replies).errand == engine.errand,
        has_failed(after_run(engine, replies)) ==> last_fault(replies) is Some && after_run(
            engine,
            replies,
        ).failure == last_fault(replies),
        !has_failed(after_run(engine, replies)) ==> has_gathered(
            after_run(engine, replies),
            sentences_in(replies),
        ),
        !has_failed(after_run(engine, replies)) && after_run(engine, replies).stage
            == Stage::Resting ==> last_fault(replies) is None,
    decreases replies.len(),
{
    if replies.len() > 0 {
        let before = after_run(engine, replies.drop_last());
        let reply = replies.last();
        lemma_run_gathers(engine, replies.drop_last());
        law_replies_keep_validity(before, reply);
        law_replies_add_their_sentence(before, reply);
        lemma_errand_stays(before, reply);
    }
}

/// Whether an errand other than a reset has just begun over an engine at rest.
pub open spec fn is_begun(engine: OnlineModel, samples: Seq<PcmSample>, begun: OnlineModel) -> bool {
    begun == engine.started() || begun == engine.accepting(samples) || begun == engine.finishing()
}

/// What an errand hands out. One that was ended by an error hands out that error. Any other hands
/// out exactly the sentences that were read meanwhile, in the order in which they were read:
/// whether they were read while audio was fed, while nothing was, or at the end of the stream.
pub proof fn law_errands_hand_out_what_was_said(
    engine: OnlineModel,
    samples: Seq<PcmSample>,
    begun: OnlineModel,
    replies: Seq<OnlineReply>,
    outcome: HybridAsrResult<Vec<OnlineUtterance>>,
)
    requires
        valid(engine),
        engine.stage == Stage::Resting,
        is_begun(engine, samples, begun),
        all_answer(begun, replies),
        after_run(begun, replies).stage == Stage::Resting,
        after_run(begun, replies).ended_in(outcome),
    ensures
        last_fault(replies) is None <==> outcome is Ok,
        outcome matches Ok(results) ==> {
            &&& results@.len() == sentences_in(replies).len()
            &&& forall|i: int|
                0 <= i < results@.len() ==> (#[trigger] results@[i])@ == sentences_in(replies)[i]
        },
        outcome matches Err(error) ==> last_fault(replies) == Some(error@),
{
    law_errands_keep_validity(engine, samples);
    lemma_errands_begin_with_nothing(engine, samples, begun);
    lemma_run_gathers(begun, replies);
    if let Ok(results) = outcome {
        assert(utterance_models(results@) == sentences_in(replies));
        assert forall|i: int| 0 <= i < results@.len() implies (#[trigger] results@[i])@
            == sentences_in(replies)[i] by {
            assert(utterance_models(results@)[i] == results@[i]@);
        }
    }
}

proof fn lemma_errands_begin_with_nothing(
    engine: OnlineModel,
    samples: Seq<PcmSample>,
    begun: OnlineModel,
)
    requires
        is_begun(engine, samples, begun),
    ensures
        begun.errand != Errand::Reset,
        has_gathered(begun, Seq::empty()),
{
}

/// What a reset hands out: nothing that was said before it, or the error that kept it from
/// connecting anew.
pub proof fn law_resets_hand_out_nothing(
    engine: OnlineModel,
    replies: Seq<OnlineReply>,
    outcome: HybridAsrResult<Vec<OnlineUtterance>>,
)
    requires
        valid(engine),
        engine.stage == Stage::Resting,
        all_answer(engine.resetting(), replies),
        after_run(engine.resetting(), replies).stage == Stage::Resting,
        after_run(engine.resetting(), replies).ended_in(outcome),
    ensures
        outcome matches Ok(results) ==> results@.len() == 0,
        outcome matches Err(error) ==> last_fault(replies) == Some(error@),
        outcome is Ok ==> after_run(engine.resetting(), replies).connected,
{
    law_errands_keep_validity(engine, Seq::empty());
    lemma_reset_run(engine.resetting(), replies);
    if let Ok(results) = outcome {
        assert(utterance_models(results@).len() == results@.len());
    }
}

/// What holds of a reset on its way.
spec fn is_resetting(engine: OnlineModel, replies: Seq<OnlineReply>) -> bool {
    &&& engine.errand == Errand::Reset
    &&& has_failed(engine) ==> last_fault(replies) is Some && engine.failure == last_fault(replies)
    &&& !has_failed(engine) ==> engine.failure is None
    &&& engine.stage == Stage::Resting ==> engine.results.len() == 0
    &&& engine.stage == Stage::Resting && engine.failure is None ==> engine.connected
}

#[verifier::rlimit(30)]
proof fn lemma_reset_step(engine: OnlineModel, earlier: Seq<OnlineReply>, reply: OnlineReply)
    requires
        valid(engine),
        is_resetting(engine, earlier),
        answers(engine.stage, reply),
    ensures
        is_resetting(engine.next(reply), earlier.push(reply)),
{
    assert(earlier.push(reply).last() == reply);
    let after = engine.next(reply);
    match (engine.stage, reply) {
        (Stage::Handshake, OnlineReply::Connected(Err(_))) => {},
        (Stage::Reading, OnlineReply::Read(incoming)) => {
            match incoming {
                Incoming::Text(text) => lemma_reset_heard(engine, response_text_meaning(text@)),
                Incoming::Binary(bytes) => lemma_reset_heard(
                    engine,
                    response_text_meaning(vstd::utf8::decode_utf8(bytes@)),
                ),
                Incoming::Close | Incoming::Gone => lemma_reset_burst(
                    OnlineModel { connected: false, ..engine },
                ),
                _ => lemma_reset_burst(engine),
            }
        },
        (Stage::Sending, OnlineReply::Sent(Ok(_))) => lemma_reset_burst(
            OnlineModel { outgoing: None, heard_final: false, ..engine },
        ),
        (Stage::Ponging, OnlineReply::PongSent(Ok(_))) => lemma_reset_burst(engine),
        _ => {},
    }
}

/// Whether a reset goes on, or has ended well.
spec fn goes_on(engine: OnlineModel) -> bool {
    &&& engine.errand == Errand::Reset
    &&& engine.failure is None
    &&& engine.stage == Stage::Resting ==> engine.results.len() == 0 && engine.connected
}

proof fn lemma_reset_burst(engine: OnlineModel)
    requires
        engine.errand == Errand::Reset,
        engine.failure is None,
        engine.outgoing is None,
    ensures
        goes_on(engine.end_burst()),
        goes_on(engine.read_on()),
{
}

proof fn lemma_reset_heard(
    engine: OnlineModel,
    meaning: Result<Option<UtteranceModel>, Seq<char>>,
)
    requires
        engine.errand == Errand::Reset,
        !engine.reconnecting,
        engine.failure is None,
        engine.outgoing is None,
    ensures
        goes_on(engine.heard(meaning)),
{
    match meaning {
        Err(_) => {},
        Ok(None) => lemma_reset_burst(engine),
        Ok(Some(utterance)) => {
            lemma_reset_burst(
                OnlineModel {
                    progressive: None,
                    results: engine.results.push(utterance),
                    heard_final: true,
                    ..engine
                },
            );
            lemma_reset_burst(OnlineModel { progressive: Some(utterance.text), ..engine });
        },
    }
}

proof fn lemma_reset_run(engine: OnlineModel, replies: Seq<OnlineReply>)
    requires
        valid(engine),
        is_resetting(engine, Seq::empty()),
        all_answer(engine, replies),
    ensures
        valid(after_run(engine, replies)),
        is_resetting(after_run(engine, replies), replies),
    decreases replies.len(),
{
    if replies.len() == 0 {
        assert(replies =~= Seq::<OnlineReply>::empty());
    } else {
        let earlier = replies.drop_last();
        let before = after_run(engine, earlier);
        lemma_reset_run(engine, earlier);
        law_replies_keep_validity(before, replies.last());
        lemma_reset_step(before, earlier, replies.last());
        assert(earlier.push(replies.last()) =~= replies);
    }
}

} // verus!
