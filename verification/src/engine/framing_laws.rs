//! What holds of the frames in which audio goes out.

use vstd::prelude::*;

use crate::engine::online::{
    audio_bytes, Errand, FrameModel, Incoming, OnlineModel, OnlineReply, PcmSample, Stage,
    FIRST_FRAME, MIDDLE_FRAME,
};
use crate::engine::online_laws::{
    after_run, has_failed, law_errands_keep_validity, law_replies_keep_validity, valid,
};
use crate::engine::online_protocol::{response_text_meaning, UtteranceModel};

verus! {

/// The full frames of a run of audio, in order. The last bytes are held back, however few.
pub open spec fn frames_of(audio: Seq<u8>, size: int, first_frame_sent: bool) -> Seq<FrameModel>
    decreases audio.len(),
{
    if 0 < size < audio.len() {
        let frame = FrameModel {
            bytes: audio.take(size),
            status: if first_frame_sent {
                MIDDLE_FRAME
            } else {
                FIRST_FRAME
            },
        };
        seq![frame] + frames_of(audio.skip(size), size, true)
    } else {
        Seq::empty()
    }
}

/// What is held back of a run of audio.
pub open spec fn rest_of(audio: Seq<u8>, size: int) -> Seq<u8>
    decreases audio.len(),
{
    if 0 < size < audio.len() {
        rest_of(audio.skip(size), size)
    } else {
        audio
    }
}

/// The frame that a reply confirms to have gone out.
pub open spec fn frame_with(engine: OnlineModel, reply: OnlineReply) -> Seq<FrameModel> {
    if engine.stage == Stage::Sending && reply matches OnlineReply::Sent(Ok(_)) {
        seq![engine.outgoing->0]
    } else {
        Seq::empty()
    }
}

/// The frames that have gone out in a run of replies.
pub open spec fn frames_in_run(engine: OnlineModel, replies: Seq<OnlineReply>) -> Seq<FrameModel>
    decreases replies.len(),
{
    if replies.len() == 0 {
        Seq::empty()
    } else {
        frames_in_run(engine, replies.drop_last()) + frame_with(
            after_run(engine, replies.drop_last()),
            replies.last(),
        )
    }
}

/// Whether a reply leaves the connection open.
pub open spec fn keeps_open(reply: OnlineReply) -> bool {
    match reply {
        OnlineReply::Read(Incoming::Close) => false,
        OnlineReply::Read(Incoming::Gone) => false,
        _ => true,
    }
}

/// Whether each reply of a run leaves the connection open.
pub open spec fn all_keep_open(replies: Seq<OnlineReply>) -> bool {
    forall|i: int| 0 <= i < replies.len() ==> keeps_open(#[trigger] replies[i])
}

/// Whether an errand has ended well.
pub open spec fn has_succeeded(engine: OnlineModel) -> bool {
    engine.stage == Stage::Resting && engine.failure is None
}

/// The full frames that are still to go out.
spec fn frames_left(engine: OnlineModel) -> Seq<FrameModel> {
    let later = frames_of(
        engine.pending,
        engine.options.frame_bytes as int,
        engine.first_frame_sent,
    );
    match engine.outgoing {
        Some(frame) => seq![frame] + later,
        None => later,
    }
}

/// Whether the first frame of the stream will have gone out when the full frames have.
spec fn will_have_begun(engine: OnlineModel) -> bool {
    engine.first_frame_sent || engine.pending.len() > engine.options.frame_bytes
}

/// Whether nothing is changed of what the engine feeds the stream with, except that `gone` has
/// gone out.
spec fn goes_on(before: OnlineModel, gone: Seq<FrameModel>, after: OnlineModel) -> bool {
    &&& after.options == before.options
    &&& after.errand == before.errand
    &&& after.connected
    &&& gone + frames_left(after) == frames_left(before)
    &&& rest_of(after.pending, after.options.frame_bytes as int) == rest_of(
        before.pending,
        before.options.frame_bytes as int,
    )
    &&& will_have_begun(after) == will_have_begun(before)
}

/// Whether the engine feeds a stream over an open connection.
spec fn is_feeding(engine: OnlineModel) -> bool {
    &&& engine.errand == Errand::Accept
    &&& engine.connected
    &&& engine.options.frame_bytes > 0
}

proof fn lemma_next_frame_goes_on(engine: OnlineModel)
    requires
        is_feeding(engine),
        engine.outgoing is None,
    ensures
        goes_on(engine, Seq::empty(), engine.next_frame()),
{
    let after = engine.next_frame();
    assert(Seq::<FrameModel>::empty() + frames_left(after) =~= frames_left(after));
}

proof fn lemma_read_on_goes_on(engine: OnlineModel)
    requires
        is_feeding(engine),
        engine.outgoing is None,
    ensures
        goes_on(engine, Seq::empty(), engine.read_on()),
{
    let after = engine.read_on();
    lemma_next_frame_goes_on(engine);
    assert(Seq::<FrameModel>::empty() + frames_left(after) =~= frames_left(after));
}

proof fn lemma_heard_goes_on(
    engine: OnlineModel,
    meaning: Result<Option<UtteranceModel>, Seq<char>>,
)
    requires
        is_feeding(engine),
        engine.outgoing is None,
        !has_failed(engine.heard(meaning)),
    ensures
        goes_on(engine, Seq::empty(), engine.heard(meaning)),
{
    match meaning {
        Err(_) => {},
        Ok(None) => lemma_read_on_goes_on(engine),
        Ok(Some(utterance)) => {
            if utterance.is_final {
                lemma_read_on_goes_on(
                    OnlineModel {
                        progressive: None,
                        results: engine.results.push(utterance),
                        heard_final: true,
                        ..engine
                    },
                );
            } else {
                lemma_read_on_goes_on(
                    OnlineModel { progressive: Some(utterance.text), ..engine },
                );
            }
        },
    }
}

proof fn lemma_read_goes_on(engine: OnlineModel, incoming: Incoming)
    requires
        is_feeding(engine),
        engine.outgoing is None,
        keeps_open(OnlineReply::Read(incoming)),
        !has_failed(engine.read(incoming)),
    ensures
        goes_on(engine, Seq::empty(), engine.read(incoming)),
{
    match incoming {
        Incoming::Text(text) => lemma_heard_goes_on(engine, response_text_meaning(text@)),
        Incoming::Binary(bytes) => {
            if vstd::utf8::valid_utf8(bytes@) {
                lemma_heard_goes_on(engine, response_text_meaning(vstd::utf8::decode_utf8(bytes@)));
            }
        },
        Incoming::Ping(_) => {
            let after = engine.read(incoming);
            assert(Seq::<FrameModel>::empty() + frames_left(after) =~= frames_left(after));
        },
        Incoming::Other => lemma_read_on_goes_on(engine),
        Incoming::Quiet => lemma_next_frame_goes_on(engine),
        _ => {},
    }
}

proof fn lemma_reply_goes_on(engine: OnlineModel, reply: OnlineReply)
    requires
        valid(engine),
        is_feeding(engine),
        keeps_open(reply),
        !has_failed(engine.next(reply)),
    ensures
        !has_failed(engine),
        goes_on(engine, frame_with(engine, reply), engine.next(reply)),
{
    let after = engine.next(reply);
    match (engine.stage, reply) {
        (Stage::Sending, OnlineReply::Sent(Ok(_))) => {
            assert(frame_with(engine, reply) + frames_left(after) =~= frames_left(engine));
        },
        (Stage::Reading, OnlineReply::Read(incoming)) => lemma_read_goes_on(engine, incoming),
        (Stage::Ponging, OnlineReply::PongSent(Ok(_))) => lemma_read_on_goes_on(engine),
        _ => {
            assert(frame_with(engine, reply) + frames_left(after) =~= frames_left(after));
        },
    }
}

#[verifier::rlimit(30)]
proof fn lemma_run_goes_on(engine: OnlineModel, replies: Seq<OnlineReply>)
    requires
        valid(engine),
        is_feeding(engine),
        all_keep_open(replies),
        !has_failed(after_run(engine, replies)),
    ensures
        valid(after_run(engine, replies)),
        goes_on(engine, frames_in_run(engine, replies), after_run(engine, replies)),
    decreases replies.len(),
{
    if replies.len() == 0 {
        assert(Seq::<FrameModel>::empty() + frames_left(engine) =~= frames_left(engine));
    } else {
        let earlier = replies.drop_last();
        let before = after_run(engine, earlier);
        let reply = replies.last();
        let after = after_run(engine, replies);
        assert forall|i: int| 0 <= i < earlier.len() implies keeps_open(#[trigger] earlier[i]) by {
            assert(earlier[i] == replies[i]);
        }
        assert(keeps_open(replies[replies.len() - 1]));
        if has_failed(before) {
            assert(before.next(reply) == before);
        }
        lemma_run_goes_on(engine, earlier);
        law_replies_keep_validity(before, reply);
        lemma_reply_goes_on(before, reply);
        let gone = frames_in_run(engine, earlier);
        assert((gone + frame_with(before, reply)) + frames_left(after) =~= gone + (frame_with(
            before,
            reply,
        ) + frames_left(after)));
    }
}

/// Audio that is taken over an open connection goes out in full frames, together with what was
/// held back before; and what is held back is what no full frame follows from.
pub proof fn law_audio_goes_out_in_frames(
    engine: OnlineModel,
    samples: Seq<PcmSample>,
    replies: Seq<OnlineReply>,
)
    requires
        valid(engine),
        engine.stage == Stage::Resting,
        engine.connected,
        engine.options.frame_bytes > 0,
        samples.len() > 0,
        all_keep_open(replies),
        has_succeeded(after_run(engine.accepting(samples), replies)),
    ensures
        ({
            let after = after_run(engine.accepting(samples), replies);
            let audio = engine.pending + audio_bytes(engine.options.audio_format@, samples);
            let size = engine.options.frame_bytes as int;
            &&& frames_in_run(engine.accepting(samples), replies) == frames_of(
                audio,
                size,
                engine.first_frame_sent,
            )
            &&& after.pending == rest_of(audio, size)
            &&& after.first_frame_sent == (engine.first_frame_sent || audio.len() > size)
            &&& after.connected
            &&& after.options == engine.options
            &&& valid(after)
        }),
{
    let begun = engine.accepting(samples);
    let after = after_run(begun, replies);
    let audio = engine.pending + audio_bytes(engine.options.audio_format@, samples);
    let fed = (OnlineModel { pending: audio, ..engine }).begun(Errand::Accept);
    let gone = frames_in_run(begun, replies);
    law_errands_keep_validity(engine, samples);
    lemma_next_frame_goes_on(fed);
    assert(begun == fed.next_frame());
    assert(Seq::<FrameModel>::empty() + frames_left(begun) =~= frames_left(begun));
    lemma_run_goes_on(begun, replies);
    lemma_end_of_feeding(begun, replies);
    assert(frames_left(after) =~= Seq::<FrameModel>::empty());
    assert(gone + frames_left(after) =~= gone);
}

/// A feeding that has ended well holds back no more than one frame.
spec fn is_fed(engine: OnlineModel) -> bool {
    has_succeeded(engine) ==> engine.pending.len() <= engine.options.frame_bytes && engine.outgoing
        is None
}

proof fn lemma_heard_feeds(
    engine: OnlineModel,
    meaning: Result<Option<UtteranceModel>, Seq<char>>,
)
    requires
        is_feeding(engine),
        engine.stage == Stage::Reading,
    ensures
        is_fed(engine.heard(meaning)),
{
}

proof fn lemma_reply_feeds(engine: OnlineModel, reply: OnlineReply)
    requires
        valid(engine),
        is_feeding(engine),
        is_fed(engine),
    ensures
        is_fed(engine.next(reply)),
{
    match (engine.stage, reply) {
        (Stage::Reading, OnlineReply::Read(Incoming::Text(text))) => lemma_heard_feeds(
            engine,
            response_text_meaning(text@),
        ),
        (Stage::Reading, OnlineReply::Read(Incoming::Binary(bytes))) => lemma_heard_feeds(
            engine,
            response_text_meaning(vstd::utf8::decode_utf8(bytes@)),
        ),
        _ => {},
    }
}

proof fn lemma_end_of_feeding(engine: OnlineModel, replies: Seq<OnlineReply>)
    requires
        valid(engine),
        is_feeding(engine),
        is_fed(engine),
        all_keep_open(replies),
        !has_failed(after_run(engine, replies)),
    ensures
        is_fed(after_run(engine, replies)),
    decreases replies.len(),
{
    if replies.len() > 0 {
        let earlier = replies.drop_last();
        let before = after_run(engine, earlier);
        assert forall|i: int| 0 <= i < earlier.len() implies keeps_open(#[trigger] earlier[i]) by {
            assert(earlier[i] == replies[i]);
        }
        if has_failed(before) {
            assert(before.next(replies.last()) == before);
        }
        lemma_end_of_feeding(engine, earlier);
        lemma_run_goes_on(engine, earlier);
        lemma_reply_feeds(before, replies.last());
    }
}

/// Whether nothing is changed of what the engine feeds the stream with.
spec fn is_untouched(before: OnlineModel, after: OnlineModel) -> bool {
    &&& after.options == before.options
    &&& after.errand == before.errand
    &&& after.pending == before.pending
    &&& after.first_frame_sent == before.first_frame_sent
    &&& after.connected == before.connected
}

proof fn lemma_heard_touches_nothing(
    engine: OnlineModel,
    meaning: Result<Option<UtteranceModel>, Seq<char>>,
)
    requires
        engine.errand == Errand::Poll,
    ensures
        is_untouched(engine, engine.heard(meaning)),
{
}

proof fn lemma_reply_touches_nothing(engine: OnlineModel, reply: OnlineReply)
    requires
        valid(engine),
        engine.errand == Errand::Poll,
        keeps_open(reply),
    ensures
        is_untouched(engine, engine.next(reply)),
        frame_with(engine, reply) == Seq::<FrameModel>::empty(),
{
    match (engine.stage, reply) {
        (Stage::Reading, OnlineReply::Read(Incoming::Text(text))) => lemma_heard_touches_nothing(
            engine,
            response_text_meaning(text@),
        ),
        (Stage::Reading, OnlineReply::Read(Incoming::Binary(bytes))) => lemma_heard_touches_nothing(
            engine,
            response_text_meaning(vstd::utf8::decode_utf8(bytes@)),
        ),
        _ => {},
    }
}

proof fn lemma_run_touches_nothing(engine: OnlineModel, replies: Seq<OnlineReply>)
    requires
        valid(engine),
        engine.errand == Errand::Poll,
        all_keep_open(replies),
    ensures
        valid(after_run(engine, replies)),
        is_untouched(engine, after_run(engine, replies)),
        frames_in_run(engine, replies) == Seq::<FrameModel>::empty(),
    decreases replies.len(),
{
    if replies.len() > 0 {
        let earlier = replies.drop_last();
        let before = after_run(engine, earlier);
        assert forall|i: int| 0 <= i < earlier.len() implies keeps_open(#[trigger] earlier[i]) by {
            assert(earlier[i] == replies[i]);
        }
        assert(keeps_open(replies[replies.len() - 1]));
        lemma_run_touches_nothing(engine, earlier);
        law_replies_keep_validity(before, replies.last());
        lemma_reply_touches_nothing(before, replies.last());
    }
}

/// To take no audio sends no frame and leaves what is held back as it is.
pub proof fn law_no_audio_sends_nothing(engine: OnlineModel, replies: Seq<OnlineReply>)
    requires
        valid(engine),
        engine.stage == Stage::Resting,
        all_keep_open(replies),
    ensures
        ({
            let after = after_run(engine.accepting(Seq::empty()), replies);
            &&& frames_in_run(engine.accepting(Seq::empty()), replies) == Seq::<FrameModel>::empty()
            &&& after.pending == engine.pending
            &&& after.first_frame_sent == engine.first_frame_sent
            &&& after.connected == engine.connected
            &&& after.options == engine.options
            &&& valid(after)
        }),
{
    law_errands_keep_validity(engine, Seq::empty());
    lemma_run_touches_nothing(engine.accepting(Seq::empty()), replies);
}

/// The frames of audio that comes in two parts are those of the first part, and then those of what
/// is held back of it together with the second.
pub proof fn law_frames_of_two_parts(
    first: Seq<u8>,
    second: Seq<u8>,
    size: int,
    first_frame_sent: bool,
)
    requires
        size > 0,
    ensures
        frames_of(first + second, size, first_frame_sent) == frames_of(
            first,
            size,
            first_frame_sent,
        ) + frames_of(
            rest_of(first, size) + second,
            size,
            first_frame_sent || first.len() > size,
        ),
        rest_of(first + second, size) == rest_of(rest_of(first, size) + second, size),
    decreases first.len(),
{
    if first.len() > size {
        let later = first.skip(size);
        assert((first + second).take(size) =~= first.take(size));
        assert((first + second).skip(size) =~= later + second);
        law_frames_of_two_parts(later, second, size, true);
        let frame = FrameModel {
            bytes: first.take(size),
            status: if first_frame_sent {
                MIDDLE_FRAME
            } else {
                FIRST_FRAME
            },
        };
        let middle = frames_of(later, size, true);
        let end = frames_of(rest_of(later, size) + second, size, true);
        assert(seq![frame] + (middle + end) =~= (seq![frame] + middle) + end);
    } else {
        let frames = frames_of(first + second, size, first_frame_sent);
        assert(Seq::<FrameModel>::empty() + frames =~= frames);
    }
}

/// The bytes of two runs of samples, one after the other, are the bytes of both.
pub proof fn law_audio_joins(format: Seq<char>, first: Seq<PcmSample>, second: Seq<PcmSample>)
    ensures
        audio_bytes(format, first + second) == audio_bytes(format, first) + audio_bytes(
            format,
            second,
        ),
    decreases second.len(),
{
    if second.len() == 0 {
        assert(first + second =~= first);
        assert(audio_bytes(format, first) + Seq::<u8>::empty() =~= audio_bytes(format, first));
    } else {
        law_audio_joins(format, first, second.drop_last());
        assert((first + second).drop_last() =~= first + second.drop_last());
        assert((first + second).last() == second.last());
        assert(audio_bytes(format, first + second) =~= audio_bytes(format, first) + audio_bytes(
            format,
            second,
        ));
    }
}

/// What feeding a stream with samples comes to: the frames that go out and what is held back.
spec fn is_feeding_of(
    engine: OnlineModel,
    samples: Seq<PcmSample>,
    frames: Seq<FrameModel>,
    after: OnlineModel,
) -> bool {
    let audio = engine.pending + audio_bytes(engine.options.audio_format@, samples);
    let size = engine.options.frame_bytes as int;
    &&& if samples.len() == 0 {
        &&& frames == Seq::<FrameModel>::empty()
        &&& after.pending == engine.pending
        &&& after.first_frame_sent == engine.first_frame_sent
    } else {
        &&& frames == frames_of(audio, size, engine.first_frame_sent)
        &&& after.pending == rest_of(audio, size)
        &&& after.first_frame_sent == (engine.first_frame_sent || audio.len() > size)
    }
    &&& after.connected
    &&& after.options == engine.options
    &&& valid(after)
}

proof fn lemma_feeding(engine: OnlineModel, samples: Seq<PcmSample>, replies: Seq<OnlineReply>)
    requires
        valid(engine),
        engine.stage == Stage::Resting,
        engine.connected,
        engine.options.frame_bytes > 0,
        all_keep_open(replies),
        has_succeeded(after_run(engine.accepting(samples), replies)),
    ensures
        is_feeding_of(
            engine,
            samples,
            frames_in_run(engine.accepting(samples), replies),
            after_run(engine.accepting(samples), replies),
        ),
{
    if samples.len() == 0 {
        assert(samples =~= Seq::<PcmSample>::empty());
        law_no_audio_sends_nothing(engine, replies);
    } else {
        law_audio_goes_out_in_frames(engine, samples, replies);
    }
}

proof fn lemma_feedings_join(
    engine: OnlineModel,
    first: Seq<PcmSample>,
    first_frames: Seq<FrameModel>,
    between: OnlineModel,
    second: Seq<PcmSample>,
    second_frames: Seq<FrameModel>,
    after: OnlineModel,
    whole_frames: Seq<FrameModel>,
    whole: OnlineModel,
)
    requires
        engine.options.frame_bytes > 0,
        is_feeding_of(engine, first, first_frames, between),
        is_feeding_of(between, second, second_frames, after),
        is_feeding_of(engine, first + second, whole_frames, whole),
    ensures
        first_frames + second_frames == whole_frames,
        after.pending == whole.pending,
        after.first_frame_sent == whole.first_frame_sent,
{
    let format = engine.options.audio_format@;
    let size = engine.options.frame_bytes as int;
    if first.len() == 0 {
        assert(first + second =~= second);
        assert(first_frames + second_frames =~= second_frames);
    } else if second.len() == 0 {
        assert(first + second =~= first);
        assert(first_frames + second_frames =~= first_frames);
    } else {
        let taken = engine.pending + audio_bytes(format, first);
        let added = audio_bytes(format, second);
        law_audio_joins(format, first, second);
        assert(engine.pending + audio_bytes(format, first + second) =~= taken + added);
        law_frames_of_two_parts(taken, added, size, engine.first_frame_sent);
        lemma_beginning_of_two_parts(taken, added, size);
    }
}

proof fn lemma_beginning_of_two_parts(first: Seq<u8>, second: Seq<u8>, size: int)
    requires
        size > 0,
    ensures
        (first.len() > size || rest_of(first, size).len() + second.len() > size) == (first.len()
            + second.len() > size),
{
    if first.len() <= size {
        assert(rest_of(first, size) == first);
    }
}

/// Over an open connection it makes no difference whether audio is taken in one piece or in two,
/// one after the other: the same frames go out, in the same order, and the same audio is held back.
pub proof fn law_split_audio_goes_out_alike(
    engine: OnlineModel,
    first: Seq<PcmSample>,
    first_replies: Seq<OnlineReply>,
    second: Seq<PcmSample>,
    second_replies: Seq<OnlineReply>,
    whole_replies: Seq<OnlineReply>,
)
    requires
        valid(engine),
        engine.stage == Stage::Resting,
        engine.connected,
        engine.options.frame_bytes > 0,
        all_keep_open(first_replies),
        all_keep_open(second_replies),
        all_keep_open(whole_replies),
        has_succeeded(after_run(engine.accepting(first), first_replies)),
        has_succeeded(
            after_run(
                after_run(engine.accepting(first), first_replies).taken().accepting(second),
                second_replies,
            ),
        ),
        has_succeeded(after_run(engine.accepting(first + second), whole_replies)),
    ensures
        ({
            let between = after_run(engine.accepting(first), first_replies).taken();
            let after = after_run(between.accepting(second), second_replies);
            let whole = after_run(engine.accepting(first + second), whole_replies);
            &&& frames_in_run(engine.accepting(first), first_replies) + frames_in_run(
                between.accepting(second),
                second_replies,
            ) == frames_in_run(engine.accepting(first + second), whole_replies)
            &&& after.pending == whole.pending
            &&& after.first_frame_sent == whole.first_frame_sent
        }),
{
    let ended = after_run(engine.accepting(first), first_replies);
    let between = ended.taken();
    let after = after_run(between.accepting(second), second_replies);
    let whole = after_run(engine.accepting(first + second), whole_replies);
    lemma_feeding(engine, first, first_replies);
    law_errands_keep_validity(ended, Seq::empty());
    lemma_feeding(between, second, second_replies);
    lemma_feeding(engine, first + second, whole_replies);
    let first_frames = frames_in_run(engine.accepting(first), first_replies);
    assert(is_feeding_of(engine, first, first_frames, between));
    lemma_feedings_join(
        engine,
        first,
        first_frames,
        between,
        second,
        frames_in_run(between.accepting(second), second_replies),
        after,
        frames_in_run(engine.accepting(first + second), whole_replies),
        whole,
    );
}

} // verus!
