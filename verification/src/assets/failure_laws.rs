//! How often subscribers hear that a download has failed.

use std::path::PathBuf;

use vstd::prelude::*;

use crate::assets::laws::{
    after_run, law_subscribers_hear_in_order, missing_notices, stepped, told_by, told_if,
    told_in_run, told_with, valid, Told,
};
use crate::assets::preparation::{AssetModel, AssetReply, AssetStep};
use crate::assets::{phase_told, resource_of, DownloadEvent, DownloadPhase, FailureTracker};
use crate::config::LocalConfigModel;
use crate::event::{ModelLifecyclePhase, ModelResourceKind};

verus! {

/// How often something is among what subscribers hear.
pub open spec fn times_told(told: Seq<Told>, what: Told) -> nat
    decreases told.len(),
{
    if told.len() == 0 {
        0
    } else {
        times_told(told.drop_last(), what) + if told.last() == what {
            1nat
        } else {
            0
        }
    }
}

/// What subscribers hear of an installer's events.
pub open spec fn told_by_installer(events: Seq<DownloadEvent>) -> Seq<Told>
    decreases events.len(),
{
    if events.len() == 0 {
        Seq::empty()
    } else {
        let earlier = told_by_installer(events.drop_last());
        match phase_told(events.last().phase) {
            None => earlier,
            Some(phase) => earlier.push((resource_of(events.last().resource_kind), phase)),
        }
    }
}

/// How often an installer has told of the failure of a resource.
pub open spec fn failures_in(events: Seq<DownloadEvent>, kind: ModelResourceKind) -> nat
    decreases events.len(),
{
    if events.len() == 0 {
        0
    } else {
        let last = events.last();
        failures_in(events.drop_last(), kind) + if last.phase == DownloadPhase::Failed
            && resource_of(last.resource_kind) == kind {
            1nat
        } else {
            0
        }
    }
}

/// A tracker that has heard of an installer's events.
pub open spec fn heard_from(events: Seq<DownloadEvent>) -> FailureTracker
    decreases events.len(),
{
    if events.len() == 0 {
        FailureTracker { asr: false, vad: false }
    } else {
        heard_from(events.drop_last()).after(events.last())
    }
}

/// A tracker knows of a failure if the installer has told of one; and subscribers hear of each.
pub proof fn law_installer_failures_are_told(events: Seq<DownloadEvent>, kind: ModelResourceKind)
    ensures
        heard_from(events).asr == (failures_in(events, ModelResourceKind::Asr) > 0),
        heard_from(events).vad == (failures_in(events, ModelResourceKind::Vad) > 0),
        times_told(told_by_installer(events), (kind, ModelLifecyclePhase::Failed)) == failures_in(
            events,
            kind,
        ),
        times_told(told_by_installer(events), (kind, ModelLifecyclePhase::Downloaded)) == 0,
    decreases events.len(),
{
    if events.len() > 0 {
        law_installer_failures_are_told(events.drop_last(), kind);
        let earlier = told_by_installer(events.drop_last());
        match phase_told(events.last().phase) {
            None => {},
            Some(phase) => {
                let what = (resource_of(events.last().resource_kind), phase);
                assert(earlier.push(what).drop_last() =~= earlier);
            },
        }
    }
}

/// The model that a step is there to prepare, if it is one that can fail to.
pub open spec fn prepares(step: AssetStep) -> Option<ModelResourceKind> {
    match step {
        AssetStep::SurveyMain | AssetStep::Install | AssetStep::InspectInstallation => Some(
            ModelResourceKind::Asr,
        ),
        AssetStep::PrepareVad => Some(ModelResourceKind::Vad),
        _ => None,
    }
}

/// Whether a model was missing.
pub open spec fn is_missing<F>(machine: AssetModel<F>, kind: ModelResourceKind) -> bool {
    match kind {
        ModelResourceKind::Asr => machine.asr_missing,
        ModelResourceKind::Vad => machine.vad_missing,
    }
}

/// Whether an installer has told of the failure of a model.
pub open spec fn has_failed(failures: FailureTracker, kind: ModelResourceKind) -> bool {
    match kind {
        ModelResourceKind::Asr => failures.asr,
        ModelResourceKind::Vad => failures.vad,
    }
}

/// The run in which a reply brings the failure of a model, the directory of the notice is made
/// out, and the notice goes out.
pub open spec fn failing_run(
    replies: Seq<(AssetReply, Option<Seq<char>>)>,
    reply: AssetReply,
    dir: PathBuf,
) -> Seq<(AssetReply, Option<Seq<char>>)> {
    replies.push((reply, None)).push((AssetReply::Resolved(Ok(dir)), None)).push(
        (AssetReply::Published, None),
    )
}

proof fn lemma_times_told_in_sum(first: Seq<Told>, second: Seq<Told>, what: Told)
    ensures
        times_told(first + second, what) == times_told(first, what) + times_told(second, what),
    decreases second.len(),
{
    if second.len() == 0 {
        assert(first + second =~= first);
    } else {
        assert((first + second).drop_last() =~= first + second.drop_last());
        lemma_times_told_in_sum(first, second.drop_last(), what);
    }
}

proof fn lemma_one_notice(
    said: bool,
    kind: ModelResourceKind,
    phase: ModelLifecyclePhase,
    what: Told,
)
    ensures
        times_told(told_if(said, kind, phase), what) == if said && what == (kind, phase) {
            1nat
        } else {
            0nat
        },
{
    let told = told_if(said, kind, phase);
    if said {
        assert(told.drop_last() =~= Seq::<Told>::empty());
        assert(times_told(told.drop_last(), what) == 0);
    }
}

proof fn lemma_missing_notices_tell_no_more<F>(machine: AssetModel<F>, what: Told)
    requires
        what.1 != ModelLifecyclePhase::Missing,
    ensures
        times_told(missing_notices(machine), what) == 0,
{
    lemma_one_notice(
        machine.asr_missing,
        ModelResourceKind::Asr,
        ModelLifecyclePhase::Missing,
        what,
    );
    lemma_one_notice(
        machine.vad_missing,
        ModelResourceKind::Vad,
        ModelLifecyclePhase::Missing,
        what,
    );
    lemma_times_told_in_sum(
        told_if(machine.asr_missing, ModelResourceKind::Asr, ModelLifecyclePhase::Missing),
        told_if(machine.vad_missing, ModelResourceKind::Vad, ModelLifecyclePhase::Missing),
        what,
    );
}

proof fn lemma_one_reply_more<F>(
    machine: AssetModel<F>,
    replies: Seq<(AssetReply, Option<Seq<char>>)>,
    reply: AssetReply,
)
    ensures
        after_run(machine, replies.push((reply, None))) == stepped(
            after_run(machine, replies),
            reply,
            None,
        ),
        told_in_run(machine, replies.push((reply, None))) == told_in_run(machine, replies)
            + told_with(after_run(machine, replies), reply),
{
    assert(replies.push((reply, None)).drop_last() =~= replies);
}

/// Whether a preparation fails with a reply, by which time the installer has told of `events`.
pub open spec fn fails_with<F>(
    machine: AssetModel<F>,
    reply: AssetReply,
    events: Seq<DownloadEvent>,
    kind: ModelResourceKind,
) -> bool {
    &&& prepares(machine.step) == Some(kind)
    &&& is_missing(machine, kind)
    &&& machine.next(reply, None).error is Some
    &&& machine.next(reply, None).failures == heard_from(events)
}

/// The message with which a preparation fails: that of the failed call, if it was a call that
/// failed.
pub open spec fn is_failure_message<F>(
    machine: AssetModel<F>,
    reply: AssetReply,
    message: Option<Seq<char>>,
) -> bool {
    &&& message is Some
    &&& message == machine.next(reply, None).error
    &&& machine.step == AssetStep::Install ==> (reply matches AssetReply::Installed(Err(error), _)
        ==> message == Some(error@))
    &&& machine.step == AssetStep::PrepareVad ==> (reply matches AssetReply::VadPrepared(
        Err(error),
        _,
    ) ==> message == Some(error@))
}

/// Where a preparation is that has just failed.
spec fn has_just_failed<F>(machine: AssetModel<F>, kind: ModelResourceKind) -> bool {
    machine.step == if has_failed(machine.failures, kind) {
        AssetStep::Done
    } else {
        match kind {
            ModelResourceKind::Asr => AssetStep::AsrFailedDir,
            ModelResourceKind::Vad => AssetStep::VadFailedDir,
        }
    }
}

proof fn lemma_failure_begins<F>(
    machine: AssetModel<F>,
    reply: AssetReply,
    events: Seq<DownloadEvent>,
    kind: ModelResourceKind,
)
    requires
        valid(machine),
        fails_with(machine, reply, events, kind),
    ensures
        has_just_failed(stepped(machine, reply, None), kind),
        stepped(machine, reply, None).failures == heard_from(events),
        is_failure_message(machine, reply, stepped(machine, reply, None).error),
{
    reveal(stepped);
    let failed = machine.next(reply, None);
    match machine.step {
        AssetStep::SurveyMain => assert(has_just_failed(failed, kind)),
        AssetStep::Install => assert(has_just_failed(failed, kind)),
        AssetStep::InspectInstallation => assert(has_just_failed(failed, kind)),
        _ => assert(has_just_failed(failed, kind)),
    }
}

proof fn lemma_failure_is_told<F>(machine: AssetModel<F>, dir: PathBuf, kind: ModelResourceKind)
    requires
        has_just_failed(machine, kind),
    ensures
        ({
            let resolved = stepped(machine, AssetReply::Resolved(Ok(dir)), None);
            let end = stepped(resolved, AssetReply::Published, None);
            &&& told_with(machine, AssetReply::Resolved(Ok(dir))) == Seq::<Told>::empty()
            &&& told_with(resolved, AssetReply::Published) == told_if(
                !has_failed(machine.failures, kind),
                kind,
                ModelLifecyclePhase::Failed,
            )
            &&& end.step == AssetStep::Done
            &&& end.error == machine.error
        }),
{
    reveal(stepped);
}

proof fn lemma_nothing_told_with_failure<F>(
    machine: AssetModel<F>,
    reply: AssetReply,
    kind: ModelResourceKind,
)
    requires
        prepares(machine.step) == Some(kind),
    ensures
        machine.step != AssetStep::Done,
        told_by(machine) == missing_notices(machine),
        told_with(machine, reply) == Seq::<Told>::empty(),
{
}

proof fn lemma_course_of_failure<F>(
    machine: AssetModel<F>,
    reply: AssetReply,
    dir: PathBuf,
    events: Seq<DownloadEvent>,
    kind: ModelResourceKind,
)
    requires
        valid(machine),
        fails_with(machine, reply, events, kind),
    ensures
        ({
            let failed = stepped(machine, reply, None);
            let resolved = stepped(failed, AssetReply::Resolved(Ok(dir)), None);
            let end = stepped(resolved, AssetReply::Published, None);
            &&& told_with(failed, AssetReply::Resolved(Ok(dir))) == Seq::<Told>::empty()
            &&& told_with(resolved, AssetReply::Published) == told_if(
                !has_failed(heard_from(events), kind),
                kind,
                ModelLifecyclePhase::Failed,
            )
            &&& end.step == AssetStep::Done
            &&& is_failure_message(machine, reply, end.error)
        }),
{
    lemma_failure_begins(machine, reply, events, kind);
    lemma_failure_is_told(stepped(machine, reply, None), dir, kind);
}

/// How often subscribers hear of a failure, from the machine and from the installer: as often as
/// the installer has told of it, or else once. That anything is ready they hear from neither.
pub open spec fn is_failure_told(
    told: Seq<Told>,
    events: Seq<DownloadEvent>,
    kind: ModelResourceKind,
) -> bool {
    let failure = (kind, ModelLifecyclePhase::Failed);
    &&& times_told(told, failure) + times_told(told_by_installer(events), failure)
        == if failures_in(events, kind) > 0 {
        failures_in(events, kind)
    } else {
        1
    }
    &&& forall|other: ModelResourceKind| #[trigger]
        times_told(told, (other, ModelLifecyclePhase::Downloaded)) + times_told(
            told_by_installer(events),
            (other, ModelLifecyclePhase::Downloaded),
        ) == 0
}

proof fn lemma_failure_is_counted<F>(
    machine: AssetModel<F>,
    events: Seq<DownloadEvent>,
    kind: ModelResourceKind,
)
    ensures
        is_failure_told(
            missing_notices(machine) + told_if(
                !has_failed(heard_from(events), kind),
                kind,
                ModelLifecyclePhase::Failed,
            ),
            events,
            kind,
        ),
{
    let said = !has_failed(heard_from(events), kind);
    let notice = told_if(said, kind, ModelLifecyclePhase::Failed);
    let told = missing_notices(machine) + notice;
    let failure = (kind, ModelLifecyclePhase::Failed);
    law_installer_failures_are_told(events, kind);
    lemma_times_told_in_sum(missing_notices(machine), notice, failure);
    lemma_missing_notices_tell_no_more(machine, failure);
    lemma_one_notice(said, kind, ModelLifecyclePhase::Failed, failure);
    assert forall|other: ModelResourceKind| #[trigger]
        times_told(told, (other, ModelLifecyclePhase::Downloaded)) + times_told(
            told_by_installer(events),
            (other, ModelLifecyclePhase::Downloaded),
        ) == 0 by {
        let what = (other, ModelLifecyclePhase::Downloaded);
        law_installer_failures_are_told(events, other);
        lemma_times_told_in_sum(missing_notices(machine), notice, what);
        lemma_missing_notices_tell_no_more(machine, what);
        lemma_one_notice(said, kind, ModelLifecyclePhase::Failed, what);
    }
}

/// Subscribers hear of the failure of a model that was missing: as often as the installer has told
/// of it, or else once. The preparation ends with the message of the failure, and nobody hears
/// that a model is ready.
///
/// `events` is what the installer has told of by then.
pub proof fn law_failure_is_told<F>(
    config: LocalConfigModel<F>,
    explicit: bool,
    replies: Seq<(AssetReply, Option<Seq<char>>)>,
    reply: AssetReply,
    dir: PathBuf,
    events: Seq<DownloadEvent>,
    kind: ModelResourceKind,
)
    requires
        fails_with(after_run(AssetModel::fresh(config, explicit), replies), reply, events, kind),
    ensures
        ({
            let fresh = AssetModel::fresh(config, explicit);
            let run = failing_run(replies, reply, dir);
            &&& after_run(fresh, run).step == AssetStep::Done
            &&& is_failure_message(
                after_run(fresh, replies),
                reply,
                after_run(fresh, run).error,
            )
            &&& is_failure_told(told_in_run(fresh, run), events, kind)
        }),
{
    let fresh = AssetModel::fresh(config, explicit);
    let before = after_run(fresh, replies);
    let first = replies.push((reply, None));
    let second = first.push((AssetReply::Resolved(Ok(dir)), None));
    law_subscribers_hear_in_order(config, explicit, replies);
    lemma_nothing_told_with_failure(before, reply, kind);
    lemma_course_of_failure(before, reply, dir, events, kind);
    lemma_one_reply_more(fresh, replies, reply);
    lemma_one_reply_more(fresh, first, AssetReply::Resolved(Ok(dir)));
    lemma_one_reply_more(fresh, second, AssetReply::Published);
    assert(told_in_run(fresh, failing_run(replies, reply, dir)) =~= missing_notices(before)
        + told_if(!has_failed(heard_from(events), kind), kind, ModelLifecyclePhase::Failed));
    lemma_failure_is_counted(before, events, kind);
}

} // verus!
