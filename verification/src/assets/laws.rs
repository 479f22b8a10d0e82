//! What holds of a preparation of models whatever is found and whatever fails.

use std::path::PathBuf;
use std::time::SystemTime;

use vstd::prelude::*;

use crate::assets::preparation::{
    AssetAction, AssetModel, AssetReply, AssetStep, InstalledPackage, PreparedVad,
};
use crate::assets::{
    download_forecast, event_told, resource_of, AsrSurvey, DownloadEvent, DownloadPhase,
    FailureTracker, RootFindings,
};
use crate::config::LocalConfigModel;
use crate::error::HybridAsrResult;
use crate::event::{ModelLifecyclePhase, ModelResourceKind};

verus! {

/// How far a preparation is.
pub open spec fn rank(step: AssetStep) -> int {
    match step {
        AssetStep::ForecastAsr => 0,
        AssetStep::ForecastVad => 1,
        AssetStep::SurveyAsr => 2,
        AssetStep::CheckVad => 3,
        AssetStep::SurveyReady => 4,
        AssetStep::LocateVad => 5,
        AssetStep::AsrMissingDir => 6,
        AssetStep::AsrMissingNotice => 7,
        AssetStep::VadMissingDir => 8,
        AssetStep::VadMissingNotice => 9,
        AssetStep::SurveyMain => 10,
        AssetStep::Install => 11,
        AssetStep::InspectInstallation => 12,
        AssetStep::AsrFailedDir => 13,
        AssetStep::AsrFailedNotice => 14,
        AssetStep::PrepareVad => 15,
        AssetStep::VadFailedDir => 16,
        AssetStep::VadFailedNotice => 17,
        AssetStep::SurveyFinal => 18,
        AssetStep::AsrReadyNotice => 19,
        AssetStep::VadReadyNotice => 20,
        AssetStep::AsrConfirmNotice => 21,
        AssetStep::VadConfirmNotice => 22,
        AssetStep::Done => 23,
    }
}

/// What subscribers are told of at a step, if they are told anything.
pub open spec fn notice_at(step: AssetStep) -> Option<(ModelResourceKind, ModelLifecyclePhase)> {
    match step {
        AssetStep::AsrMissingNotice => Some((ModelResourceKind::Asr, ModelLifecyclePhase::Missing)),
        AssetStep::VadMissingNotice => Some((ModelResourceKind::Vad, ModelLifecyclePhase::Missing)),
        AssetStep::AsrFailedNotice => Some((ModelResourceKind::Asr, ModelLifecyclePhase::Failed)),
        AssetStep::VadFailedNotice => Some((ModelResourceKind::Vad, ModelLifecyclePhase::Failed)),
        AssetStep::AsrReadyNotice | AssetStep::AsrConfirmNotice => Some(
            (ModelResourceKind::Asr, ModelLifecyclePhase::Downloaded),
        ),
        AssetStep::VadReadyNotice | AssetStep::VadConfirmNotice => Some(
            (ModelResourceKind::Vad, ModelLifecyclePhase::Downloaded),
        ),
        _ => None,
    }
}

/// Whether a reply answers to what the machine waits for.
pub open spec fn answers(step: AssetStep, reply: AssetReply) -> bool {
    match step {
        AssetStep::ForecastAsr
        | AssetStep::SurveyAsr
        | AssetStep::SurveyReady
        | AssetStep::SurveyMain
        | AssetStep::SurveyFinal => reply is Surveyed,
        AssetStep::ForecastVad | AssetStep::CheckVad => reply is VadChecked,
        AssetStep::AsrMissingDir
        | AssetStep::VadMissingDir
        | AssetStep::AsrFailedDir
        | AssetStep::VadFailedDir => reply is Resolved,
        AssetStep::Install => reply is Installed,
        AssetStep::InspectInstallation => reply is Inspected,
        AssetStep::PrepareVad => reply is VadPrepared,
        AssetStep::LocateVad => reply is VadLocated,
        AssetStep::Done => false,
        _ => reply is Published,
    }
}

/// Whether a step comes after the decision to download.
pub open spec fn is_downloading(step: AssetStep) -> bool {
    rank(AssetStep::SurveyMain) <= rank(step) <= rank(AssetStep::VadReadyNotice)
}

/// Whether a preparation may have failed by this step.
pub open spec fn is_failing(step: AssetStep) -> bool {
    match step {
        AssetStep::AsrFailedDir
        | AssetStep::AsrFailedNotice
        | AssetStep::VadFailedDir
        | AssetStep::VadFailedNotice
        | AssetStep::Done => true,
        _ => false,
    }
}

/// What holds of a preparation in every state that it can come to.
pub open spec fn valid<F>(machine: AssetModel<F>) -> bool {
    &&& machine.explicit ==> machine.config.auto_download
    &&& is_downloading(machine.step) ==> machine.config.auto_download && (machine.asr_missing
        || machine.vad_missing)
    &&& match machine.step {
        AssetStep::ForecastAsr | AssetStep::ForecastVad => machine.explicit && !machine.asr_missing
            && !machine.vad_missing,
        AssetStep::SurveyAsr => !machine.asr_missing && !machine.vad_missing,
        AssetStep::CheckVad => !machine.vad_missing,
        AssetStep::SurveyReady | AssetStep::LocateVad => !machine.asr_missing
            && !machine.vad_missing,
        AssetStep::AsrMissingDir | AssetStep::AsrReadyNotice => machine.asr_missing,
        AssetStep::AsrMissingNotice => machine.asr_missing && machine.dir is Some,
        AssetStep::VadMissingDir | AssetStep::VadReadyNotice => machine.vad_missing,
        AssetStep::VadMissingNotice => machine.vad_missing && machine.dir is Some,
        AssetStep::InspectInstallation => machine.install_root is Some,
        AssetStep::AsrFailedDir => machine.asr_missing && machine.error is Some,
        AssetStep::AsrFailedNotice => machine.asr_missing && machine.error is Some
            && machine.dir is Some,
        AssetStep::VadFailedDir => machine.vad_missing && machine.error is Some,
        AssetStep::VadFailedNotice => machine.vad_missing && machine.error is Some
            && machine.dir is Some,
        AssetStep::SurveyFinal => !machine.asr_missing,
        AssetStep::AsrConfirmNotice => machine.explicit && !machine.forecast_asr,
        AssetStep::VadConfirmNotice => machine.explicit && !machine.forecast_vad,
        _ => true,
    }
    &&& machine.error is Some ==> is_failing(machine.step)
}

/// A new preparation is valid.
pub proof fn law_new_preparation_is_valid<F>(config: LocalConfigModel<F>, explicit: bool)
    ensures
        valid(AssetModel::fresh(config, explicit)),
{
}

proof fn lemma_survey_keeps_validity<F>(machine: AssetModel<F>, survey: AsrSurvey)
    requires
        valid(machine),
    ensures
        valid(machine.surveyed(survey)),
{
}

proof fn lemma_vad_check_keeps_validity<F>(machine: AssetModel<F>, answer: HybridAsrResult<bool>)
    requires
        valid(machine),
    ensures
        valid(machine.vad_checked(answer)),
{
}

proof fn lemma_notice_keeps_validity<F>(machine: AssetModel<F>)
    requires
        valid(machine),
    ensures
        valid(machine.published()),
{
}

proof fn lemma_vad_preparation_keeps_validity<F>(
    machine: AssetModel<F>,
    outcome: HybridAsrResult<PreparedVad>,
    failures: FailureTracker,
    parent: Option<Seq<char>>,
)
    requires
        valid(machine),
    ensures
        valid(machine.vad_prepared(outcome, failures, parent)),
{
}

proof fn lemma_resolution_keeps_validity<F>(
    machine: AssetModel<F>,
    dir: HybridAsrResult<PathBuf>,
)
    requires
        valid(machine),
    ensures
        valid(machine.resolved(dir)),
{
}

proof fn lemma_installation_keeps_validity<F>(
    machine: AssetModel<F>,
    outcome: HybridAsrResult<InstalledPackage>,
    failures: FailureTracker,
)
    requires
        valid(machine),
    ensures
        valid(machine.installed(outcome, failures)),
{
}

proof fn lemma_inspection_keeps_validity<F>(machine: AssetModel<F>, found: RootFindings)
    requires
        valid(machine),
        machine.step == AssetStep::InspectInstallation,
    ensures
        valid(machine.inspected(found)),
{
}

proof fn lemma_location_keeps_validity<F>(
    machine: AssetModel<F>,
    path: HybridAsrResult<String>,
    parent: Option<Seq<char>>,
)
    requires
        valid(machine),
    ensures
        valid(machine.located(path, parent)),
{
}

/// Whatever a valid preparation is told, it stays valid.
pub proof fn law_replies_keep_validity<F>(
    machine: AssetModel<F>,
    reply: AssetReply,
    parent: Option<Seq<char>>,
)
    requires
        valid(machine),
    ensures
        valid(machine.next(reply, parent)),
{
    match reply {
        AssetReply::Surveyed(survey) => lemma_survey_keeps_validity(machine, survey),
        AssetReply::VadChecked(answer) => lemma_vad_check_keeps_validity(machine, answer),
        AssetReply::Published => lemma_notice_keeps_validity(machine),
        AssetReply::VadPrepared(outcome, failures) => lemma_vad_preparation_keeps_validity(
            machine,
            outcome,
            failures,
            parent,
        ),
        AssetReply::Resolved(dir) => lemma_resolution_keeps_validity(machine, dir),
        AssetReply::Installed(outcome, failures) => lemma_installation_keeps_validity(
            machine,
            outcome,
            failures,
        ),
        AssetReply::Inspected(found) => {
            if machine.step == AssetStep::InspectInstallation {
                lemma_inspection_keeps_validity(machine, found);
            }
        },
        AssetReply::VadLocated(path) => lemma_location_keeps_validity(machine, path, parent),
    }
}

/// Every preparation comes to an end: each answer brings it nearer to it.
#[verifier::rlimit(30)]
pub proof fn law_preparation_comes_to_an_end<F>(
    machine: AssetModel<F>,
    reply: AssetReply,
    parent: Option<Seq<char>>,
)
    requires
        valid(machine),
        answers(machine.step, reply),
    ensures
        rank(machine.step) < rank(machine.next(reply, parent).step) <= rank(AssetStep::Done),
{
    let after = machine.next(reply, parent);
    match reply {
        AssetReply::Surveyed(_) => {
            match machine.step {
                AssetStep::SurveyMain => assert(rank(machine.step) < rank(after.step)),
                AssetStep::SurveyReady => assert(rank(machine.step) < rank(after.step)),
                AssetStep::SurveyFinal => assert(rank(machine.step) < rank(after.step)),
                _ => assert(rank(machine.step) < rank(after.step)),
            }
        },
        AssetReply::VadChecked(_) => assert(rank(machine.step) < rank(after.step)),
        AssetReply::Published => assert(rank(machine.step) < rank(after.step)),
        AssetReply::VadPrepared(_, _) => assert(rank(machine.step) < rank(after.step)),
        AssetReply::VadLocated(_) => assert(rank(machine.step) < rank(after.step)),
        _ => assert(rank(machine.step) < rank(after.step)),
    }
}

/// What a preparation was asked for does not change under way.
#[verifier::rlimit(30)]
pub proof fn law_request_stays<F>(
    machine: AssetModel<F>,
    reply: AssetReply,
    parent: Option<Seq<char>>,
)
    ensures
        machine.next(reply, parent).config == machine.config,
        machine.next(reply, parent).explicit == machine.explicit,
{
    let after = machine.next(reply, parent);
    match reply {
        AssetReply::Surveyed(_) => {
            match machine.step {
                AssetStep::SurveyMain => assert(after.config == machine.config),
                AssetStep::SurveyReady => assert(after.config == machine.config),
                AssetStep::SurveyFinal => assert(after.config == machine.config),
                _ => assert(after.config == machine.config),
            }
        },
        AssetReply::VadChecked(_) => assert(after.config == machine.config),
        AssetReply::Published => assert(after.config == machine.config),
        AssetReply::VadPrepared(_, _) => assert(after.config == machine.config),
        AssetReply::VadLocated(_) => assert(after.config == machine.config),
        _ => assert(after.config == machine.config),
    }
}

/// One thing that subscribers hear: a resource, and the stage that it has come to.
pub type Told = (ModelResourceKind, ModelLifecyclePhase);

/// One notice, or none.
pub open spec fn told_if(
    said: bool,
    kind: ModelResourceKind,
    phase: ModelLifecyclePhase,
) -> Seq<Told> {
    if said {
        seq![(kind, phase)]
    } else {
        Seq::empty()
    }
}

/// The notices that the missing models are owed, the recognition model first.
pub open spec fn missing_notices<F>(machine: AssetModel<F>) -> Seq<Told> {
    told_if(machine.asr_missing, ModelResourceKind::Asr, ModelLifecyclePhase::Missing) + told_if(
        machine.vad_missing,
        ModelResourceKind::Vad,
        ModelLifecyclePhase::Missing,
    )
}

/// The notices that the missing models are owed once they are ready.
pub open spec fn ready_notices<F>(machine: AssetModel<F>) -> Seq<Told> {
    told_if(machine.asr_missing, ModelResourceKind::Asr, ModelLifecyclePhase::Downloaded) + told_if(
        machine.vad_missing,
        ModelResourceKind::Vad,
        ModelLifecyclePhase::Downloaded,
    )
}

/// The notices that an explicit download owes for models that were there.
pub open spec fn confirm_notices<F>(machine: AssetModel<F>) -> Seq<Told> {
    told_if(
        machine.explicit && !machine.forecast_asr,
        ModelResourceKind::Asr,
        ModelLifecyclePhase::Downloaded,
    ) + told_if(
        machine.explicit && !machine.forecast_vad,
        ModelResourceKind::Vad,
        ModelLifecyclePhase::Downloaded,
    )
}

/// What subscribers have heard of a preparation that has not failed.
pub open spec fn told_by<F>(machine: AssetModel<F>) -> Seq<Told> {
    let missing = missing_notices(machine);
    if rank(machine.step) <= rank(AssetStep::AsrMissingNotice) {
        Seq::empty()
    } else if rank(machine.step) <= rank(AssetStep::VadMissingNotice) {
        told_if(machine.asr_missing, ModelResourceKind::Asr, ModelLifecyclePhase::Missing)
    } else if rank(machine.step) <= rank(AssetStep::AsrReadyNotice) {
        missing
    } else if machine.step == AssetStep::VadReadyNotice {
        missing + told_if(
            machine.asr_missing,
            ModelResourceKind::Asr,
            ModelLifecyclePhase::Downloaded,
        )
    } else if machine.step == AssetStep::AsrConfirmNotice {
        missing + ready_notices(machine)
    } else if machine.step == AssetStep::VadConfirmNotice {
        missing + ready_notices(machine) + told_if(
            machine.explicit && !machine.forecast_asr,
            ModelResourceKind::Asr,
            ModelLifecyclePhase::Downloaded,
        )
    } else {
        missing + ready_notices(machine) + confirm_notices(machine)
    }
}

/// What subscribers may have heard of a preparation that has failed: some of what is missing, or
/// all of it and the failure of one that was missing.
pub open spec fn may_have_told<F>(machine: AssetModel<F>, told: Seq<Told>) -> bool {
    let missing = missing_notices(machine);
    ||| told.is_prefix_of(missing)
    ||| machine.asr_missing && told == missing.push(
        (ModelResourceKind::Asr, ModelLifecyclePhase::Failed),
    )
    ||| machine.vad_missing && told == missing.push(
        (ModelResourceKind::Vad, ModelLifecyclePhase::Failed),
    )
}

/// Whether `told` is what subscribers have heard by now.
pub open spec fn has_told<F>(machine: AssetModel<F>, told: Seq<Told>) -> bool {
    if machine.step == AssetStep::Done && machine.error is Some {
        may_have_told(machine, told)
    } else {
        told == told_by(machine)
    }
}

/// What subscribers hear from a reply: the notice that the reply confirms, if it confirms one.
pub open spec fn told_with<F>(machine: AssetModel<F>, reply: AssetReply) -> Seq<Told> {
    match (reply, notice_at(machine.step)) {
        (AssetReply::Published, Some(notice)) => seq![notice],
        _ => Seq::empty(),
    }
}

/// The machine after one reply.
#[verifier::opaque]
pub open spec fn stepped<F>(
    machine: AssetModel<F>,
    reply: AssetReply,
    parent: Option<Seq<char>>,
) -> AssetModel<F> {
    machine.next(reply, parent)
}

/// The machine after a run of replies, each with the directory that the platform takes for that
/// of the voice activity model.
pub open spec fn after_run<F>(
    machine: AssetModel<F>,
    replies: Seq<(AssetReply, Option<Seq<char>>)>,
) -> AssetModel<F>
    decreases replies.len(),
{
    if replies.len() == 0 {
        machine
    } else {
        stepped(after_run(machine, replies.drop_last()), replies.last().0, replies.last().1)
    }
}

/// What subscribers hear in a run of replies.
pub open spec fn told_in_run<F>(
    machine: AssetModel<F>,
    replies: Seq<(AssetReply, Option<Seq<char>>)>,
) -> Seq<Told>
    decreases replies.len(),
{
    if replies.len() == 0 {
        Seq::empty()
    } else {
        told_in_run(machine, replies.drop_last()) + told_with(
            after_run(machine, replies.drop_last()),
            replies.last().0,
        )
    }
}

proof fn lemma_survey_tells<F>(machine: AssetModel<F>, survey: AsrSurvey)
    requires
        valid(machine),
        machine.step != AssetStep::Done,
    ensures
        has_told(machine.surveyed(survey), told_by(machine)),
{
    let after = machine.surveyed(survey);
    if after.step == AssetStep::Done && after.error is Some {
        assert(told_by(machine).is_prefix_of(missing_notices(after)));
    } else {
        assert(told_by(after) =~= told_by(machine));
    }
}

proof fn lemma_vad_check_tells<F>(machine: AssetModel<F>, answer: HybridAsrResult<bool>)
    requires
        valid(machine),
        machine.step != AssetStep::Done,
    ensures
        has_told(machine.vad_checked(answer), told_by(machine)),
{
    let after = machine.vad_checked(answer);
    if after.step == AssetStep::Done && after.error is Some {
        assert(told_by(machine).is_prefix_of(missing_notices(after)));
    } else {
        assert(told_by(after) =~= told_by(machine));
    }
}

proof fn lemma_vad_preparation_tells<F>(
    machine: AssetModel<F>,
    outcome: HybridAsrResult<PreparedVad>,
    failures: FailureTracker,
    parent: Option<Seq<char>>,
)
    requires
        valid(machine),
        machine.step != AssetStep::Done,
    ensures
        has_told(machine.vad_prepared(outcome, failures, parent), told_by(machine)),
{
    let after = machine.vad_prepared(outcome, failures, parent);
    if after.step == AssetStep::Done && after.error is Some {
        assert(told_by(machine).is_prefix_of(missing_notices(after)));
    } else {
        assert(told_by(after) =~= told_by(machine));
    }
}

proof fn lemma_resolution_tells<F>(machine: AssetModel<F>, dir: HybridAsrResult<PathBuf>)
    requires
        valid(machine),
        machine.step != AssetStep::Done,
    ensures
        has_told(machine.resolved(dir), told_by(machine)),
{
    let after = machine.resolved(dir);
    if after.step == AssetStep::Done && after.error is Some {
        assert(told_by(machine).is_prefix_of(missing_notices(after)));
    } else {
        assert(told_by(after) =~= told_by(machine));
    }
}

proof fn lemma_installation_tells<F>(
    machine: AssetModel<F>,
    outcome: HybridAsrResult<InstalledPackage>,
    failures: FailureTracker,
)
    requires
        valid(machine),
        machine.step != AssetStep::Done,
    ensures
        has_told(machine.installed(outcome, failures), told_by(machine)),
{
    let after = machine.installed(outcome, failures);
    if after.step == AssetStep::Done && after.error is Some {
        assert(told_by(machine).is_prefix_of(missing_notices(after)));
    } else {
        assert(told_by(after) =~= told_by(machine));
    }
}

proof fn lemma_inspection_tells<F>(machine: AssetModel<F>, found: RootFindings)
    requires
        valid(machine),
        machine.step == AssetStep::InspectInstallation,
    ensures
        has_told(machine.inspected(found), told_by(machine)),
{
    let after = machine.inspected(found);
    if after.step == AssetStep::Done && after.error is Some {
        assert(told_by(machine).is_prefix_of(missing_notices(after)));
    } else {
        assert(told_by(after) =~= told_by(machine));
    }
}

proof fn lemma_location_tells<F>(
    machine: AssetModel<F>,
    path: HybridAsrResult<String>,
    parent: Option<Seq<char>>,
)
    requires
        valid(machine),
        machine.step != AssetStep::Done,
    ensures
        has_told(machine.located(path, parent), told_by(machine)),
{
    assert(told_by(machine.located(path, parent)) =~= told_by(machine));
}

#[verifier::rlimit(30)]
proof fn lemma_notice_tells<F>(machine: AssetModel<F>)
    requires
        valid(machine),
        machine.step != AssetStep::Done,
    ensures
        has_told(
            machine.published(),
            told_by(machine) + told_with(machine, AssetReply::Published),
        ),
{
    let after = machine.published();
    let told = told_by(machine) + told_with(machine, AssetReply::Published);
    let missing = missing_notices(after);
    match machine.step {
        AssetStep::AsrFailedNotice => {
            assert(told =~= missing.push((ModelResourceKind::Asr, ModelLifecyclePhase::Failed)));
        },
        AssetStep::VadFailedNotice => {
            assert(told =~= missing.push((ModelResourceKind::Vad, ModelLifecyclePhase::Failed)));
        },
        _ => {
            if after.step == AssetStep::Done && after.error is Some {
                assert(told.is_prefix_of(missing));
            } else {
                assert(told_by(after) =~= told);
            }
        },
    }
}

proof fn lemma_reply_tells<F>(
    machine: AssetModel<F>,
    told: Seq<Told>,
    reply: AssetReply,
    parent: Option<Seq<char>>,
)
    requires
        valid(machine),
        has_told(machine, told),
    ensures
        has_told(machine.next(reply, parent), told + told_with(machine, reply)),
{
    if machine.step == AssetStep::Done {
        assert(machine.next(reply, parent) == machine);
        assert(told + told_with(machine, reply) =~= told);
    } else if reply is Published {
        lemma_notice_tells(machine);
    } else {
        assert(told + told_with(machine, reply) =~= told);
        match reply {
            AssetReply::Surveyed(survey) => lemma_survey_tells(machine, survey),
            AssetReply::VadChecked(answer) => lemma_vad_check_tells(machine, answer),
            AssetReply::VadPrepared(outcome, failures) => lemma_vad_preparation_tells(
                machine,
                outcome,
                failures,
                parent,
            ),
            AssetReply::Resolved(dir) => lemma_resolution_tells(machine, dir),
            AssetReply::Installed(outcome, failures) => lemma_installation_tells(
                machine,
                outcome,
                failures,
            ),
            AssetReply::Inspected(found) => {
                if machine.step == AssetStep::InspectInstallation {
                    lemma_inspection_tells(machine, found);
                }
            },
            AssetReply::VadLocated(path) => lemma_location_tells(machine, path, parent),
            AssetReply::Published => {},
        }
    }
}

proof fn lemma_step_tells<F>(
    machine: AssetModel<F>,
    told: Seq<Told>,
    reply: AssetReply,
    parent: Option<Seq<char>>,
)
    requires
        valid(machine),
        has_told(machine, told),
    ensures
        valid(stepped(machine, reply, parent)),
        has_told(stepped(machine, reply, parent), told + told_with(machine, reply)),
{
    reveal(stepped);
    law_replies_keep_validity(machine, reply, parent);
    lemma_reply_tells(machine, told, reply, parent);
}

proof fn lemma_step_keeps_request<F>(
    machine: AssetModel<F>,
    reply: AssetReply,
    parent: Option<Seq<char>>,
)
    ensures
        stepped(machine, reply, parent).config == machine.config,
        stepped(machine, reply, parent).explicit == machine.explicit,
{
    reveal(stepped);
    law_request_stays(machine, reply, parent);
}

/// What subscribers hear of a preparation, whatever is found and whatever fails. Each model that
/// is missing is announced, the recognition model first, before anything is downloaded; each of
/// them is told ready before a preparation succeeds, and an explicit download tells of the others
/// too; and one that fails tells of at most one failure, of a model that was missing.
pub proof fn law_subscribers_hear_in_order<F>(
    config: LocalConfigModel<F>,
    explicit: bool,
    replies: Seq<(AssetReply, Option<Seq<char>>)>,
)
    ensures
        valid(after_run(AssetModel::fresh(config, explicit), replies)),
        has_told(
            after_run(AssetModel::fresh(config, explicit), replies),
            told_in_run(AssetModel::fresh(config, explicit), replies),
        ),
    decreases replies.len(),
{
    let fresh = AssetModel::fresh(config, explicit);
    if replies.len() == 0 {
        law_new_preparation_is_valid(config, explicit);
    } else {
        let (reply, parent) = replies.last();
        let before = after_run(fresh, replies.drop_last());
        law_subscribers_hear_in_order(config, explicit, replies.drop_last());
        lemma_step_tells(before, told_in_run(fresh, replies.drop_last()), reply, parent);
    }
}

/// What a preparation was asked for does not change in a run of replies.
pub proof fn lemma_run_keeps_request<F>(
    machine: AssetModel<F>,
    replies: Seq<(AssetReply, Option<Seq<char>>)>,
)
    ensures
        after_run(machine, replies).config == machine.config,
        after_run(machine, replies).explicit == machine.explicit,
    decreases replies.len(),
{
    if replies.len() > 0 {
        lemma_run_keeps_request(machine, replies.drop_last());
        lemma_step_keeps_request(
            after_run(machine, replies.drop_last()),
            replies.last().0,
            replies.last().1,
        );
    }
}

/// Whether something may be downloaded where an action is carried out.
pub open spec fn can_download<F>(action: AssetAction<F>) -> bool {
    match action {
        AssetAction::Install(_) => true,
        AssetAction::PrepareVad(vad) | AssetAction::LocateVad(vad) => vad.auto_download,
        _ => false,
    }
}

proof fn lemma_download_is_announced<F>(
    machine: AssetModel<F>,
    told: Seq<Told>,
    action: AssetAction<F>,
)
    requires
        valid(machine),
        has_told(machine, told),
        machine.wants(action),
        can_download(action),
    ensures
        machine.config.auto_download,
        machine.asr_missing || machine.vad_missing,
        told == missing_notices(machine),
{
    match machine.step {
        AssetStep::Install => {},
        AssetStep::PrepareVad => {},
        _ => {},
    }
}

/// Nothing is downloaded unless it was asked for explicitly or the configuration allows it, and
/// unless something is missing that subscribers have heard of.
pub proof fn law_downloads_are_allowed_and_announced<F>(
    config: LocalConfigModel<F>,
    explicit: bool,
    replies: Seq<(AssetReply, Option<Seq<char>>)>,
    action: AssetAction<F>,
)
    requires
        after_run(AssetModel::fresh(config, explicit), replies).wants(action),
        can_download(action),
    ensures
        explicit || config.auto_download,
        ({
            let machine = after_run(AssetModel::fresh(config, explicit), replies);
            &&& machine.asr_missing || machine.vad_missing
            &&& told_in_run(AssetModel::fresh(config, explicit), replies) == missing_notices(
                machine,
            )
        }),
{
    let fresh = AssetModel::fresh(config, explicit);
    law_subscribers_hear_in_order(config, explicit, replies);
    lemma_run_keeps_request(fresh, replies);
    lemma_download_is_announced(
        after_run(fresh, replies),
        told_in_run(fresh, replies),
        action,
    );
}

/// The forecast comes true. If it is that nothing has to be downloaded, a preparation that finds
/// the same finds everything ready. If it is that something has to be and can be, the preparation
/// announces it, and where the recognition model is missing and downloads are allowed, it goes on
/// to install it.
pub proof fn law_forecast_comes_true<F>(
    config: LocalConfigModel<F>,
    survey: AsrSurvey,
    vad: bool,
    forecast: bool,
)
    requires
        download_forecast(config, survey, Ok(vad)) == Ok::<bool, Seq<char>>(forecast),
    ensures
        ({
            let machine = AssetModel::fresh(config, false).surveyed(survey).vad_checked(Ok(vad));
            if forecast {
                &&& machine.step == if machine.asr_missing {
                    AssetStep::AsrMissingDir
                } else {
                    AssetStep::VadMissingDir
                }
                &&& machine.asr_missing ==> machine.at(AssetStep::SurveyMain).surveyed(survey).step
                    == AssetStep::Install
            } else {
                machine.step == AssetStep::SurveyReady
            }
        }),
{
    let fresh = AssetModel::fresh(config, false);
    assert(fresh.config =~= config);
}

/// Of an installer's work subscribers hear that it goes on and that it failed, and nothing else.
pub proof fn law_installers_tell_of_work_and_failure(event: DownloadEvent, at: SystemTime)
    ensures
        event_told(event, at) matches Some(told) ==> told.phase == ModelLifecyclePhase::Downloading
            || told.phase == ModelLifecyclePhase::Failed,
        event_told(event, at) is Some && event_told(event, at)->0.phase
            == ModelLifecyclePhase::Failed <==> event.phase == DownloadPhase::Failed,
{
}

/// A failure that an installer has told of is not forgotten, and counts for its own resource only.
pub proof fn law_failures_are_remembered(tracker: FailureTracker, event: DownloadEvent)
    ensures
        tracker.asr ==> tracker.after(event).asr,
        tracker.vad ==> tracker.after(event).vad,
        tracker.after(event).asr && !tracker.asr ==> event.phase == DownloadPhase::Failed
            && resource_of(event.resource_kind) == ModelResourceKind::Asr,
        tracker.after(event).vad && !tracker.vad ==> event.phase == DownloadPhase::Failed
            && resource_of(event.resource_kind) == ModelResourceKind::Vad,
{
}

} // verus!
