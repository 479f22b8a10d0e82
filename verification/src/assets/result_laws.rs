//! What a preparation that has succeeded says of downloads and of the installation root.

use std::path::PathBuf;

use vstd::prelude::*;

use crate::assets::laws::{
    after_run, can_download, law_downloads_are_allowed_and_announced, law_subscribers_hear_in_order,
    rank, stepped, told_in_run, told_with, valid, Told,
};
use crate::assets::outcome_laws::has_succeeded;
use crate::assets::preparation::{
    dir_or, AssetAction, AssetModel, AssetReply, AssetStep, InstalledPackage, PreparedVad,
};
use crate::assets::{asr_missing, existing_assets, AsrSurvey, FailureTracker, RootFindings};
use crate::config::LocalConfigModel;
use crate::error::HybridAsrResult;

verus! {

/// Whether a reply tells of a download that the machine has asked for.
pub open spec fn downloaded_with<F>(machine: AssetModel<F>, reply: AssetReply) -> bool {
    match (machine.step, reply) {
        (AssetStep::Install, AssetReply::Installed(Ok(package), _)) => package.downloaded_anything,
        (AssetStep::PrepareVad, AssetReply::VadPrepared(Ok(vad), _)) => vad.downloaded_anything,
        _ => false,
    }
}

/// Whether anything was downloaded in a run of replies.
pub open spec fn downloaded_in_run<F>(
    machine: AssetModel<F>,
    replies: Seq<(AssetReply, Option<Seq<char>>)>,
) -> bool
    decreases replies.len(),
{
    replies.len() > 0 && (downloaded_in_run(machine, replies.drop_last()) || downloaded_with(
        after_run(machine, replies.drop_last()),
        replies.last().0,
    ))
}

/// The installation root of the recognition model of which a reply tells: that of a package that
/// was installed, or that in which an installation was found that the configured directory does
/// not hold.
pub open spec fn root_with<F>(machine: AssetModel<F>, reply: AssetReply) -> Option<PathBuf> {
    match (machine.step, reply) {
        (AssetStep::Install, AssetReply::Installed(Ok(package), _)) => Some(package.install_root),
        (AssetStep::SurveyMain, AssetReply::Surveyed(survey)) => if survey.main_complete {
            None
        } else {
            match existing_assets(machine.config, survey) {
                Ok(Some(existing)) => existing.install_root,
                _ => None,
            }
        },
        _ => None,
    }
}

/// The installation root of the recognition model of which a run of replies tells.
pub open spec fn root_in_run<F>(
    machine: AssetModel<F>,
    replies: Seq<(AssetReply, Option<Seq<char>>)>,
) -> Option<PathBuf>
    decreases replies.len(),
{
    if replies.len() == 0 {
        None
    } else {
        match root_with(after_run(machine, replies.drop_last()), replies.last().0) {
            Some(root) => Some(root),
            None => root_in_run(machine, replies.drop_last()),
        }
    }
}

/// Whether the machine keeps account of the downloads and of the installation root.
spec fn keeps_account<F>(
    machine: AssetModel<F>,
    downloaded: bool,
    root: Option<PathBuf>,
) -> bool {
    machine.error is None ==> {
        &&& !machine.asr_missing && !machine.vad_missing ==> !downloaded && root is None
        &&& if rank(machine.step) <= rank(AssetStep::Install) {
            &&& !downloaded
            &&& root is None
            &&& machine.step == AssetStep::LocateVad ==> !machine.prepared.downloaded_anything
                && machine.prepared.install_root is None
        } else if machine.step == AssetStep::InspectInstallation {
            machine.install_downloaded == downloaded && machine.install_root == root
        } else if machine.step == AssetStep::PrepareVad {
            machine.main.downloaded_anything == downloaded && machine.main.install_root == root
        } else {
            machine.prepared.downloaded_anything == downloaded && machine.prepared.install_root
                == root
        }
    }
}

spec fn goes_on_keeping<F>(
    before: AssetModel<F>,
    reply: AssetReply,
    after: AssetModel<F>,
    downloaded: bool,
    root: Option<PathBuf>,
) -> bool {
    keeps_account(
        after,
        downloaded || downloaded_with(before, reply),
        match root_with(before, reply) {
            Some(found) => Some(found),
            None => root,
        },
    )
}

proof fn lemma_survey_keeps_account<F>(
    machine: AssetModel<F>,
    survey: AsrSurvey,
    downloaded: bool,
    root: Option<PathBuf>,
)
    requires
        valid(machine),
        keeps_account(machine, downloaded, root),
    ensures
        goes_on_keeping(
            machine,
            AssetReply::Surveyed(survey),
            machine.surveyed(survey),
            downloaded,
            root,
        ),
{
    let reply = AssetReply::Surveyed(survey);
    let after = machine.surveyed(survey);
    match machine.step {
        AssetStep::SurveyMain => assert(goes_on_keeping(machine, reply, after, downloaded, root)),
        AssetStep::SurveyReady => assert(goes_on_keeping(machine, reply, after, downloaded, root)),
        AssetStep::SurveyFinal => assert(goes_on_keeping(machine, reply, after, downloaded, root)),
        _ => assert(goes_on_keeping(machine, reply, after, downloaded, root)),
    }
}

proof fn lemma_notice_keeps_account<F>(
    machine: AssetModel<F>,
    downloaded: bool,
    root: Option<PathBuf>,
)
    requires
        valid(machine),
        keeps_account(machine, downloaded, root),
    ensures
        goes_on_keeping(
            machine,
            AssetReply::Published,
            machine.published(),
            downloaded,
            root,
        ),
{
}

proof fn lemma_installation_keeps_account<F>(
    machine: AssetModel<F>,
    outcome: HybridAsrResult<InstalledPackage>,
    failures: FailureTracker,
    downloaded: bool,
    root: Option<PathBuf>,
)
    requires
        valid(machine),
        keeps_account(machine, downloaded, root),
    ensures
        goes_on_keeping(
            machine,
            AssetReply::Installed(outcome, failures),
            machine.installed(outcome, failures),
            downloaded,
            root,
        ),
{
}

proof fn lemma_inspection_keeps_account<F>(
    machine: AssetModel<F>,
    found: RootFindings,
    downloaded: bool,
    root: Option<PathBuf>,
)
    requires
        valid(machine),
        machine.step == AssetStep::InspectInstallation,
        keeps_account(machine, downloaded, root),
    ensures
        goes_on_keeping(
            machine,
            AssetReply::Inspected(found),
            machine.inspected(found),
            downloaded,
            root,
        ),
{
}

proof fn lemma_vad_preparation_keeps_account<F>(
    machine: AssetModel<F>,
    outcome: HybridAsrResult<PreparedVad>,
    failures: FailureTracker,
    parent: Option<Seq<char>>,
    downloaded: bool,
    root: Option<PathBuf>,
)
    requires
        valid(machine),
        keeps_account(machine, downloaded, root),
    ensures
        goes_on_keeping(
            machine,
            AssetReply::VadPrepared(outcome, failures),
            machine.vad_prepared(outcome, failures, parent),
            downloaded,
            root,
        ),
{
}

proof fn lemma_location_keeps_account<F>(
    machine: AssetModel<F>,
    path: HybridAsrResult<String>,
    parent: Option<Seq<char>>,
    downloaded: bool,
    root: Option<PathBuf>,
)
    requires
        valid(machine),
        keeps_account(machine, downloaded, root),
    ensures
        goes_on_keeping(
            machine,
            AssetReply::VadLocated(path),
            machine.located(path, parent),
            downloaded,
            root,
        ),
{
}

#[verifier::rlimit(30)]
proof fn lemma_step_keeps_account<F>(
    machine: AssetModel<F>,
    reply: AssetReply,
    parent: Option<Seq<char>>,
    downloaded: bool,
    root: Option<PathBuf>,
)
    requires
        valid(machine),
        keeps_account(machine, downloaded, root),
    ensures
        goes_on_keeping(machine, reply, stepped(machine, reply, parent), downloaded, root),
{
    reveal(stepped);
    let after = machine.next(reply, parent);
    match reply {
        AssetReply::Surveyed(survey) => lemma_survey_keeps_account(
            machine,
            survey,
            downloaded,
            root,
        ),
        AssetReply::Published => lemma_notice_keeps_account(machine, downloaded, root),
        AssetReply::Installed(outcome, failures) => lemma_installation_keeps_account(
            machine,
            outcome,
            failures,
            downloaded,
            root,
        ),
        AssetReply::VadPrepared(outcome, failures) => lemma_vad_preparation_keeps_account(
            machine,
            outcome,
            failures,
            parent,
            downloaded,
            root,
        ),
        AssetReply::VadLocated(path) => lemma_location_keeps_account(
            machine,
            path,
            parent,
            downloaded,
            root,
        ),
        AssetReply::Inspected(found) => {
            if machine.step == AssetStep::InspectInstallation {
                lemma_inspection_keeps_account(machine, found, downloaded, root);
            }
        },
        AssetReply::VadChecked(_) => assert(goes_on_keeping(
            machine,
            reply,
            after,
            downloaded,
            root,
        )),
        AssetReply::Resolved(_) => assert(goes_on_keeping(
            machine,
            reply,
            after,
            downloaded,
            root,
        )),
    }
}

proof fn lemma_run_keeps_account<F>(
    config: LocalConfigModel<F>,
    explicit: bool,
    replies: Seq<(AssetReply, Option<Seq<char>>)>,
)
    ensures
        keeps_account(
            after_run(AssetModel::fresh(config, explicit), replies),
            downloaded_in_run(AssetModel::fresh(config, explicit), replies),
            root_in_run(AssetModel::fresh(config, explicit), replies),
        ),
    decreases replies.len(),
{
    let fresh = AssetModel::fresh(config, explicit);
    if replies.len() > 0 {
        let earlier = replies.drop_last();
        lemma_run_keeps_account(config, explicit, earlier);
        law_subscribers_hear_in_order(config, explicit, earlier);
        lemma_step_keeps_account(
            after_run(fresh, earlier),
            replies.last().0,
            replies.last().1,
            downloaded_in_run(fresh, earlier),
            root_in_run(fresh, earlier),
        );
    }
}

/// Every preparation that succeeds says truly whether it has downloaded anything, and its
/// installation root is that of the recognition model, never that of the voice activity model.
/// Where nothing was missing, nothing was downloaded and there is no root.
pub proof fn law_downloads_and_root_are_told<F>(
    config: LocalConfigModel<F>,
    explicit: bool,
    replies: Seq<(AssetReply, Option<Seq<char>>)>,
)
    requires
        has_succeeded(after_run(AssetModel::fresh(config, explicit), replies)),
    ensures
        ({
            let fresh = AssetModel::fresh(config, explicit);
            let end = after_run(fresh, replies);
            &&& end.prepared.downloaded_anything == downloaded_in_run(fresh, replies)
            &&& end.prepared.install_root == root_in_run(fresh, replies)
            &&& !end.asr_missing && !end.vad_missing ==> !end.prepared.downloaded_anything
                && end.prepared.install_root is None
        }),
{
    lemma_run_keeps_account(config, explicit, replies);
}

/// The run of a preparation that finds everything: the recognition model, then that the voice
/// activity model is not missing, where the recognition model is, and where the other one is.
pub open spec fn ready_run(
    first: AsrSurvey,
    second: AsrSurvey,
    path: HybridAsrResult<String>,
    parent: Option<Seq<char>>,
) -> Seq<(AssetReply, Option<Seq<char>>)> {
    seq![
        (AssetReply::Surveyed(first), None),
        (AssetReply::VadChecked(Ok(false)), None),
        (AssetReply::Surveyed(second), None),
        (AssetReply::VadLocated(path), parent),
    ]
}

/// The machine after each reply of such a run.
spec fn ready_state<F>(
    fresh: AssetModel<F>,
    first: AsrSurvey,
    second: AsrSurvey,
    path: HybridAsrResult<String>,
    parent: Option<Seq<char>>,
    count: int,
) -> AssetModel<F> {
    if count <= 0 {
        fresh
    } else if count == 1 {
        fresh.surveyed(first)
    } else if count == 2 {
        fresh.surveyed(first).vad_checked(Ok(false))
    } else if count == 3 {
        fresh.surveyed(first).vad_checked(Ok(false)).surveyed(second)
    } else {
        fresh.surveyed(first).vad_checked(Ok(false)).surveyed(second).located(path, parent)
    }
}

#[verifier::rlimit(30)]
proof fn lemma_ready_state<F>(
    fresh: AssetModel<F>,
    first: AsrSurvey,
    second: AsrSurvey,
    path: HybridAsrResult<String>,
    parent: Option<Seq<char>>,
    count: int,
)
    requires
        0 <= count <= 4,
    ensures
        after_run(fresh, ready_run(first, second, path, parent).take(count)) == ready_state(
            fresh,
            first,
            second,
            path,
            parent,
            count,
        ),
    decreases count,
{
    let run = ready_run(first, second, path, parent);
    reveal(stepped);
    if count > 0 {
        lemma_ready_state(fresh, first, second, path, parent, count - 1);
        assert(run.take(count).drop_last() =~= run.take(count - 1));
        assert(run.take(count).last() == run[count - 1]);
    }
}

proof fn lemma_ready_state_is_quiet<F>(
    config: LocalConfigModel<F>,
    first: AsrSurvey,
    second: AsrSurvey,
    path: HybridAsrResult<String>,
    parent: Option<Seq<char>>,
    count: int,
)
    requires
        0 <= count <= 4,
        asr_missing(config, first) == Ok::<bool, Seq<char>>(false),
        existing_assets(config, second) is Ok,
    ensures
        ({
            let state = ready_state(
                AssetModel::fresh(config, false),
                first,
                second,
                path,
                parent,
                count,
            );
            &&& !state.asr_missing
            &&& !state.vad_missing
            &&& count < 4 ==> told_with(
                state,
                ready_run(first, second, path, parent)[count].0,
            ) == Seq::<Told>::empty()
            &&& count == 4 ==> {
                &&& has_succeeded(state)
                &&& state.prepared.resolved == LocalConfigModel {
                    asr_model_dir: match existing_assets(config, second) {
                        Ok(Some(existing)) => existing.resolved.asr_model_dir,
                        _ => config.asr_model_dir,
                    },
                    vad_model_dir: match path {
                        Ok(_) => dir_or(parent, config.vad_model_dir),
                        Err(_) => config.vad_model_dir,
                    },
                    ..config
                }
            }
        }),
{
    let fresh = AssetModel::fresh(config, false);
    assert(fresh.config =~= config);
    let found = fresh.surveyed(first);
    assert(found == AssetModel { step: AssetStep::CheckVad, ..fresh });
    let checked = found.vad_checked(Ok(false));
    assert(checked == AssetModel { step: AssetStep::SurveyReady, ..fresh });
}

proof fn lemma_ready_run_is_silent<F>(
    config: LocalConfigModel<F>,
    first: AsrSurvey,
    second: AsrSurvey,
    path: HybridAsrResult<String>,
    parent: Option<Seq<char>>,
    count: int,
)
    requires
        0 <= count <= 4,
        asr_missing(config, first) == Ok::<bool, Seq<char>>(false),
        existing_assets(config, second) is Ok,
    ensures
        told_in_run(
            AssetModel::fresh(config, false),
            ready_run(first, second, path, parent).take(count),
        ) == Seq::<Told>::empty(),
    decreases count,
{
    let fresh = AssetModel::fresh(config, false);
    let run = ready_run(first, second, path, parent);
    if count > 0 {
        lemma_ready_run_is_silent(config, first, second, path, parent, count - 1);
        lemma_ready_state(fresh, first, second, path, parent, count - 1);
        lemma_ready_state_is_quiet(config, first, second, path, parent, count - 1);
        assert(run.take(count).drop_last() =~= run.take(count - 1));
        assert(run.take(count).last() == run[count - 1]);
    }
}

/// A preparation that finds both models succeeds, whatever comes of locating the voice activity
/// model: nothing is downloaded, there is no installation root, subscribers hear nothing, and
/// nothing is ever wanted that could download.
pub proof fn law_ready_models_are_taken<F>(
    config: LocalConfigModel<F>,
    first: AsrSurvey,
    second: AsrSurvey,
    path: HybridAsrResult<String>,
    parent: Option<Seq<char>>,
    action: AssetAction<F>,
)
    requires
        asr_missing(config, first) == Ok::<bool, Seq<char>>(false),
        existing_assets(config, second) is Ok,
    ensures
        ({
            let fresh = AssetModel::fresh(config, false);
            let run = ready_run(first, second, path, parent);
            let end = after_run(fresh, run);
            &&& has_succeeded(end)
            &&& !end.prepared.downloaded_anything
            &&& end.prepared.install_root is None
            &&& end.prepared.resolved == LocalConfigModel {
                asr_model_dir: match existing_assets(config, second) {
                    Ok(Some(existing)) => existing.resolved.asr_model_dir,
                    _ => config.asr_model_dir,
                },
                vad_model_dir: match path {
                    Ok(_) => dir_or(parent, config.vad_model_dir),
                    Err(_) => config.vad_model_dir,
                },
                ..config
            }
            &&& told_in_run(fresh, run) == Seq::<Told>::empty()
            &&& forall|count: int|
                0 <= count <= 4 && (#[trigger] after_run(fresh, run.take(count))).wants(action)
                    ==> !can_download(action)
        }),
{
    let fresh = AssetModel::fresh(config, false);
    let run = ready_run(first, second, path, parent);
    assert(run.take(4) =~= run);
    lemma_ready_state(fresh, first, second, path, parent, 4);
    lemma_ready_state_is_quiet(config, first, second, path, parent, 4);
    lemma_ready_run_is_silent(config, first, second, path, parent, 4);
    law_downloads_and_root_are_told(config, false, run);
    assert forall|count: int|
        0 <= count <= 4 && (#[trigger] after_run(fresh, run.take(count))).wants(
            action,
        ) implies !can_download(action) by {
        lemma_ready_state(fresh, first, second, path, parent, count);
        lemma_ready_state_is_quiet(config, first, second, path, parent, count);
        if can_download(action) {
            law_downloads_are_allowed_and_announced(config, false, run.take(count), action);
        }
    }
}

} // verus!
