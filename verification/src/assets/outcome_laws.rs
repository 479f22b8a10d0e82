//! What holds of the outcome of a preparation of models, however it went.

use vstd::prelude::*;

use crate::assets::laws::{
    after_run, law_subscribers_hear_in_order, lemma_run_keeps_request, rank, stepped, told_in_run,
    valid,
};
use crate::assets::preparation::{
    AssetAction, AssetModel, AssetReply, AssetStep, InstalledPackage, PreparedVad,
    AUTO_DOWNLOAD_OFF,
};
use crate::assets::{
    incomplete_installation, required_field, AsrSurvey, FailureTracker, RootFindings,
};
use crate::config::LocalConfigModel;
use crate::error::HybridAsrResult;
use crate::paths::{in_dir, is_name, is_parent, is_plain, stays_as_parent};

verus! {

/// Whether two configurations are the same but for the directories of the models.
pub open spec fn same_but_dirs<F>(resolved: LocalConfigModel<F>, config: LocalConfigModel<F>) -> bool {
    resolved == (LocalConfigModel {
        asr_model_dir: resolved.asr_model_dir,
        vad_model_dir: resolved.vad_model_dir,
        ..config
    })
}

spec fn keeps_fields<F>(machine: AssetModel<F>) -> bool {
    same_but_dirs(machine.main.resolved, machine.config) && same_but_dirs(
        machine.prepared.resolved,
        machine.config,
    )
}

proof fn lemma_survey_keeps_fields<F>(machine: AssetModel<F>, survey: AsrSurvey)
    requires
        keeps_fields(machine),
    ensures
        keeps_fields(machine.surveyed(survey)),
{
}

proof fn lemma_notice_keeps_fields<F>(machine: AssetModel<F>)
    requires
        keeps_fields(machine),
    ensures
        keeps_fields(machine.published()),
{
}

proof fn lemma_vad_preparation_keeps_fields<F>(
    machine: AssetModel<F>,
    outcome: HybridAsrResult<PreparedVad>,
    failures: FailureTracker,
    parent: Option<Seq<char>>,
)
    requires
        keeps_fields(machine),
    ensures
        keeps_fields(machine.vad_prepared(outcome, failures, parent)),
{
}

proof fn lemma_location_keeps_fields<F>(
    machine: AssetModel<F>,
    path: HybridAsrResult<String>,
    parent: Option<Seq<char>>,
)
    requires
        keeps_fields(machine),
    ensures
        keeps_fields(machine.located(path, parent)),
{
}

proof fn lemma_replies_keep_fields<F>(
    machine: AssetModel<F>,
    reply: AssetReply,
    parent: Option<Seq<char>>,
)
    requires
        keeps_fields(machine),
    ensures
        keeps_fields(machine.next(reply, parent)),
{
    match reply {
        AssetReply::Surveyed(survey) => lemma_survey_keeps_fields(machine, survey),
        AssetReply::Published => lemma_notice_keeps_fields(machine),
        AssetReply::VadPrepared(outcome, failures) => lemma_vad_preparation_keeps_fields(
            machine,
            outcome,
            failures,
            parent,
        ),
        AssetReply::VadLocated(path) => lemma_location_keeps_fields(machine, path, parent),
        _ => {},
    }
}

proof fn lemma_step_keeps_fields<F>(
    machine: AssetModel<F>,
    reply: AssetReply,
    parent: Option<Seq<char>>,
)
    requires
        keeps_fields(machine),
    ensures
        keeps_fields(stepped(machine, reply, parent)),
{
    reveal(stepped);
    lemma_replies_keep_fields(machine, reply, parent);
}

/// However a preparation goes, of the configuration nothing is changed but the directories of the
/// models; an explicit one allows downloads in addition.
pub proof fn law_other_fields_stay<F>(
    config: LocalConfigModel<F>,
    explicit: bool,
    replies: Seq<(AssetReply, Option<Seq<char>>)>,
)
    ensures
        same_but_dirs(
            after_run(AssetModel::fresh(config, explicit), replies).prepared.resolved,
            LocalConfigModel { auto_download: explicit || config.auto_download, ..config },
        ),
{
    let fresh = AssetModel::fresh(config, explicit);
    lemma_run_keeps_request(fresh, replies);
    lemma_run_keeps_fields(fresh, replies);
}

proof fn lemma_run_keeps_fields<F>(
    machine: AssetModel<F>,
    replies: Seq<(AssetReply, Option<Seq<char>>)>,
)
    requires
        keeps_fields(machine),
    ensures
        keeps_fields(after_run(machine, replies)),
    decreases replies.len(),
{
    if replies.len() > 0 {
        lemma_run_keeps_fields(machine, replies.drop_last());
        lemma_step_keeps_fields(
            after_run(machine, replies.drop_last()),
            replies.last().0,
            replies.last().1,
        );
    }
}

/// Whether the preparation has succeeded.
pub open spec fn has_succeeded<F>(machine: AssetModel<F>) -> bool {
    machine.step == AssetStep::Done && machine.error is None
}

/// Whether the outcome is known but for the notices.
spec fn is_settled<F>(machine: AssetModel<F>) -> bool {
    match machine.step {
        AssetStep::AsrReadyNotice
        | AssetStep::VadReadyNotice
        | AssetStep::AsrConfirmNotice
        | AssetStep::VadConfirmNotice => true,
        _ => has_succeeded(machine),
    }
}

spec fn has_vad_dir<F>(machine: AssetModel<F>, dir: Seq<char>) -> bool {
    machine.step == AssetStep::SurveyFinal || is_settled(machine)
        ==> machine.prepared.resolved.vad_model_dir == dir
}

/// Whether a path is that of a voice activity model in `dir`, which the platform takes for its
/// directory.
pub open spec fn is_vad_in(
    path: Seq<char>,
    parent: Option<Seq<char>>,
    dir: Seq<char>,
    name: Seq<char>,
) -> bool {
    &&& path == in_dir(dir, name)
    &&& is_plain(path)
    &&& is_parent(path, parent)
}

/// Whether a reply that tells of a voice activity model tells that it is in `dir`. One that could
/// not be located is where it is configured.
pub open spec fn tells_vad_in(
    reply: AssetReply,
    parent: Option<Seq<char>>,
    configured: Seq<char>,
    dir: Seq<char>,
    name: Seq<char>,
) -> bool {
    match reply {
        AssetReply::VadPrepared(Ok(vad), _) => is_vad_in(vad.model_path@, parent, dir, name),
        AssetReply::VadLocated(Ok(path)) => is_vad_in(path@, parent, dir, name),
        AssetReply::VadLocated(Err(_)) => dir == configured,
        _ => true,
    }
}

/// Whether the platform takes `dir` for the directory of a voice activity model of which a reply
/// tells.
spec fn has_parent(
    reply: AssetReply,
    parent: Option<Seq<char>>,
    configured: Seq<char>,
    dir: Seq<char>,
) -> bool {
    match reply {
        AssetReply::VadPrepared(Ok(_), _) => parent == Some(dir),
        AssetReply::VadLocated(Ok(_)) => parent == Some(dir),
        AssetReply::VadLocated(Err(_)) => dir == configured,
        _ => true,
    }
}

proof fn lemma_told_parent(
    reply: AssetReply,
    parent: Option<Seq<char>>,
    configured: Seq<char>,
    dir: Seq<char>,
    name: Seq<char>,
)
    requires
        is_name(name),
        stays_as_parent(dir),
        tells_vad_in(reply, parent, configured, dir, name),
    ensures
        has_parent(reply, parent, configured, dir),
{
}

proof fn lemma_survey_keeps_vad_dir<F>(machine: AssetModel<F>, survey: AsrSurvey, dir: Seq<char>)
    requires
        valid(machine),
        has_vad_dir(machine, dir),
    ensures
        has_vad_dir(machine.surveyed(survey), dir),
{
    let after = machine.surveyed(survey);
    match machine.step {
        AssetStep::SurveyMain => assert(has_vad_dir(after, dir)),
        AssetStep::SurveyReady => assert(has_vad_dir(after, dir)),
        AssetStep::SurveyFinal => assert(has_vad_dir(after, dir)),
        _ => assert(has_vad_dir(after, dir)),
    }
}

proof fn lemma_notice_keeps_vad_dir<F>(machine: AssetModel<F>, dir: Seq<char>)
    requires
        valid(machine),
        has_vad_dir(machine, dir),
    ensures
        has_vad_dir(machine.published(), dir),
{
}

proof fn lemma_vad_preparation_keeps_vad_dir<F>(
    machine: AssetModel<F>,
    outcome: HybridAsrResult<PreparedVad>,
    failures: FailureTracker,
    parent: Option<Seq<char>>,
    dir: Seq<char>,
)
    requires
        valid(machine),
        has_vad_dir(machine, dir),
        outcome is Ok ==> parent == Some(dir),
    ensures
        has_vad_dir(machine.vad_prepared(outcome, failures, parent), dir),
{
}

proof fn lemma_location_keeps_vad_dir<F>(
    machine: AssetModel<F>,
    path: HybridAsrResult<String>,
    parent: Option<Seq<char>>,
    dir: Seq<char>,
)
    requires
        valid(machine),
        has_vad_dir(machine, dir),
        has_parent(AssetReply::VadLocated(path), parent, machine.config.vad_model_dir, dir),
    ensures
        has_vad_dir(machine.located(path, parent), dir),
{
}

proof fn lemma_reply_keeps_vad_dir<F>(
    machine: AssetModel<F>,
    reply: AssetReply,
    parent: Option<Seq<char>>,
    dir: Seq<char>,
)
    requires
        valid(machine),
        has_vad_dir(machine, dir),
        has_parent(reply, parent, machine.config.vad_model_dir, dir),
    ensures
        has_vad_dir(stepped(machine, reply, parent), dir),
{
    reveal(stepped);
    let after = machine.next(reply, parent);
    match reply {
        AssetReply::Surveyed(survey) => lemma_survey_keeps_vad_dir(machine, survey, dir),
        AssetReply::Published => lemma_notice_keeps_vad_dir(machine, dir),
        AssetReply::VadPrepared(outcome, failures) => lemma_vad_preparation_keeps_vad_dir(
            machine,
            outcome,
            failures,
            parent,
            dir,
        ),
        AssetReply::VadLocated(path) => lemma_location_keeps_vad_dir(machine, path, parent, dir),
        AssetReply::VadChecked(_) => assert(has_vad_dir(after, dir)),
        AssetReply::Resolved(_) => assert(has_vad_dir(after, dir)),
        AssetReply::Installed(_, _) => assert(has_vad_dir(after, dir)),
        AssetReply::Inspected(_) => assert(has_vad_dir(after, dir)),
    }
}

/// Every preparation that succeeds has filled in the directory in which the voice activity model
/// is: the one that it was prepared or located in, or the configured one where it is there and
/// could not be located.
pub proof fn law_vad_model_dir_is_filled_in<F>(
    config: LocalConfigModel<F>,
    explicit: bool,
    replies: Seq<(AssetReply, Option<Seq<char>>)>,
    dir: Seq<char>,
    name: Seq<char>,
)
    requires
        is_name(name),
        stays_as_parent(dir),
        forall|i: int|
            #![trigger replies[i]]
            0 <= i < replies.len() ==> tells_vad_in(
                replies[i].0,
                replies[i].1,
                config.vad_model_dir,
                dir,
                name,
            ),
    ensures
        has_succeeded(after_run(AssetModel::fresh(config, explicit), replies)) ==> after_run(
            AssetModel::fresh(config, explicit),
            replies,
        ).prepared.resolved.vad_model_dir == dir,
{
    lemma_run_keeps_vad_dir(config, explicit, replies, dir, name);
}

proof fn lemma_run_keeps_vad_dir<F>(
    config: LocalConfigModel<F>,
    explicit: bool,
    replies: Seq<(AssetReply, Option<Seq<char>>)>,
    dir: Seq<char>,
    name: Seq<char>,
)
    requires
        is_name(name),
        stays_as_parent(dir),
        forall|i: int|
            #![trigger replies[i]]
            0 <= i < replies.len() ==> tells_vad_in(
                replies[i].0,
                replies[i].1,
                config.vad_model_dir,
                dir,
                name,
            ),
    ensures
        has_vad_dir(after_run(AssetModel::fresh(config, explicit), replies), dir),
    decreases replies.len(),
{
    let fresh = AssetModel::fresh(config, explicit);
    if replies.len() > 0 {
        let earlier = replies.drop_last();
        let (reply, parent) = replies.last();
        assert forall|i: int| #![trigger earlier[i]] 0 <= i < earlier.len() implies tells_vad_in(
            earlier[i].0,
            earlier[i].1,
            config.vad_model_dir,
            dir,
            name,
        ) by {
            assert(earlier[i] == replies[i]);
        }
        lemma_run_keeps_vad_dir(config, explicit, earlier, dir, name);
        law_subscribers_hear_in_order(config, explicit, earlier);
        assert(replies[replies.len() - 1] == (reply, parent));
        lemma_told_parent(reply, parent, config.vad_model_dir, dir, name);
        lemma_run_keeps_request(fresh, earlier);
        lemma_reply_keeps_vad_dir(after_run(fresh, earlier), reply, parent, dir);
    }
}

/// A disk: which directories hold both files of a recognition model, whether the installation root
/// is there, and how it and the directory of the model below it are called.
pub struct DiskModel {
    pub complete: Set<Seq<char>>,
    pub root_exists: bool,
    pub child_dir: Seq<char>,
    pub root_dir: Seq<char>,
}

/// Whether findings tell what is on the disk.
pub open spec fn are_true(found: RootFindings, configured: Seq<char>, disk: DiskModel) -> bool {
    &&& found.configured_complete == disk.complete.contains(configured)
    &&& found.child_complete == disk.complete.contains(found.child_dir@)
    &&& found.root_complete == disk.complete.contains(found.root_dir@)
}

/// Whether a reply tells what is on the disk, as far as it tells of it.
pub open spec fn is_true(reply: AssetReply, configured: Seq<char>, disk: DiskModel) -> bool {
    match reply {
        AssetReply::Surveyed(survey) => {
            &&& survey.main_complete == disk.complete.contains(configured)
            &&& survey.target matches Ok(target) ==> {
                &&& target.exists == disk.root_exists
                &&& target.found.child_dir@ == disk.child_dir
                &&& target.found.root_dir@ == disk.root_dir
                &&& are_true(target.found, configured, disk)
            }
        },
        AssetReply::Inspected(found) => are_true(found, configured, disk),
        _ => true,
    }
}

/// Whether nothing has vanished from the disk between two moments.
pub open spec fn nothing_vanished(before: DiskModel, after: DiskModel) -> bool {
    &&& before.complete.subset_of(after.complete)
    &&& before.root_exists ==> after.root_exists
    &&& before.child_dir == after.child_dir
    &&& before.root_dir == after.root_dir
}

spec fn is_available(configured: Seq<char>, disk: DiskModel) -> bool {
    disk.complete.contains(configured) || disk.root_exists && (disk.complete.contains(disk.child_dir)
        || disk.complete.contains(disk.root_dir))
}

/// What the machine knows of the disk.
spec fn knows<F>(machine: AssetModel<F>, disk: DiskModel) -> bool {
    &&& rank(machine.step) > rank(AssetStep::SurveyAsr) && !machine.asr_missing && machine.error is None
        ==> is_available(machine.config.asr_model_dir, disk)
    &&& machine.step == AssetStep::PrepareVad ==> disk.complete.contains(
        machine.main.resolved.asr_model_dir,
    )
    &&& machine.step == AssetStep::LocateVad || is_settled(machine) ==> disk.complete.contains(
        machine.prepared.resolved.asr_model_dir,
    )
}

proof fn lemma_knowledge_lasts<F>(machine: AssetModel<F>, before: DiskModel, after: DiskModel)
    requires
        knows(machine, before),
        nothing_vanished(before, after),
    ensures
        knows(machine, after),
{
}

proof fn lemma_survey_gives_knowledge<F>(machine: AssetModel<F>, survey: AsrSurvey, disk: DiskModel)
    requires
        valid(machine),
        knows(machine, disk),
        is_true(AssetReply::Surveyed(survey), machine.config.asr_model_dir, disk),
    ensures
        knows(machine.surveyed(survey), disk),
{
    let after = machine.surveyed(survey);
    match machine.step {
        AssetStep::SurveyAsr => assert(knows(after, disk)),
        AssetStep::SurveyMain => assert(knows(after, disk)),
        AssetStep::SurveyReady => assert(knows(after, disk)),
        AssetStep::SurveyFinal => assert(knows(after, disk)),
        _ => assert(knows(after, disk)),
    }
}

proof fn lemma_notice_gives_knowledge<F>(machine: AssetModel<F>, disk: DiskModel)
    requires
        valid(machine),
        knows(machine, disk),
    ensures
        knows(machine.published(), disk),
{
}

proof fn lemma_vad_preparation_gives_knowledge<F>(
    machine: AssetModel<F>,
    outcome: HybridAsrResult<PreparedVad>,
    failures: FailureTracker,
    parent: Option<Seq<char>>,
    disk: DiskModel,
)
    requires
        valid(machine),
        knows(machine, disk),
    ensures
        knows(machine.vad_prepared(outcome, failures, parent), disk),
{
}

proof fn lemma_location_gives_knowledge<F>(
    machine: AssetModel<F>,
    path: HybridAsrResult<String>,
    parent: Option<Seq<char>>,
    disk: DiskModel,
)
    requires
        valid(machine),
        knows(machine, disk),
    ensures
        knows(machine.located(path, parent), disk),
{
}

#[verifier::rlimit(30)]
proof fn lemma_reply_gives_knowledge<F>(
    machine: AssetModel<F>,
    reply: AssetReply,
    parent: Option<Seq<char>>,
    disk: DiskModel,
)
    requires
        valid(machine),
        knows(machine, disk),
        is_true(reply, machine.config.asr_model_dir, disk),
    ensures
        knows(stepped(machine, reply, parent), disk),
{
    reveal(stepped);
    let after = machine.next(reply, parent);
    match reply {
        AssetReply::Surveyed(survey) => lemma_survey_gives_knowledge(machine, survey, disk),
        AssetReply::Published => lemma_notice_gives_knowledge(machine, disk),
        AssetReply::VadPrepared(outcome, failures) => lemma_vad_preparation_gives_knowledge(
            machine,
            outcome,
            failures,
            parent,
            disk,
        ),
        AssetReply::VadLocated(path) => lemma_location_gives_knowledge(machine, path, parent, disk),
        AssetReply::VadChecked(_) => assert(knows(after, disk)),
        AssetReply::Resolved(_) => assert(knows(after, disk)),
        AssetReply::Installed(_, _) => assert(knows(after, disk)),
        AssetReply::Inspected(_) => assert(knows(after, disk)),
    }
}

/// Whether each reply of a run tells what is on the disk at its moment.
pub open spec fn all_true(
    replies: Seq<(AssetReply, Option<Seq<char>>)>,
    configured: Seq<char>,
    disks: Seq<DiskModel>,
) -> bool {
    &&& disks.len() == replies.len()
    &&& forall|i: int|
        #![trigger replies[i]]
        #![trigger disks[i]]
        0 <= i < replies.len() ==> is_true(replies[i].0, configured, disks[i])
}

/// Whether nothing vanishes from the disk from one moment to the next.
pub open spec fn nothing_vanishes(disks: Seq<DiskModel>) -> bool {
    forall|i: int, j: int|
        #![trigger disks[i], disks[j]]
        0 <= i <= j < disks.len() ==> nothing_vanished(disks[i], disks[j])
}

/// As long as nothing vanishes from the disk meanwhile, every preparation that succeeds has filled
/// in a directory that holds both files of the recognition model.
pub proof fn law_asr_model_dir_is_filled_in<F>(
    config: LocalConfigModel<F>,
    explicit: bool,
    replies: Seq<(AssetReply, Option<Seq<char>>)>,
    disks: Seq<DiskModel>,
)
    requires
        all_true(replies, config.asr_model_dir, disks),
        nothing_vanishes(disks),
    ensures
        has_succeeded(after_run(AssetModel::fresh(config, explicit), replies)) ==> replies.len() > 0
            && disks.last().complete.contains(
            after_run(AssetModel::fresh(config, explicit), replies).prepared.resolved.asr_model_dir,
        ),
{
    if replies.len() > 0 {
        lemma_run_gives_knowledge(config, explicit, replies, disks);
    }
}

proof fn lemma_run_gives_knowledge<F>(
    config: LocalConfigModel<F>,
    explicit: bool,
    replies: Seq<(AssetReply, Option<Seq<char>>)>,
    disks: Seq<DiskModel>,
)
    requires
        replies.len() > 0,
        all_true(replies, config.asr_model_dir, disks),
        nothing_vanishes(disks),
    ensures
        knows(after_run(AssetModel::fresh(config, explicit), replies), disks.last()),
    decreases replies.len(),
{
    let fresh = AssetModel::fresh(config, explicit);
    let earlier = replies.drop_last();
    let last = replies.len() - 1;
    let before = after_run(fresh, earlier);
    law_subscribers_hear_in_order(config, explicit, earlier);
    lemma_run_keeps_request(fresh, earlier);
    assert(is_true(replies[last].0, config.asr_model_dir, disks[last]));
    if earlier.len() > 0 {
        let earlier_disks = disks.drop_last();
        assert forall|i: int|
            #![trigger earlier[i]]
            #![trigger earlier_disks[i]]
            0 <= i < earlier.len() implies is_true(
            earlier[i].0,
            config.asr_model_dir,
            earlier_disks[i],
        ) by {
            assert(earlier[i] == replies[i]);
        }
        lemma_run_gives_knowledge(config, explicit, earlier, earlier_disks);
        assert(nothing_vanished(disks[last - 1], disks[last]));
        lemma_knowledge_lasts(before, disks[last - 1], disks[last]);
    } else {
        assert(before == fresh);
    }
    lemma_reply_gives_knowledge(before, replies.last().0, replies.last().1, disks[last]);
}

/// To an explicit download it makes no difference whether the configuration allows downloads: it
/// wants the same done, tells the same and ends the same.
pub proof fn law_explicit_download_ignores_auto_download<F>(
    first: LocalConfigModel<F>,
    second: LocalConfigModel<F>,
    replies: Seq<(AssetReply, Option<Seq<char>>)>,
    action: AssetAction<F>,
)
    requires
        second == (LocalConfigModel { auto_download: second.auto_download, ..first }),
    ensures
        ({
            let one = AssetModel::fresh(first, true);
            let other = AssetModel::fresh(second, true);
            &&& after_run(one, replies) == after_run(other, replies)
            &&& after_run(one, replies).outcome() == after_run(other, replies).outcome()
            &&& after_run(one, replies).wants(action) == after_run(other, replies).wants(action)
            &&& told_in_run(one, replies) == told_in_run(other, replies)
        }),
{
    assert(AssetModel::fresh(first, true) == AssetModel::fresh(second, true));
}

/// Whether a reply brings an error with this message.
pub open spec fn brings_error(reply: AssetReply, message: Seq<char>) -> bool {
    match reply {
        AssetReply::Surveyed(survey) => survey.target matches Err(error) && error@ == message,
        AssetReply::VadChecked(answer) => answer matches Err(error) && error@ == message,
        AssetReply::Resolved(dir) => dir matches Err(error) && error@ == message,
        AssetReply::Installed(outcome, _) => outcome matches Err(error) && error@ == message,
        AssetReply::VadPrepared(outcome, _) => outcome matches Err(error) && error@ == message,
        _ => false,
    }
}

/// Whether one of the replies of a run brings an error with this message.
pub open spec fn is_error_brought(
    replies: Seq<(AssetReply, Option<Seq<char>>)>,
    message: Seq<char>,
) -> bool {
    exists|i: int|
        #![trigger replies[i]]
        0 <= i < replies.len() && brings_error(replies[i].0, message)
}

/// Whether a message says that the address of the recognition model is missing or empty, or that
/// an installation lacks its files.
pub open spec fn is_own_fault<F>(config: LocalConfigModel<F>, message: Seq<char>) -> bool {
    ||| required_field(config.download_url, "download_url"@) == Err::<Seq<char>, Seq<char>>(message)
    ||| message == incomplete_installation()
}

spec fn is_accounted_for<F>(
    before: AssetModel<F>,
    reply: AssetReply,
    after: AssetModel<F>,
) -> bool {
    after.error matches Some(message) ==> before.error == Some(message) || brings_error(
        reply,
        message,
    ) || is_own_fault(before.config, message)
}

proof fn lemma_survey_error<F>(machine: AssetModel<F>, survey: AsrSurvey)
    ensures
        is_accounted_for(machine, AssetReply::Surveyed(survey), machine.surveyed(survey)),
{
    let reply = AssetReply::Surveyed(survey);
    let after = machine.surveyed(survey);
    match machine.step {
        AssetStep::SurveyMain => assert(is_accounted_for(machine, reply, after)),
        AssetStep::SurveyReady => assert(is_accounted_for(machine, reply, after)),
        AssetStep::SurveyFinal => assert(is_accounted_for(machine, reply, after)),
        _ => assert(is_accounted_for(machine, reply, after)),
    }
}

proof fn lemma_notice_error<F>(machine: AssetModel<F>)
    requires
        machine.config.auto_download,
    ensures
        is_accounted_for(machine, AssetReply::Published, machine.published()),
{
}

proof fn lemma_installation_error<F>(
    machine: AssetModel<F>,
    outcome: HybridAsrResult<InstalledPackage>,
    failures: FailureTracker,
)
    ensures
        is_accounted_for(
            machine,
            AssetReply::Installed(outcome, failures),
            machine.installed(outcome, failures),
        ),
{
}

proof fn lemma_vad_preparation_error<F>(
    machine: AssetModel<F>,
    outcome: HybridAsrResult<PreparedVad>,
    failures: FailureTracker,
    parent: Option<Seq<char>>,
)
    ensures
        is_accounted_for(
            machine,
            AssetReply::VadPrepared(outcome, failures),
            machine.vad_prepared(outcome, failures, parent),
        ),
{
}

proof fn lemma_step_error<F>(machine: AssetModel<F>, reply: AssetReply, parent: Option<Seq<char>>)
    requires
        machine.config.auto_download,
    ensures
        is_accounted_for(machine, reply, stepped(machine, reply, parent)),
{
    reveal(stepped);
    let after = machine.next(reply, parent);
    match reply {
        AssetReply::Surveyed(survey) => lemma_survey_error(machine, survey),
        AssetReply::Published => lemma_notice_error(machine),
        AssetReply::Installed(outcome, failures) => lemma_installation_error(
            machine,
            outcome,
            failures,
        ),
        AssetReply::VadPrepared(outcome, failures) => lemma_vad_preparation_error(
            machine,
            outcome,
            failures,
            parent,
        ),
        AssetReply::VadChecked(_) => assert(is_accounted_for(machine, reply, after)),
        AssetReply::Resolved(_) => assert(is_accounted_for(machine, reply, after)),
        AssetReply::Inspected(_) => assert(is_accounted_for(machine, reply, after)),
        AssetReply::VadLocated(_) => assert(is_accounted_for(machine, reply, after)),
    }
}

proof fn lemma_run_error<F>(
    config: LocalConfigModel<F>,
    replies: Seq<(AssetReply, Option<Seq<char>>)>,
    message: Seq<char>,
)
    requires
        after_run(AssetModel::fresh(config, true), replies).error == Some(message),
    ensures
        is_error_brought(replies, message) || is_own_fault(config, message),
    decreases replies.len(),
{
    let fresh = AssetModel::fresh(config, true);
    if replies.len() > 0 {
        let earlier = replies.drop_last();
        let before = after_run(fresh, earlier);
        lemma_run_keeps_request(fresh, earlier);
        lemma_step_error(before, replies.last().0, replies.last().1);
        if before.error == Some(message) {
            lemma_run_error(config, earlier, message);
            if is_error_brought(earlier, message) {
                let i = choose|i: int|
                    #![trigger earlier[i]]
                    0 <= i < earlier.len() && brings_error(earlier[i].0, message);
                assert(replies[i] == earlier[i]);
            }
        } else if brings_error(replies.last().0, message) {
            assert(replies[replies.len() - 1] == replies.last());
        }
    }
}

proof fn lemma_own_faults_are_no_refusals<F>(config: LocalConfigModel<F>, message: Seq<char>)
    requires
        is_own_fault(config, message),
    ensures
        !AUTO_DOWNLOAD_OFF@.is_prefix_of(message),
{
    reveal_strlit("本地 ASR/VAD 模型缺失，且 auto_download=false，请先调用显式下载 API");
    reveal_strlit("本地 ASR 模型缺失，且 ");
    reveal_strlit("安装目录中缺少 ");
    if AUTO_DOWNLOAD_OFF@.is_prefix_of(message) {
        assert(message[6] == AUTO_DOWNLOAD_OFF@[6]);
        assert(message[0] == AUTO_DOWNLOAD_OFF@[0]);
    }
}

/// An explicit download is never refused because the configuration allows no downloads. If it
/// fails, then with an error that was brought to it, or because the address of the recognition
/// model is missing or the installation lacks its files.
pub proof fn law_explicit_download_is_not_refused<F>(
    config: LocalConfigModel<F>,
    replies: Seq<(AssetReply, Option<Seq<char>>)>,
)
    ensures
        after_run(AssetModel::fresh(config, true), replies).error matches Some(message)
            ==> is_error_brought(replies, message) || is_own_fault(config, message)
            && !AUTO_DOWNLOAD_OFF@.is_prefix_of(message),
{
    let end = after_run(AssetModel::fresh(config, true), replies);
    if let Some(message) = end.error {
        lemma_run_error(config, replies, message);
        if is_own_fault(config, message) {
            lemma_own_faults_are_no_refusals(config, message);
        }
    }
}

/// Whether the machine is about to announce what is missing, or does so.
pub open spec fn is_announcing(step: AssetStep) -> bool {
    match step {
        AssetStep::AsrMissingDir
        | AssetStep::AsrMissingNotice
        | AssetStep::VadMissingDir
        | AssetStep::VadMissingNotice => true,
        _ => false,
    }
}

/// Whether `after` is on the way from `before` to the refusal, or has come to it.
spec fn is_being_refused<F>(before: AssetModel<F>, after: AssetModel<F>) -> bool {
    &&& after.config == before.config
    &&& after.asr_missing == before.asr_missing
    &&& after.vad_missing == before.vad_missing
    &&& is_announcing(after.step) && after.error is None || after.step == AssetStep::Done
        && after.error == Some(before.refusal())
}

proof fn lemma_step_is_refused<F>(
    before: AssetModel<F>,
    machine: AssetModel<F>,
    reply: AssetReply,
    parent: Option<Seq<char>>,
)
    requires
        !before.config.auto_download,
        is_being_refused(before, machine),
    ensures
        is_being_refused(before, stepped(machine, reply, parent)),
{
    reveal(stepped);
    assert(machine.refusal() == before.refusal());
    match machine.step {
        AssetStep::AsrMissingDir => {},
        AssetStep::AsrMissingNotice => {},
        AssetStep::VadMissingDir => {},
        AssetStep::VadMissingNotice => {},
        _ => {},
    }
}

/// Where something is missing and nothing may be downloaded, the preparation ends with the
/// refusal, even where the directory of a notice cannot be made out.
pub proof fn law_missing_models_are_refused<F>(
    machine: AssetModel<F>,
    replies: Seq<(AssetReply, Option<Seq<char>>)>,
)
    requires
        valid(machine),
        is_announcing(machine.step),
        !machine.config.auto_download,
    ensures
        after_run(machine, replies).step == AssetStep::Done ==> after_run(machine, replies).error
            == Some(machine.refusal()),
        after_run(machine, replies).step == AssetStep::Done || is_announcing(
            after_run(machine, replies).step,
        ),
{
    lemma_run_is_refused(machine, replies);
}

proof fn lemma_run_is_refused<F>(
    machine: AssetModel<F>,
    replies: Seq<(AssetReply, Option<Seq<char>>)>,
)
    requires
        valid(machine),
        is_announcing(machine.step),
        !machine.config.auto_download,
    ensures
        is_being_refused(machine, after_run(machine, replies)),
    decreases replies.len(),
{
    if replies.len() > 0 {
        let earlier = replies.drop_last();
        lemma_run_is_refused(machine, earlier);
        lemma_step_is_refused(
            machine,
            after_run(machine, earlier),
            replies.last().0,
            replies.last().1,
        );
    }
}

} // verus!
