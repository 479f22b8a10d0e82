//! What a preparation of models asks for and tells, by what was configured and what came back.

use std::path::PathBuf;

use vstd::prelude::*;

use crate::assets::forecast_laws::{
    has_address, is_found, law_complete_directories_are_taken, law_fields_are_required,
    law_missing_models_were_found_nowhere,
};
use crate::assets::laws::{after_run, lemma_run_keeps_request, stepped, valid};
use crate::assets::preparation::{
    is_child_name, AssetAction, AssetModel, AssetReply, AssetStep, InstallRequest,
    InstalledPackage, PreparedVad, SurveyRequest,
};
use crate::assets::{
    prepared_model, required_field, AsrSurvey, FailureTracker, InstallerResourceKind, ModelNotice,
    PreparedLocalAsrAssets, RootFindings, VadConfig,
};
use crate::config::LocalConfigModel;
use crate::error::{HybridAsrError, HybridAsrResult};
use crate::event::{ModelLifecyclePhase, ModelResourceKind};
use crate::paths::{
    final_name, in_dir, is_name, is_plain, last_part_start, name_or, path_of,
};
use crate::text::{text_model, trimmed};
use crate::text_laws::{is_blank, is_inner, law_trimming_takes_the_white_space_around};

verus! {

/// Whether the address that a machine installs from is the configured one.
spec fn keeps_address<F>(machine: AssetModel<F>) -> bool {
    machine.step == AssetStep::Install ==> required_field(
        machine.config.download_url,
        "download_url"@,
    ) == Ok::<Seq<char>, Seq<char>>(machine.download_url)
}

proof fn lemma_survey_keeps_address<F>(machine: AssetModel<F>, survey: AsrSurvey)
    requires
        keeps_address(machine),
    ensures
        keeps_address(machine.surveyed(survey)),
{
    match machine.step {
        AssetStep::SurveyMain => assert(keeps_address(machine.surveyed(survey))),
        AssetStep::SurveyReady => assert(keeps_address(machine.surveyed(survey))),
        AssetStep::SurveyFinal => assert(keeps_address(machine.surveyed(survey))),
        _ => assert(keeps_address(machine.surveyed(survey))),
    }
}

proof fn lemma_notice_keeps_address<F>(machine: AssetModel<F>)
    requires
        keeps_address(machine),
    ensures
        keeps_address(machine.published()),
{
}

proof fn lemma_step_keeps_address<F>(
    machine: AssetModel<F>,
    reply: AssetReply,
    parent: Option<Seq<char>>,
)
    requires
        keeps_address(machine),
    ensures
        keeps_address(stepped(machine, reply, parent)),
{
    reveal(stepped);
    let after = machine.next(reply, parent);
    match reply {
        AssetReply::Surveyed(survey) => lemma_survey_keeps_address(machine, survey),
        AssetReply::Published => lemma_notice_keeps_address(machine),
        AssetReply::Installed(_, _) => assert(keeps_address(after)),
        AssetReply::VadPrepared(_, _) => assert(keeps_address(after)),
        AssetReply::VadChecked(_) => assert(keeps_address(after)),
        AssetReply::Resolved(_) => assert(keeps_address(after)),
        AssetReply::Inspected(_) => assert(keeps_address(after)),
        AssetReply::VadLocated(_) => assert(keeps_address(after)),
    }
}

proof fn lemma_run_keeps_address<F>(
    machine: AssetModel<F>,
    replies: Seq<(AssetReply, Option<Seq<char>>)>,
)
    requires
        keeps_address(machine),
    ensures
        keeps_address(after_run(machine, replies)),
    decreases replies.len(),
{
    if replies.len() > 0 {
        lemma_run_keeps_address(machine, replies.drop_last());
        lemma_step_keeps_address(
            after_run(machine, replies.drop_last()),
            replies.last().0,
            replies.last().1,
        );
    }
}

/// Whenever a preparation wants something installed, it is the recognition model, from its own
/// configured address without the white space around it, whatever the address of the voice
/// activity model is, and to the configured place.
pub proof fn law_recognition_model_is_installed_from_its_address<F>(
    config: LocalConfigModel<F>,
    explicit: bool,
    replies: Seq<(AssetReply, Option<Seq<char>>)>,
    request: InstallRequest,
)
    requires
        after_run(AssetModel::fresh(config, explicit), replies).wants(AssetAction::Install(request)),
    ensures
        has_address(config.download_url),
        is_inner(config.download_url->0, request.download_url@),
        request.download_url@ == trimmed(config.download_url->0),
        text_model(request.target_dir) == config.target_dir,
        request.resource_kind == InstallerResourceKind::Asr,
        request.package_key@ == "hybrid-asr"@,
{
    let fresh = AssetModel::fresh(config, explicit);
    lemma_run_keeps_address(fresh, replies);
    lemma_run_keeps_request(fresh, replies);
    lemma_only_install_installs(after_run(fresh, replies), request);
    law_fields_are_required(config.download_url, "download_url"@);
}

proof fn lemma_only_install_installs<F>(machine: AssetModel<F>, request: InstallRequest)
    requires
        machine.wants(AssetAction::Install(request)),
    ensures
        machine.step == AssetStep::Install,
        request.download_url@ == machine.download_url,
        text_model(request.target_dir) == machine.config.target_dir,
        request.resource_kind == InstallerResourceKind::Asr,
        request.package_key@ == "hybrid-asr"@,
{
}

/// Whether a text is the given one, or both are absent.
pub open spec fn is_text(text: Option<String>, configured: Option<Seq<char>>) -> bool {
    match configured {
        Some(given) => text matches Some(found) && found@ == given,
        None => text is None,
    }
}

/// A survey looks for the model in the configured directory and at the configured root.
pub proof fn law_surveys_look_where_configured<F>(
    config: LocalConfigModel<F>,
    explicit: bool,
    replies: Seq<(AssetReply, Option<Seq<char>>)>,
    request: SurveyRequest,
)
    requires
        after_run(AssetModel::fresh(config, explicit), replies).wants(AssetAction::Survey(request)),
    ensures
        request.model_dir@ == config.asr_model_dir,
        is_text(request.target_dir, config.target_dir),
        is_plain(config.asr_model_dir) && is_name(config.asr_model_dir) && !is_blank(
            config.asr_model_dir,
        ) ==> request.child_name@ == config.asr_model_dir,
        forall|dir: Seq<char>, name: Seq<char>| #[trigger]
            in_dir(dir, name) == config.asr_model_dir && is_plain(config.asr_model_dir) && is_name(
                name,
            ) && !is_blank(name) ==> request.child_name@ == name,
        is_plain(config.asr_model_dir) && (final_name(config.asr_model_dir) is None || is_blank(
            final_name(config.asr_model_dir)->0,
        )) ==> request.child_name@ == "sense-voice-zh-en"@,
{
    let fresh = AssetModel::fresh(config, explicit);
    lemma_run_keeps_request(fresh, replies);
    lemma_survey_request(after_run(fresh, replies), request);
    lemma_child_name(config.asr_model_dir, request.child_name@);
}

/// After an installation the model is looked for in the configured directory and in the root that
/// the installer has told of.
pub proof fn law_installations_are_inspected<F>(
    machine: AssetModel<F>,
    package: InstalledPackage,
    failures: FailureTracker,
    action: AssetAction<F>,
)
    requires
        machine.step == AssetStep::Install,
        machine.next(AssetReply::Installed(Ok(package), failures), None).wants(action),
    ensures
        action matches AssetAction::Inspect(request) && {
            &&& request.root == package.install_root
            &&& request.model_dir@ == machine.config.asr_model_dir
            &&& forall|dir: Seq<char>, name: Seq<char>| #[trigger]
                in_dir(dir, name) == machine.config.asr_model_dir && is_plain(
                    machine.config.asr_model_dir,
                ) && is_name(name) && !is_blank(name) ==> request.child_name@ == name
            &&& is_plain(machine.config.asr_model_dir) && (final_name(machine.config.asr_model_dir)
                is None || is_blank(final_name(machine.config.asr_model_dir)->0))
                ==> request.child_name@ == "sense-voice-zh-en"@
        },
        machine.next(AssetReply::Installed(Ok(package), failures), None).install_downloaded
            == package.downloaded_anything,
        machine.next(AssetReply::Installed(Ok(package), failures), None).error == machine.error,
{
    lemma_child_name(machine.config.asr_model_dir, action->Inspect_0.child_name@);
}

proof fn lemma_survey_request<F>(machine: AssetModel<F>, request: SurveyRequest)
    requires
        machine.wants(AssetAction::Survey(request)),
    ensures
        request.model_dir@ == machine.config.asr_model_dir,
        text_model(request.target_dir) == machine.config.target_dir,
        is_child_name(
            machine.config.asr_model_dir,
            request.child_name@,
        ),
{
}

proof fn lemma_last_part(dir: Seq<char>, name: Seq<char>)
    requires
        !name.contains('/'),
    ensures
        last_part_start(in_dir(dir, name)) == dir.len() + 1,
    decreases name.len(),
{
    let path = in_dir(dir, name);
    if name.len() == 0 {
        assert(path.last() == '/');
    } else {
        let shorter = name.drop_last();
        assert(name.contains(name.last()));
        assert forall|c: char| shorter.contains(c) implies name.contains(c) by {
            let i = choose|i: int| 0 <= i < shorter.len() && shorter[i] == c;
            assert(name[i] == c);
        }
        assert(path.last() == name.last());
        assert(path.drop_last() =~= in_dir(dir, shorter));
        lemma_last_part(dir, shorter);
    }
}

proof fn lemma_only_part(name: Seq<char>)
    requires
        !name.contains('/'),
    ensures
        last_part_start(name) == 0,
    decreases name.len(),
{
    if name.len() > 0 {
        let shorter = name.drop_last();
        assert(name.contains(name.last()));
        assert forall|c: char| shorter.contains(c) implies name.contains(c) by {
            let i = choose|i: int| 0 <= i < shorter.len() && shorter[i] == c;
            assert(name[i] == c);
        }
        lemma_only_part(shorter);
    }
}

proof fn lemma_child_name(model_dir: Seq<char>, child_name: Seq<char>)
    requires
        is_child_name(model_dir, child_name),
    ensures
        is_plain(model_dir) && is_name(model_dir) && !is_blank(model_dir) ==> child_name
            == model_dir,
        forall|dir: Seq<char>, name: Seq<char>| #[trigger]
            in_dir(dir, name) == model_dir && is_plain(model_dir) && is_name(name) && !is_blank(
                name,
            ) ==> child_name == name,
        is_plain(model_dir) && (final_name(model_dir) is None || is_blank(
            final_name(model_dir)->0,
        )) ==> child_name == "sense-voice-zh-en"@,
{
    if is_plain(model_dir) {
        if let Some(name) = final_name(model_dir) {
            law_trimming_takes_the_white_space_around(name);
        }
        if is_name(model_dir) {
            lemma_only_part(model_dir);
            assert(model_dir.skip(0) =~= model_dir);
        }
        assert forall|dir: Seq<char>, name: Seq<char>| #[trigger]
            in_dir(dir, name) == model_dir && is_name(name) && !is_blank(
                name,
            ) implies child_name == name by {
            lemma_last_part(dir, name);
            assert(in_dir(dir, name).skip((dir.len() + 1) as int) =~= name);
        }
    }
}

/// Whether `vad` asks for voice activity detection as it is configured.
pub open spec fn is_vad_request<F>(
    config: LocalConfigModel<F>,
    auto_download: bool,
    vad: VadConfig<F>,
) -> bool {
    &&& is_text(
        vad.download_url,
        if config.vad_download_url is Some {
            config.vad_download_url
        } else {
            config.download_url
        },
    )
    &&& is_text(
        vad.target_dir,
        if config.vad_target_dir is Some {
            config.vad_target_dir
        } else {
            config.target_dir
        },
    )
    &&& vad.model_path.dir == path_of(config.vad_model_dir)
    &&& vad.auto_download == auto_download
    &&& vad.sample_rate == config.sample_rate
    &&& vad.provider@ == config.provider
    &&& vad.threshold == config.vad_threshold
}

/// The voice activity model is looked for, prepared and located as it is configured; only to
/// locate it, downloads are forbidden.
pub proof fn law_voice_activity_is_asked_for_as_configured<F>(
    config: LocalConfigModel<F>,
    explicit: bool,
    replies: Seq<(AssetReply, Option<Seq<char>>)>,
    vad: VadConfig<F>,
)
    ensures
        after_run(AssetModel::fresh(config, explicit), replies).wants(AssetAction::CheckVad(vad))
            ==> is_vad_request(config, explicit || config.auto_download, vad),
        after_run(AssetModel::fresh(config, explicit), replies).wants(AssetAction::PrepareVad(vad))
            ==> is_vad_request(config, explicit || config.auto_download, vad),
        after_run(AssetModel::fresh(config, explicit), replies).wants(AssetAction::LocateVad(vad))
            ==> is_vad_request(config, false, vad),
{
    let fresh = AssetModel::fresh(config, explicit);
    lemma_run_keeps_request(fresh, replies);
    lemma_vad_request(after_run(fresh, replies), vad);
}

proof fn lemma_vad_request<F>(machine: AssetModel<F>, vad: VadConfig<F>)
    ensures
        machine.wants(AssetAction::CheckVad(vad)) ==> is_vad_request(
            machine.config,
            machine.config.auto_download,
            vad,
        ),
        machine.wants(AssetAction::PrepareVad(vad)) ==> is_vad_request(
            machine.config,
            machine.config.auto_download,
            vad,
        ),
        machine.wants(AssetAction::LocateVad(vad)) ==> is_vad_request(machine.config, false, vad),
{
}

/// Whether `notice` says this.
pub open spec fn says(
    notice: ModelNotice,
    kind: ModelResourceKind,
    phase: ModelLifecyclePhase,
    dir: PathBuf,
    message: Seq<char>,
) -> bool {
    &&& notice.resource_kind == kind
    &&& notice.phase == phase
    &&& notice.target_dir == dir
    &&& notice.message@ == message
}

/// What is announced as missing or failed: the model, the directory that its configured target
/// stands for, and its configured directory or the message of the failure.
pub proof fn law_announcements_say_what_happened<F>(
    machine: AssetModel<F>,
    target: Option<String>,
    dir: PathBuf,
    action: AssetAction<F>,
)
    requires
        valid(machine),
        machine.wants(AssetAction::ResolveTarget(target)),
        machine.next(AssetReply::Resolved(Ok(dir)), None).wants(action),
    ensures
        action matches AssetAction::Publish(notice) && {
            ||| machine.error is None && is_text(target, machine.config.target_dir) && says(
                notice,
                ModelResourceKind::Asr,
                ModelLifecyclePhase::Missing,
                dir,
                "本地 ASR 模型缺失，准备下载或安装，model_dir="@ + machine.config.asr_model_dir,
            )
            ||| machine.error is None && is_text(
                target,
                if machine.config.vad_target_dir is Some {
                    machine.config.vad_target_dir
                } else {
                    machine.config.target_dir
                },
            ) && says(
                notice,
                ModelResourceKind::Vad,
                ModelLifecyclePhase::Missing,
                dir,
                "本地 VAD 模型缺失，准备下载或安装，model_dir="@ + machine.config.vad_model_dir,
            )
            ||| machine.error is Some && is_text(target, machine.config.target_dir) && says(
                notice,
                ModelResourceKind::Asr,
                ModelLifecyclePhase::Failed,
                dir,
                machine.error->0,
            )
            ||| machine.error is Some && is_text(
                target,
                if machine.config.vad_target_dir is Some {
                    machine.config.vad_target_dir
                } else {
                    machine.config.target_dir
                },
            ) && says(
                notice,
                ModelResourceKind::Vad,
                ModelLifecyclePhase::Failed,
                dir,
                machine.error->0,
            )
        },
        action->Publish_0.resource_kind == ModelResourceKind::Asr <==> machine.step
            == AssetStep::AsrMissingDir || machine.step == AssetStep::AsrFailedDir,
{
    match machine.step {
        AssetStep::AsrMissingDir => {},
        AssetStep::VadMissingDir => {},
        AssetStep::AsrFailedDir => {},
        AssetStep::VadFailedDir => {},
        _ => {},
    }
}

/// Whether the recognition model of the outcome is the one that was prepared, and the root of the
/// voice activity model is where it is said to be.
spec fn keeps_roots<F>(machine: AssetModel<F>) -> bool {
    machine.step == AssetStep::AsrReadyNotice ==> machine.prepared.install_root
        == machine.main.install_root
}

#[verifier::rlimit(30)]
proof fn lemma_step_keeps_roots<F>(
    machine: AssetModel<F>,
    reply: AssetReply,
    parent: Option<Seq<char>>,
)
    requires
        keeps_roots(machine),
    ensures
        keeps_roots(stepped(machine, reply, parent)),
{
    reveal(stepped);
    let after = machine.next(reply, parent);
    match reply {
        AssetReply::Surveyed(_) => {
            match machine.step {
                AssetStep::SurveyMain => assert(keeps_roots(after)),
                AssetStep::SurveyReady => assert(keeps_roots(after)),
                AssetStep::SurveyFinal => assert(keeps_roots(after)),
                _ => assert(keeps_roots(after)),
            }
        },
        AssetReply::Published => assert(keeps_roots(after)),
        AssetReply::Installed(_, _) => assert(keeps_roots(after)),
        AssetReply::VadPrepared(_, _) => assert(keeps_roots(after)),
        AssetReply::VadChecked(_) => assert(keeps_roots(after)),
        AssetReply::Resolved(_) => assert(keeps_roots(after)),
        AssetReply::Inspected(_) => assert(keeps_roots(after)),
        AssetReply::VadLocated(_) => assert(keeps_roots(after)),
    }
}

proof fn lemma_run_keeps_roots<F>(
    machine: AssetModel<F>,
    replies: Seq<(AssetReply, Option<Seq<char>>)>,
)
    requires
        keeps_roots(machine),
    ensures
        keeps_roots(after_run(machine, replies)),
    decreases replies.len(),
{
    if replies.len() > 0 {
        lemma_run_keeps_roots(machine, replies.drop_last());
        lemma_step_keeps_roots(
            after_run(machine, replies.drop_last()),
            replies.last().0,
            replies.last().1,
        );
    }
}

/// What is announced as ready: the recognition model at its installation root or else in the
/// directory that comes out, and the voice activity model at the root that came with it or else in
/// the directory that comes out; an explicit download tells of models that were there by their
/// directories.
pub proof fn law_readiness_is_announced_where_it_is<F>(
    config: LocalConfigModel<F>,
    explicit: bool,
    replies: Seq<(AssetReply, Option<Seq<char>>)>,
    notice: ModelNotice,
)
    requires
        after_run(AssetModel::fresh(config, explicit), replies).wants(AssetAction::Publish(notice)),
        notice.phase == ModelLifecyclePhase::Downloaded,
    ensures
        ({
            let machine = after_run(AssetModel::fresh(config, explicit), replies);
            let prepared = machine.prepared;
            let asr_dir = path_of(prepared.resolved.asr_model_dir);
            let vad_dir = path_of(prepared.resolved.vad_model_dir);
            &&& notice.resource_kind == ModelResourceKind::Asr ==> notice.message@
                == "本地 SenseVoice 模型已经准备完成"@
            &&& notice.resource_kind == ModelResourceKind::Vad ==> notice.message@
                == "本地 VAD 模型已经准备完成"@
            &&& machine.step == AssetStep::AsrReadyNotice ==> notice.resource_kind
                == ModelResourceKind::Asr && notice.target_dir == (match prepared.install_root {
                Some(root) => root,
                None => asr_dir,
            })
            &&& machine.step == AssetStep::AsrConfirmNotice ==> notice.resource_kind
                == ModelResourceKind::Asr && notice.target_dir == asr_dir
            &&& machine.step == AssetStep::VadReadyNotice ==> notice.resource_kind
                == ModelResourceKind::Vad && notice.target_dir == (match machine.vad_root {
                Some(root) => root,
                None => vad_dir,
            })
            &&& machine.step == AssetStep::VadConfirmNotice ==> notice.resource_kind
                == ModelResourceKind::Vad && notice.target_dir == vad_dir
        }),
{
    let fresh = AssetModel::fresh(config, explicit);
    lemma_run_keeps_roots(fresh, replies);
    lemma_ready_notice(after_run(fresh, replies), notice);
}

proof fn lemma_ready_notice<F>(machine: AssetModel<F>, notice: ModelNotice)
    requires
        keeps_roots(machine),
        machine.wants(AssetAction::Publish(notice)),
        notice.phase == ModelLifecyclePhase::Downloaded,
    ensures
        notice.resource_kind == ModelResourceKind::Asr ==> notice.message@
            == "本地 SenseVoice 模型已经准备完成"@,
        notice.resource_kind == ModelResourceKind::Vad ==> notice.message@
            == "本地 VAD 模型已经准备完成"@,
        machine.step == AssetStep::AsrReadyNotice ==> notice.resource_kind
            == ModelResourceKind::Asr && notice.target_dir == (match machine.prepared.install_root {
            Some(root) => root,
            None => path_of(machine.prepared.resolved.asr_model_dir),
        }),
        machine.step == AssetStep::AsrConfirmNotice ==> notice.resource_kind
            == ModelResourceKind::Asr && notice.target_dir == path_of(
            machine.prepared.resolved.asr_model_dir,
        ),
        machine.step == AssetStep::VadReadyNotice ==> notice.resource_kind
            == ModelResourceKind::Vad && notice.target_dir == (match machine.vad_root {
            Some(root) => root,
            None => path_of(machine.prepared.resolved.vad_model_dir),
        }),
        machine.step == AssetStep::VadConfirmNotice ==> notice.resource_kind
            == ModelResourceKind::Vad && notice.target_dir == path_of(
            machine.prepared.resolved.vad_model_dir,
        ),
{
}

/// What follows a survey for the recognition model that is to be prepared: nothing is installed if
/// it was found, it is installed if it was not and its address is given, and else the preparation
/// ends with an error.
pub proof fn law_what_was_not_found_is_installed<F>(machine: AssetModel<F>, survey: AsrSurvey)
    requires
        valid(machine),
        machine.step == AssetStep::SurveyMain,
        survey.main_complete || survey.target is Ok,
    ensures
        ({
            let after = machine.surveyed(survey);
            &&& is_found(survey) ==> after.step == AssetStep::PrepareVad
            &&& !is_found(survey) && has_address(machine.config.download_url) ==> after.step
                == AssetStep::Install
            &&& !is_found(survey) && !has_address(machine.config.download_url) ==> after.error
                is Some
            &&& survey.main_complete ==> after.main.resolved.asr_model_dir
                == machine.config.asr_model_dir && after.main.install_root is None
        }),
{
    law_missing_models_were_found_nowhere(machine.config, survey);
    law_fields_are_required(machine.config.download_url, "download_url"@);
}

/// What follows an installation: the model is taken from where it was found, and an installation
/// without it is an error.
pub proof fn law_installed_models_are_used<F>(machine: AssetModel<F>, found: RootFindings)
    requires
        valid(machine),
        machine.step == AssetStep::InspectInstallation,
    ensures
        ({
            let after = machine.next(AssetReply::Inspected(found), None);
            let complete = found.configured_complete || found.child_complete || found.root_complete;
            &&& complete ==> after.step == AssetStep::PrepareVad && after.error is None
            &&& complete ==> after.main.resolved.asr_model_dir == (if found.configured_complete {
                machine.config.asr_model_dir
            } else if found.child_complete {
                found.child_dir@
            } else {
                found.root_dir@
            })
            &&& complete ==> after.main.install_root == machine.install_root
                && after.main.downloaded_anything == machine.install_downloaded
            &&& !complete ==> after.error is Some
        }),
{
    law_complete_directories_are_taken(machine.config.asr_model_dir, found);
}

/// What follows the answer whether the voice activity model is missing: what is missing is
/// announced, the recognition model first, and where nothing is, the models are taken.
pub proof fn law_what_is_missing_is_announced_first<F>(machine: AssetModel<F>, vad: bool)
    requires
        valid(machine),
        machine.step == AssetStep::CheckVad,
    ensures
        ({
            let after = machine.next(AssetReply::VadChecked(Ok(vad)), None);
            &&& after.vad_missing == vad
            &&& after.asr_missing == machine.asr_missing
            &&& after.error is None
            &&& after.step == if machine.asr_missing {
                AssetStep::AsrMissingDir
            } else if vad {
                AssetStep::VadMissingDir
            } else {
                AssetStep::SurveyReady
            }
        }),
{
}

/// What follows the announcement of what is missing: the download, if it is allowed.
pub proof fn law_downloads_follow_announcements<F>(machine: AssetModel<F>)
    requires
        valid(machine),
        machine.step == AssetStep::AsrMissingNotice || machine.step == AssetStep::VadMissingNotice,
    ensures
        ({
            let after = machine.next(AssetReply::Published, None);
            if machine.step == AssetStep::AsrMissingNotice && machine.vad_missing {
                after.step == AssetStep::VadMissingDir
            } else if machine.config.auto_download {
                after.step == AssetStep::SurveyMain && after.error is None
            } else {
                after.step == AssetStep::Done && after.error is Some
            }
        }),
{
}

/// What follows the preparation of the voice activity model: the outcome has everything that was
/// prepared, and its directory is the one that the model lies in.
pub proof fn law_prepared_models_come_out<F>(
    machine: AssetModel<F>,
    vad: PreparedVad,
    failures: FailureTracker,
    parent: Option<Seq<char>>,
)
    requires
        valid(machine),
        machine.step == AssetStep::PrepareVad,
    ensures
        ({
            let after = machine.next(AssetReply::VadPrepared(Ok(vad), failures), parent);
            &&& after.error is None
            &&& after.prepared.resolved.vad_model_dir == (match parent {
                Some(dir) => dir,
                None => machine.config.vad_model_dir,
            })
            &&& after.prepared.resolved.asr_model_dir == machine.main.resolved.asr_model_dir
            &&& after.prepared.downloaded_anything == (machine.main.downloaded_anything
                || vad.downloaded_anything)
            &&& after.prepared.install_root == machine.main.install_root
            &&& after.vad_root == vad.install_root
            &&& after.step == if machine.asr_missing {
                AssetStep::AsrReadyNotice
            } else {
                AssetStep::SurveyFinal
            }
        }),
{
}

/// What a survey before the preparation tells: an explicit download learns from it, and from the
/// answer on the other model, which models were there before, and every preparation which are
/// missing.
pub proof fn law_surveys_tell_what_is_missing<F>(
    machine: AssetModel<F>,
    survey: AsrSurvey,
    vad: bool,
)
    requires
        valid(machine),
        survey.main_complete || survey.target is Ok,
    ensures
        machine.step == AssetStep::ForecastAsr ==> machine.next(
            AssetReply::Surveyed(survey),
            None,
        ) == (AssetModel {
            step: AssetStep::ForecastVad,
            forecast_asr: !is_found(survey),
            ..machine
        }),
        machine.step == AssetStep::ForecastVad ==> machine.next(
            AssetReply::VadChecked(Ok(vad)),
            None,
        ) == (AssetModel { step: AssetStep::SurveyAsr, forecast_vad: vad, ..machine }),
        machine.step == AssetStep::SurveyAsr ==> machine.next(
            AssetReply::Surveyed(survey),
            None,
        ) == (AssetModel {
            step: AssetStep::CheckVad,
            asr_missing: !is_found(survey),
            ..machine
        }),
{
    law_missing_models_were_found_nowhere(machine.config, survey);
}

/// A preparation begins with nothing found, nothing missing and nothing told; an explicit one first
/// learns what was there before.
pub proof fn law_preparations_begin_with_a_survey<F>(config: LocalConfigModel<F>, explicit: bool)
    ensures
        ({
            let fresh = AssetModel::fresh(config, explicit);
            &&& fresh.step == if explicit {
                AssetStep::ForecastAsr
            } else {
                AssetStep::SurveyAsr
            }
            &&& !fresh.asr_missing && !fresh.vad_missing
            &&& fresh.error is None
            &&& fresh.explicit == explicit
            &&& !fresh.failures.asr && !fresh.failures.vad
        }),
{
}

/// Where the recognition model was not missing, the last survey says which directory comes out:
/// the one in which the survey found it at the installation root, or else the configured one; the
/// directory of the other model stays as it was prepared.
pub proof fn law_last_survey_decides<F>(machine: AssetModel<F>, survey: AsrSurvey)
    requires
        valid(machine),
        machine.step == AssetStep::SurveyFinal || machine.step == AssetStep::SurveyReady,
        survey.target is Ok,
    ensures
        ({
            let after = machine.next(AssetReply::Surveyed(survey), None);
            let target = survey.target->Ok_0;
            &&& after.error is None
            &&& after.prepared.resolved.asr_model_dir == (if target.exists
                && !target.found.configured_complete && target.found.child_complete {
                target.found.child_dir@
            } else if target.exists && !target.found.configured_complete
                && target.found.root_complete {
                target.found.root_dir@
            } else {
                machine.config.asr_model_dir
            })
            &&& machine.step == AssetStep::SurveyFinal ==> after.prepared.resolved.vad_model_dir
                == machine.prepared.resolved.vad_model_dir
            &&& machine.step == AssetStep::SurveyFinal ==> after.prepared.downloaded_anything
                == machine.prepared.downloaded_anything && after.prepared.install_root
                == machine.prepared.install_root
            &&& machine.step == AssetStep::SurveyReady ==> after.step == AssetStep::LocateVad
        }),
{
}

/// What comes of a preparation that is done: the error that it ended with, or what it has
/// prepared, as it is.
pub proof fn law_outcomes_are_what_was_prepared<F>(
    machine: AssetModel<F>,
    result: HybridAsrResult<PreparedLocalAsrAssets<F>>,
)
    requires
        prepared_model(result) == machine.outcome(),
    ensures
        result is Err <==> machine.error is Some,
        result matches Err(error) ==> machine.error == Some(error@),
        result matches Ok(prepared) ==> {
            &&& prepared.resolved_config@ == machine.prepared.resolved
            &&& prepared.resolved_config.asr_model_dir@ == machine.prepared.resolved.asr_model_dir
            &&& prepared.resolved_config.vad_model_dir@ == machine.prepared.resolved.vad_model_dir
            &&& prepared.downloaded_anything == machine.prepared.downloaded_anything
            &&& prepared.install_root == machine.prepared.install_root
        },
{
}

/// A name is taken as it is unless there is none or it is blank: then the other one is.
pub proof fn law_blank_names_are_replaced(name: Option<Seq<char>>, fallback: Seq<char>)
    ensures
        name matches Some(text) && !is_blank(text) ==> name_or(name, fallback) == name->0,
        name is None || is_blank(name->0) ==> name_or(name, fallback) == fallback,
{
    if let Some(text) = name {
        law_trimming_takes_the_white_space_around(text);
    }
}

/// A model that was prepared, or that was located, is taken to be in the directory that its path
/// names, and everything else follows from the reply alone.
pub proof fn law_replies_lead_to_the_named_directory<F>(
    machine: AssetModel<F>,
    reply: AssetReply,
    after: AssetModel<F>,
    path: Seq<char>,
    dir: Seq<char>,
    name: Seq<char>,
)
    requires
        valid(machine),
        machine.leads_to(reply, after),
    ensures
        is_vad_path(machine, reply, path) && is_plain(path) && path == in_dir(dir, name) && is_name(
            name,
        ) && is_name(dir.skip(last_part_start(dir))) ==> after == machine.next(reply, Some(dir))
            && after.prepared.resolved.vad_model_dir == dir,
        is_vad_path(machine, reply, path) && is_plain(path) && is_name(path) ==> after.error is None
            && after.prepared.resolved.vad_model_dir.len() == 0,
        (forall|other: Seq<char>| !#[trigger] is_vad_path(machine, reply, other)) ==> after
            == machine.next(reply, None),
{
    match (machine.step, reply) {
        (AssetStep::PrepareVad, AssetReply::VadPrepared(Ok(vad), _)) => {
            assert(is_vad_path(machine, reply, vad.model_path@));
        },
        (AssetStep::LocateVad, AssetReply::VadLocated(Ok(found))) => {
            assert(is_vad_path(machine, reply, found@));
        },
        _ => {},
    }
}

/// Whether a reply tells the path of the voice activity model that was asked for.
pub open spec fn is_vad_path<F>(
    machine: AssetModel<F>,
    reply: AssetReply,
    path: Seq<char>,
) -> bool {
    match (machine.step, reply) {
        (AssetStep::PrepareVad, AssetReply::VadPrepared(Ok(vad), _)) => vad.model_path@ == path,
        (AssetStep::LocateVad, AssetReply::VadLocated(Ok(found))) => found@ == path,
        _ => false,
    }
}

/// A failure goes out as a notice exactly where its model was missing and the installer has not told
/// of a failure of that model by itself; it is the outcome either way. What an installer has told
/// of is remembered.
pub proof fn law_told_failures_are_not_told_again<F>(
    machine: AssetModel<F>,
    error: HybridAsrError,
    package: InstalledPackage,
    vad: PreparedVad,
    found: RootFindings,
    failures: FailureTracker,
    parent: Option<Seq<char>>,
)
    ensures
        machine.step == AssetStep::Install ==> ({
            let refused = machine.next(AssetReply::Installed(Err(error), failures), parent);
            let installed = machine.next(AssetReply::Installed(Ok(package), failures), parent);
            &&& refused.error == Some(error@)
            &&& refused.failures == failures
            &&& refused.step == if machine.asr_missing && !failures.asr {
                AssetStep::AsrFailedDir
            } else {
                AssetStep::Done
            }
            &&& installed.failures == failures
        }),
        machine.step == AssetStep::InspectInstallation && !found.configured_complete
            && !found.child_complete && !found.root_complete ==> ({
            let lacking = machine.next(AssetReply::Inspected(found), parent);
            &&& lacking.error is Some
            &&& lacking.step == if machine.asr_missing && !machine.failures.asr {
                AssetStep::AsrFailedDir
            } else {
                AssetStep::Done
            }
        }),
        machine.step == AssetStep::PrepareVad ==> ({
            let refused = machine.next(AssetReply::VadPrepared(Err(error), failures), parent);
            let prepared = machine.next(AssetReply::VadPrepared(Ok(vad), failures), parent);
            &&& refused.error == Some(error@)
            &&& refused.failures == failures
            &&& refused.step == if machine.vad_missing && !failures.vad {
                AssetStep::VadFailedDir
            } else {
                AssetStep::Done
            }
            &&& prepared.failures == failures
        }),
{
}

} // verus!
