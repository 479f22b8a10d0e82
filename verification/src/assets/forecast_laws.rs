//! What is found of the models, what would be downloaded, and from where.

use std::time::SystemTime;

use vstd::prelude::*;

use crate::assets::{
    answer_model, asr_missing, download_fault, download_forecast, event_told, existing_assets,
    hub_after_download_event, is_vad_config, model_dir_in, notice_event, required_field, AsrSurvey,
    DownloadEvent, DownloadPhase, FailureTracker, InstallerResourceKind, ModelNotice, RootFindings,
    VadConfig,
};
use crate::config::LocalConfigModel;
use crate::error::HybridAsrResult;
use crate::event::{AsrEvent, HubModel, ModelLifecyclePhase, ModelResourceKind};
use crate::paths::path_of;
use crate::text::{text_model, trimmed};
use crate::text_laws::{is_blank, is_inner, law_trimming_takes_the_white_space_around};

verus! {

/// Whether an address is given: it is there and not blank.
pub open spec fn has_address(url: Option<Seq<char>>) -> bool {
    url matches Some(text) && !is_blank(text)
}

/// The address of the voice activity model: its own, or that of the recognition model where it has
/// none.
pub open spec fn vad_address<F>(config: LocalConfigModel<F>) -> Option<Seq<char>> {
    match config.vad_download_url {
        Some(url) => Some(url),
        None => config.download_url,
    }
}

/// Whether a whole recognition model was found somewhere: in the configured directory, or, where
/// the installation root exists, in the configured directory, below the root or in it.
pub open spec fn is_found(survey: AsrSurvey) -> bool {
    survey.main_complete || (survey.target matches Ok(target) && target.exists && (
    target.found.configured_complete || target.found.child_complete || target.found.root_complete))
}

/// A field without which nothing can be downloaded is refused exactly where it is absent or blank,
/// in words that name it, and is else taken without the white space around it.
pub proof fn law_fields_are_required(value: Option<Seq<char>>, field: Seq<char>)
    ensures
        required_field(value, field) is Ok <==> has_address(value),
        required_field(value, field) matches Ok(text) ==> value is Some && is_inner(value->0, text)
            && text == trimmed(value->0),
        value is None ==> required_field(value, field) == Err::<Seq<char>, Seq<char>>(
            "本地 ASR 模型缺失，且 "@ + field + " 未配置"@,
        ),
        value is Some && is_blank(value->0) ==> required_field(value, field) == Err::<
            Seq<char>,
            Seq<char>,
        >("本地 ASR 模型缺失，且 "@ + field + " 为空"@),
{
    if let Some(text) = value {
        law_trimming_takes_the_white_space_around(text);
    }
}

/// Nothing stands against a download exactly if every model that is missing has an address; a
/// field of a model that is there does not matter. What is said otherwise is about a model that is
/// missing and has none, the recognition model first.
pub proof fn law_only_missing_models_need_an_address<F>(
    config: LocalConfigModel<F>,
    asr: bool,
    vad: bool,
)
    ensures
        download_fault(config, asr, vad) is None <==> (asr ==> has_address(config.download_url))
            && (vad ==> has_address(vad_address(config))),
        download_fault(config, asr, vad) matches Some(message) ==> {
            ||| asr && !has_address(config.download_url) && required_field(
                config.download_url,
                "download_url"@,
            ) == Err::<Seq<char>, Seq<char>>(message)
            ||| vad && !has_address(vad_address(config)) && (asr ==> has_address(
                config.download_url,
            )) && required_field(vad_address(config), "vad_download_url"@) == Err::<
                Seq<char>,
                Seq<char>,
            >(message)
        },
{
    law_fields_are_required(config.download_url, "download_url"@);
    law_fields_are_required(vad_address(config), "vad_download_url"@);
}

/// The recognition model is missing exactly if it was found nowhere; and that cannot be said where
/// it is not in the configured directory and the installation root cannot be made out.
pub proof fn law_missing_models_were_found_nowhere<F>(
    config: LocalConfigModel<F>,
    survey: AsrSurvey,
)
    ensures
        asr_missing(config, survey) is Err <==> !survey.main_complete && survey.target is Err,
        asr_missing(config, survey) matches Err(message) ==> (survey.target matches Err(error)
            && error@ == message),
        asr_missing(config, survey) matches Ok(missing) ==> missing == !is_found(survey),
{
}

/// What a forecast says, whichever model is missing and whatever is configured: that nothing has to
/// be downloaded exactly if neither model is missing; that something has to be and can be exactly
/// if one is, and each that is missing has an address; and an error otherwise, or where it cannot
/// be told what is missing.
pub proof fn law_forecasts_are_complete<F>(
    config: LocalConfigModel<F>,
    survey: AsrSurvey,
    vad: bool,
    forecast: HybridAsrResult<bool>,
)
    requires
        answer_model(forecast) == download_forecast(config, survey, Ok(vad)),
        survey.main_complete || survey.target is Ok,
    ensures
        (forecast matches Ok(answer) && !answer) <==> is_found(survey) && !vad,
        (forecast matches Ok(answer) && answer) <==> {
            &&& !is_found(survey) || vad
            &&& !is_found(survey) ==> has_address(config.download_url)
            &&& vad ==> has_address(vad_address(config))
        },
{
    law_missing_models_were_found_nowhere(config, survey);
    law_only_missing_models_need_an_address(config, !is_found(survey), vad);
}

/// A forecast fails with the error that kept it from knowing what is missing.
pub proof fn law_forecasts_need_to_know<F>(
    config: LocalConfigModel<F>,
    survey: AsrSurvey,
    vad: HybridAsrResult<bool>,
    forecast: HybridAsrResult<bool>,
)
    requires
        answer_model(forecast) == download_forecast(config, survey, answer_model(vad)),
    ensures
        !survey.main_complete && survey.target is Err ==> (forecast matches Err(error) && error@
            == survey.target->Err_0@),
        (survey.main_complete || survey.target is Ok) && vad is Err ==> (forecast matches Err(error)
            && error@ == vad->Err_0@),
{
    law_missing_models_were_found_nowhere(config, survey);
}

/// The directory that a recognition model is taken from is one that is complete: the configured
/// one before the one below the root, and that one before the root.
pub proof fn law_complete_directories_are_taken(configured: Seq<char>, found: RootFindings)
    ensures
        model_dir_in(configured, found) is None <==> !found.configured_complete
            && !found.child_complete && !found.root_complete,
        found.configured_complete ==> model_dir_in(configured, found) == Some(configured),
        !found.configured_complete && found.child_complete ==> model_dir_in(configured, found)
            == Some(found.child_dir@),
        !found.configured_complete && !found.child_complete && found.root_complete
            ==> model_dir_in(configured, found) == Some(found.root_dir@),
{
}

/// What is already installed: a model in a root that exists, with the root, and with nothing of
/// the configuration changed but the directory of the model.
pub proof fn law_installed_models_are_taken<F>(config: LocalConfigModel<F>, survey: AsrSurvey)
    ensures
        existing_assets(config, survey) is Err <==> survey.target is Err,
        existing_assets(config, survey) matches Ok(Some(existing)) ==> {
            &&& survey.target matches Ok(target) && target.exists && existing.install_root == Some(
                target.root,
            )
            &&& !existing.downloaded_anything
            &&& existing.resolved.asr_model_dir == (if survey.target->Ok_0.found.configured_complete {
                config.asr_model_dir
            } else if survey.target->Ok_0.found.child_complete {
                survey.target->Ok_0.found.child_dir@
            } else {
                survey.target->Ok_0.found.root_dir@
            })
            &&& existing.resolved == (LocalConfigModel {
                asr_model_dir: existing.resolved.asr_model_dir,
                ..config
            })
        },
        existing_assets(config, survey) matches Ok(None) ==> (survey.target matches Ok(target) && (
        !target.exists || !target.found.configured_complete && !target.found.child_complete
            && !target.found.root_complete)),
{
}

/// The configuration of voice activity detection: the address and the installation root are its
/// own, or those of the recognition model where it has none, and the rest is what was configured
/// or is fixed.
pub proof fn law_voice_activity_is_configured<F>(config: LocalConfigModel<F>, vad: VadConfig<F>)
    requires
        is_vad_config(config, vad),
    ensures
        config.vad_download_url is Some ==> text_model(vad.download_url) == config.vad_download_url,
        config.vad_download_url is None ==> text_model(vad.download_url) == config.download_url,
        config.vad_target_dir is Some ==> text_model(vad.target_dir) == config.vad_target_dir,
        config.vad_target_dir is None ==> text_model(vad.target_dir) == config.target_dir,
        vad.model_path.dir == path_of(config.vad_model_dir),
        vad.model_path.file_name@ == "silero_vad_v5.onnx"@,
        vad.auto_download == config.auto_download,
        vad.sample_rate == config.sample_rate,
        vad.provider@ == config.provider,
        vad.threshold == config.vad_threshold,
        vad.min_silence_duration == config.min_silence_duration,
        vad.min_speech_duration == config.min_speech_duration,
        vad.window_size == 512,
        vad.max_speech_seconds == 0,
        vad.max_buffer_seconds == 60,
        vad.num_threads == 1,
{
}

/// What subscribers hear of an installer's event: that a model is being downloaded, or that it has
/// failed, with everything that the installer told of it; of other events they hear nothing.
pub proof fn law_installer_events_are_passed_on(
    hub: HubModel,
    event: DownloadEvent,
    at: SystemTime,
)
    ensures
        event_told(event, at) is Some <==> event.phase == DownloadPhase::BundleDownloading
            || event.phase == DownloadPhase::PackagePreparing || event.phase
            == DownloadPhase::Failed,
        event_told(event, at) matches Some(told) ==> {
            &&& told.resource_kind == ModelResourceKind::Vad <==> event.resource_kind
                == InstallerResourceKind::Vad
            &&& told.phase == if event.phase == DownloadPhase::Failed {
                ModelLifecyclePhase::Failed
            } else {
                ModelLifecyclePhase::Downloading
            }
            &&& told.downloaded_bytes == event.downloaded_bytes
            &&& told.total_bytes == event.total_bytes
            &&& told.target_dir == event.target_dir
            &&& told.message == event.message
            &&& told.timestamp == at
            &&& hub_after_download_event(hub, event, at) == hub.emitted(AsrEvent::Model(told))
        },
        event_told(event, at) is None ==> hub_after_download_event(hub, event, at) == hub,
{
}

/// A failure is remembered for the model that it is of, and for no other.
pub proof fn law_failures_count_for_their_model(tracker: FailureTracker, event: DownloadEvent)
    ensures
        tracker.after(event).asr == (tracker.asr || event.phase == DownloadPhase::Failed
            && event.resource_kind != InstallerResourceKind::Vad),
        tracker.after(event).vad == (tracker.vad || event.phase == DownloadPhase::Failed
            && event.resource_kind == InstallerResourceKind::Vad),
{
}

/// A notice goes out with the model, the phase, the directory and the words that it has.
pub proof fn law_notices_go_out_as_they_are(notice: ModelNotice, at: SystemTime)
    ensures
        notice_event(notice, at) matches AsrEvent::Model(told) && {
            &&& told.resource_kind == notice.resource_kind
            &&& told.phase == notice.phase
            &&& told.target_dir == notice.target_dir
            &&& told.message == notice.message
            &&& told.timestamp == at
            &&& told.downloaded_bytes is None
            &&& told.total_bytes is None
        },
{
}

} // verus!
