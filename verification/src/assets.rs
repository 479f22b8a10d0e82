//! The models of local recognition: what is there, what is missing, and what subscribers hear of
//! it.

pub mod cause_laws;
pub mod failure_laws;
pub mod forecast_laws;
pub mod laws;
pub mod outcome_laws;
pub mod preparation;
pub mod request_laws;
pub mod result_laws;

use std::path::PathBuf;
use std::time::SystemTime;

use vstd::prelude::*;

use crate::config::{
    AssetPath, LocalAsrConfig, LocalConfigModel, ASR_CHANNEL_QUEUE_MAX_SECONDS,
    ASR_MODEL_FILE_NAME, ASR_TOKENS_FILE_NAME, VAD_MODEL_FILE_NAME,
};
use crate::error::{HybridAsrError, HybridAsrResult};
use crate::event::{
    AsrEvent, EventHub, HubModel, ModelLifecycleEvent, ModelLifecyclePhase, ModelResourceKind,
};
use crate::paths::path_of;
use crate::text::{text_model, trim, trimmed};

verus! {

/// The outcome of preparing the models of local recognition.
///
/// `install_root` is where the recognition model was installed.
#[derive(Debug)]
pub struct PreparedLocalAsrAssets<F> {
    pub resolved_config: LocalAsrConfig<F>,
    pub downloaded_anything: bool,
    pub install_root: Option<PathBuf>,
}

impl<F: Copy> Clone for PreparedLocalAsrAssets<F> {
    fn clone(&self) -> (copy: Self)
        ensures
            copy == *self,
    {
        PreparedLocalAsrAssets {
            resolved_config: self.resolved_config.clone(),
            downloaded_anything: self.downloaded_anything,
            install_root: self.install_root.clone(),
        }
    }
}

/// The outcome of preparing the models of local recognition, as data.
#[verifier::ext_equal]
pub struct PreparedModel<F> {
    pub resolved: LocalConfigModel<F>,
    pub downloaded_anything: bool,
    pub install_root: Option<PathBuf>,
}

impl<F> View for PreparedLocalAsrAssets<F> {
    type V = PreparedModel<F>;

    open spec fn view(&self) -> PreparedModel<F> {
        PreparedModel {
            resolved: self.resolved_config@,
            downloaded_anything: self.downloaded_anything,
            install_root: self.install_root,
        }
    }
}

/// What was found where a recognition model may be: in the configured directory, in the directory
/// of the model below an installation root, and in that root itself. A directory is complete if
/// both files of the model are in it.
#[derive(Debug)]
pub struct RootFindings {
    pub configured_complete: bool,
    pub child_dir: String,
    pub child_complete: bool,
    pub root_dir: String,
    pub root_complete: bool,
}

/// What was found at the installation root that a configuration names.
#[derive(Debug)]
pub struct TargetFindings {
    pub root: PathBuf,
    pub exists: bool,
    pub found: RootFindings,
}

/// Everything that was found of a recognition model.
///
/// `main_complete` tells of the configured directory; `target` is an error where the installation
/// root could not be made out.
#[derive(Debug)]
pub struct AsrSurvey {
    pub main_complete: bool,
    pub target: HybridAsrResult<TargetFindings>,
}

/// The directory to take the recognition model from: the configured one before the one below the
/// root, and that one before the root.
pub open spec fn model_dir_in(configured: Seq<char>, found: RootFindings) -> Option<Seq<char>> {
    if found.configured_complete {
        Some(configured)
    } else if found.child_complete {
        Some(found.child_dir@)
    } else if found.root_complete {
        Some(found.root_dir@)
    } else {
        None
    }
}

/// The directory to take the recognition model from, if it is in any.
pub fn try_resolve_existing_asr_model_dir<F>(
    found: &RootFindings,
    config: &LocalAsrConfig<F>,
) -> (dir: Option<String>)
    ensures
        text_model(dir) == model_dir_in(config.asr_model_dir@, *found),
{
    if found.configured_complete {
        Some(config.asr_model_dir.clone())
    } else if found.child_complete {
        Some(found.child_dir.clone())
    } else if found.root_complete {
        Some(found.root_dir.clone())
    } else {
        None
    }
}

/// What is said where an installation lacks the files of the model.
pub open spec fn incomplete_installation() -> Seq<char> {
    "安装目录中缺少 "@ + ASR_MODEL_FILE_NAME@ + " 或 "@ + ASR_TOKENS_FILE_NAME@
}

/// The directory of a recognition model that has just been installed.
pub fn resolve_installed_asr_model_dir<F>(
    found: &RootFindings,
    config: &LocalAsrConfig<F>,
) -> (dir: HybridAsrResult<String>)
    ensures
        match model_dir_in(config.asr_model_dir@, *found) {
            Some(text) => dir matches Ok(found_dir) && found_dir@ == text,
            None => dir matches Err(error) && error@ == incomplete_installation(),
        },
{
    match try_resolve_existing_asr_model_dir(found, config) {
        Some(dir) => Ok(dir),
        None => {
            let mut message: String = "安装目录中缺少 ".to_owned();
            message.append(ASR_MODEL_FILE_NAME);
            message.append(" 或 ");
            message.append(ASR_TOKENS_FILE_NAME);
            Err(HybridAsrError::new(message))
        },
    }
}

/// The models that are already installed, if a survey found the recognition model. Nothing is
/// downloaded for them.
pub open spec fn existing_assets<F>(config: LocalConfigModel<F>, survey: AsrSurvey) -> Result<
    Option<PreparedModel<F>>,
    Seq<char>,
> {
    match survey.target {
        Err(error) => Err(error@),
        Ok(target) => if !target.exists {
            Ok(None)
        } else {
            match model_dir_in(config.asr_model_dir, target.found) {
                None => Ok(None),
                Some(dir) => Ok(
                    Some(
                        PreparedModel {
                            resolved: LocalConfigModel { asr_model_dir: dir, ..config },
                            downloaded_anything: false,
                            install_root: Some(target.root),
                        },
                    ),
                ),
            }
        },
    }
}

/// A result as data.
pub open spec fn prepared_model<F>(outcome: HybridAsrResult<PreparedLocalAsrAssets<F>>) -> Result<
    PreparedModel<F>,
    Seq<char>,
> {
    match outcome {
        Ok(prepared) => Ok(prepared@),
        Err(error) => Err(error@),
    }
}

/// The models that are already installed, if a survey found the recognition model.
pub fn try_resolve_existing_asr_assets<F: Copy>(
    config: &LocalAsrConfig<F>,
    survey: &AsrSurvey,
) -> (existing: HybridAsrResult<Option<PreparedLocalAsrAssets<F>>>)
    ensures
        existing_assets(config@, *survey) == (match existing {
            Ok(Some(prepared)) => Ok(Some(prepared@)),
            Ok(None) => Ok(None),
            Err(error) => Err(error@),
        }),
{
    match &survey.target {
        Err(error) => Err(error.clone()),
        Ok(target) => {
            if !target.exists {
                return Ok(None);
            }
            match try_resolve_existing_asr_model_dir(&target.found, config) {
                None => Ok(None),
                Some(dir) => {
                    let mut resolved_config: LocalAsrConfig<F> = config.clone();
                    resolved_config.asr_model_dir = dir;
                    Ok(
                        Some(
                            PreparedLocalAsrAssets {
                                resolved_config,
                                downloaded_anything: false,
                                install_root: Some(target.root.clone()),
                            },
                        ),
                    )
                },
            }
        },
    }
}

/// Whether the recognition model is nowhere to be found. Where the configured directory has it,
/// the installation root does not matter.
pub open spec fn asr_missing<F>(config: LocalConfigModel<F>, survey: AsrSurvey) -> Result<
    bool,
    Seq<char>,
> {
    if survey.main_complete {
        Ok(false)
    } else {
        match existing_assets(config, survey) {
            Err(message) => Err(message),
            Ok(existing) => Ok(existing is None),
        }
    }
}

/// An answer as data.
pub open spec fn answer_model(answer: HybridAsrResult<bool>) -> Result<bool, Seq<char>> {
    match answer {
        Ok(value) => Ok(value),
        Err(error) => Err(error@),
    }
}

/// Whether the recognition model is nowhere to be found.
pub fn is_asr_missing<F: Copy>(config: &LocalAsrConfig<F>, survey: &AsrSurvey) -> (missing:
    HybridAsrResult<bool>)
    ensures
        answer_model(missing) == asr_missing(config@, *survey),
{
    if survey.main_complete {
        return Ok(false);
    }
    match try_resolve_existing_asr_assets(config, survey) {
        Err(error) => Err(error),
        Ok(existing) => Ok(existing.is_none()),
    }
}

/// A field without which nothing can be downloaded: its text without the white space around it,
/// or the message that it is missing or empty.
pub open spec fn required_field(value: Option<Seq<char>>, field: Seq<char>) -> Result<
    Seq<char>,
    Seq<char>,
> {
    match value {
        None => Err("本地 ASR 模型缺失，且 "@ + field + " 未配置"@),
        Some(text) => if trimmed(text).len() == 0 {
            Err("本地 ASR 模型缺失，且 "@ + field + " 为空"@)
        } else {
            Ok(trimmed(text))
        },
    }
}

/// Takes a field without which nothing can be downloaded.
pub fn require_download_field(value: &Option<String>, field: &str) -> (text: HybridAsrResult<
    String,
>)
    ensures
        required_field(text_model(*value), field@) == (match text {
            Ok(found) => Ok(found@),
            Err(error) => Err(error@),
        }),
{
    let mut message: String = "本地 ASR 模型缺失，且 ".to_owned();
    message.append(field);
    match value {
        None => {
            message.append(" 未配置");
            Err(HybridAsrError::new(message))
        },
        Some(text) => {
            let inner: String = trim(text.as_str());
            if inner.as_str().is_empty() {
                message.append(" 为空");
                Err(HybridAsrError::new(message))
            } else {
                Ok(inner)
            }
        },
    }
}

/// The first of two texts that is there.
pub open spec fn first_of(first: Option<Seq<char>>, second: Option<Seq<char>>) -> Option<Seq<char>> {
    if first is Some {
        first
    } else {
        second
    }
}

fn first_text(first: &Option<String>, second: &Option<String>) -> (text: Option<String>)
    ensures
        text_model(text) == first_of(text_model(*first), text_model(*second)),
{
    if first.is_some() {
        first.clone()
    } else {
        second.clone()
    }
}

/// What stands against downloading what is missing, if anything does. The recognition model is
/// looked at first.
pub open spec fn download_fault<F>(
    config: LocalConfigModel<F>,
    asr_missing: bool,
    vad_missing: bool,
) -> Option<Seq<char>> {
    match required_field(config.download_url, "download_url"@) {
        Err(message) if asr_missing => Some(message),
        _ => match required_field(
            first_of(config.vad_download_url, config.download_url),
            "vad_download_url"@,
        ) {
            Err(message) if vad_missing => Some(message),
            _ => None,
        },
    }
}

/// Looks at the fields that a download of what is missing would need.
pub fn check_download_fields<F>(
    config: &LocalAsrConfig<F>,
    asr_missing: bool,
    vad_missing: bool,
) -> (checked: HybridAsrResult<()>)
    ensures
        match download_fault(config@, asr_missing, vad_missing) {
            None => checked is Ok,
            Some(message) => checked matches Err(error) && error@ == message,
        },
{
    if asr_missing {
        match require_download_field(&config.download_url, "download_url") {
            Err(error) => return Err(error),
            Ok(_) => {},
        }
    }
    if vad_missing {
        let url: Option<String> = first_text(&config.vad_download_url, &config.download_url);
        match require_download_field(&url, "vad_download_url") {
            Err(error) => return Err(error),
            Ok(_) => {},
        }
    }
    Ok(())
}

/// Whether preparing the models would download anything, or why that cannot be said or done.
pub open spec fn download_forecast<F>(
    config: LocalConfigModel<F>,
    survey: AsrSurvey,
    vad_missing: Result<bool, Seq<char>>,
) -> Result<bool, Seq<char>> {
    match (asr_missing(config, survey), vad_missing) {
        (Err(message), _) => Err(message),
        (Ok(_), Err(message)) => Err(message),
        (Ok(asr), Ok(vad)) => match download_fault(config, asr, vad) {
            Some(message) => Err(message),
            None => Ok(asr || vad),
        },
    }
}

/// Foretells whether preparing the models would download anything: `false` if both are there,
/// `true` if one is missing and can be downloaded, and an error if one is missing and the
/// configuration does not say from where.
pub fn inspect_local_asr_assets_download<F: Copy>(
    config: &LocalAsrConfig<F>,
    survey: &AsrSurvey,
    vad_missing: HybridAsrResult<bool>,
) -> (forecast: HybridAsrResult<bool>)
    ensures
        answer_model(forecast) == download_forecast(config@, *survey, answer_model(vad_missing)),
{
    match (is_asr_missing(config, survey), vad_missing) {
        (Err(error), _) => Err(error),
        (Ok(_), Err(error)) => Err(error),
        (Ok(asr), Ok(vad)) => match check_download_fields(config, asr, vad) {
            Err(error) => Err(error),
            Ok(_) => Ok(asr || vad),
        },
    }
}

/// The configuration of voice activity detection.
///
/// `F` is the number type of durations and thresholds.
#[derive(Debug)]
pub struct VadConfig<F> {
    pub model_path: AssetPath,
    pub download_url: Option<String>,
    pub target_dir: Option<String>,
    pub auto_download: bool,
    pub sample_rate: i32,
    pub provider: String,
    pub threshold: F,
    pub min_silence_duration: F,
    pub min_speech_duration: F,
    pub window_size: i32,
    pub max_speech_seconds: usize,
    pub max_buffer_seconds: usize,
    pub num_threads: i32,
}

/// Whether `vad` is the configuration of voice activity detection that belongs to `config`: what
/// is not configured for it is taken from the recognition model, and its buffer holds as much as
/// may wait in front of an engine.
pub open spec fn is_vad_config<F>(config: LocalConfigModel<F>, vad: VadConfig<F>) -> bool {
    &&& vad.model_path.dir == path_of(config.vad_model_dir)
    &&& vad.model_path.file_name@ == VAD_MODEL_FILE_NAME@
    &&& text_model(vad.download_url) == first_of(config.vad_download_url, config.download_url)
    &&& text_model(vad.target_dir) == first_of(config.vad_target_dir, config.target_dir)
    &&& vad.auto_download == config.auto_download
    &&& vad.sample_rate == config.sample_rate
    &&& vad.provider@ == config.provider
    &&& vad.threshold == config.vad_threshold
    &&& vad.min_silence_duration == config.min_silence_duration
    &&& vad.min_speech_duration == config.min_speech_duration
    &&& vad.window_size == 512
    &&& vad.max_speech_seconds == 0
    &&& vad.max_buffer_seconds == ASR_CHANNEL_QUEUE_MAX_SECONDS
    &&& vad.num_threads == 1
}

/// The configuration of voice activity detection that belongs to `options`.
pub fn build_vad_config<F: Copy>(options: &LocalAsrConfig<F>) -> (vad: VadConfig<F>)
    ensures
        is_vad_config(options@, vad),
{
    VadConfig {
        model_path: options.vad_model_path(),
        download_url: first_text(&options.vad_download_url, &options.download_url),
        target_dir: first_text(&options.vad_target_dir, &options.target_dir),
        auto_download: options.auto_download,
        sample_rate: options.sample_rate,
        provider: options.provider.clone(),
        threshold: options.vad_threshold,
        min_silence_duration: options.min_silence_duration,
        min_speech_duration: options.min_speech_duration,
        window_size: 512,
        max_speech_seconds: 0,
        max_buffer_seconds: ASR_CHANNEL_QUEUE_MAX_SECONDS,
        num_threads: 1,
    }
}

/// What an installer installs.
#[derive(Debug, Clone, Copy, PartialEq, Eq, Structural)]
pub enum InstallerResourceKind {
    Asr,
    Tts,
    Vad,
}

/// How far an installer is.
#[derive(Debug, Clone, Copy, PartialEq, Eq, Structural)]
pub enum DownloadPhase {
    BundleDownloading,
    PackagePreparing,
    Validating,
    Extracting,
    Completed,
    Failed,
}

/// What an installer tells of its work.
#[derive(Debug)]
pub struct DownloadEvent {
    pub resource_kind: InstallerResourceKind,
    pub phase: DownloadPhase,
    pub downloaded_bytes: Option<u64>,
    pub total_bytes: Option<u64>,
    pub target_dir: PathBuf,
    pub message: String,
}

/// The resource that an installer works on. Speech synthesis counts as recognition.
pub open spec fn resource_of(kind: InstallerResourceKind) -> ModelResourceKind {
    match kind {
        InstallerResourceKind::Asr | InstallerResourceKind::Tts => ModelResourceKind::Asr,
        InstallerResourceKind::Vad => ModelResourceKind::Vad,
    }
}

/// The resource that an installer works on.
pub fn map_resource_kind(kind: InstallerResourceKind) -> (resource: ModelResourceKind)
    ensures
        resource == resource_of(kind),
{
    match kind {
        InstallerResourceKind::Asr => ModelResourceKind::Asr,
        InstallerResourceKind::Tts => ModelResourceKind::Asr,
        InstallerResourceKind::Vad => ModelResourceKind::Vad,
    }
}

/// The phase that subscribers hear of, if they hear of it at all.
pub open spec fn phase_told(phase: DownloadPhase) -> Option<ModelLifecyclePhase> {
    match phase {
        DownloadPhase::BundleDownloading | DownloadPhase::PackagePreparing => Some(
            ModelLifecyclePhase::Downloading,
        ),
        DownloadPhase::Failed => Some(ModelLifecyclePhase::Failed),
        DownloadPhase::Completed | DownloadPhase::Validating | DownloadPhase::Extracting => None,
    }
}

/// What subscribers hear of an installer's event.
pub open spec fn event_told(event: DownloadEvent, at: SystemTime) -> Option<ModelLifecycleEvent> {
    match phase_told(event.phase) {
        None => None,
        Some(phase) => Some(
            ModelLifecycleEvent {
                resource_kind: resource_of(event.resource_kind),
                phase,
                downloaded_bytes: event.downloaded_bytes,
                total_bytes: event.total_bytes,
                target_dir: event.target_dir,
                message: event.message,
                timestamp: at,
            },
        ),
    }
}

/// What subscribers hear of an installer's event: of downloading and of failure, and of nothing
/// else.
pub fn map_download_event(event: &DownloadEvent, at: SystemTime) -> (told: Option<
    ModelLifecycleEvent,
>)
    ensures
        told == event_told(*event, at),
{
    let phase: ModelLifecyclePhase = match event.phase {
        DownloadPhase::BundleDownloading => ModelLifecyclePhase::Downloading,
        DownloadPhase::PackagePreparing => ModelLifecyclePhase::Downloading,
        DownloadPhase::Failed => ModelLifecyclePhase::Failed,
        DownloadPhase::Completed => return None,
        DownloadPhase::Validating => return None,
        DownloadPhase::Extracting => return None,
    };
    Some(
        ModelLifecycleEvent {
            resource_kind: map_resource_kind(event.resource_kind),
            phase,
            downloaded_bytes: event.downloaded_bytes,
            total_bytes: event.total_bytes,
            target_dir: event.target_dir.clone(),
            message: event.message.clone(),
            timestamp: at,
        },
    )
}

/// The hub after an installer's event.
pub open spec fn hub_after_download_event(
    hub: HubModel,
    event: DownloadEvent,
    at: SystemTime,
) -> HubModel {
    match event_told(event, at) {
        None => hub,
        Some(told) => hub.emitted(AsrEvent::Model(told)),
    }
}

/// Passes an installer's event on to subscribers.
pub fn observe_model_download(hub: &mut EventHub, event: &DownloadEvent, at: SystemTime)
    ensures
        final(hub)@ == hub_after_download_event(old(hub)@, *event, at),
{
    match map_download_event(event, at) {
        None => {},
        Some(told) => hub.emit(AsrEvent::Model(told)),
    }
}

/// Which failures an installer has told of by itself.
#[derive(Debug, Clone, Copy, PartialEq, Eq, Structural)]
pub struct FailureTracker {
    pub asr: bool,
    pub vad: bool,
}

impl FailureTracker {
    /// The tracker after an installer's event.
    pub open spec fn after(self, event: DownloadEvent) -> FailureTracker {
        if event.phase != DownloadPhase::Failed {
            self
        } else if resource_of(event.resource_kind) == ModelResourceKind::Asr {
            FailureTracker { asr: true, ..self }
        } else {
            FailureTracker { vad: true, ..self }
        }
    }

    /// A tracker that has heard of no failure.
    pub fn new() -> (tracker: Self)
        ensures
            tracker == (FailureTracker { asr: false, vad: false }),
    {
        FailureTracker { asr: false, vad: false }
    }

    /// Takes note of an installer's event.
    pub fn observe(&mut self, event: &DownloadEvent)
        ensures
            *final(self) == old(self).after(*event),
    {
        if event.phase == DownloadPhase::Failed {
            match event.resource_kind {
                InstallerResourceKind::Asr => {
                    self.asr = true;
                },
                InstallerResourceKind::Tts => {
                    self.asr = true;
                },
                InstallerResourceKind::Vad => {
                    self.vad = true;
                },
            }
        }
    }
}

/// One stage of a model resource that subscribers are to hear of.
#[derive(Debug)]
pub struct ModelNotice {
    pub resource_kind: ModelResourceKind,
    pub phase: ModelLifecyclePhase,
    pub target_dir: PathBuf,
    pub message: String,
}

/// A notice as an event.
pub open spec fn notice_event(notice: ModelNotice, at: SystemTime) -> AsrEvent {
    AsrEvent::Model(
        ModelLifecycleEvent {
            resource_kind: notice.resource_kind,
            phase: notice.phase,
            downloaded_bytes: None,
            total_bytes: None,
            target_dir: notice.target_dir,
            message: notice.message,
            timestamp: at,
        },
    )
}

/// Tells subscribers of a stage of a model resource.
pub fn emit_model_lifecycle_event(hub: &mut EventHub, notice: ModelNotice, at: SystemTime)
    ensures
        final(hub)@ == old(hub)@.emitted(notice_event(notice, at)),
{
    hub.emit(
        AsrEvent::Model(
            ModelLifecycleEvent {
                resource_kind: notice.resource_kind,
                phase: notice.phase,
                downloaded_bytes: None,
                total_bytes: None,
                target_dir: notice.target_dir,
                message: notice.message,
                timestamp: at,
            },
        ),
    );
}

} // verus!
