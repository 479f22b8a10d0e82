//! Preparing the models of local recognition, as a machine.
//!
//! The machine says what it wants done (`action`), the caller does it and hands back what came of
//! it (`advance`), until the machine is done and has its outcome.

use std::path::PathBuf;

use vstd::prelude::*;

use crate::assets::{
    asr_missing, build_vad_config, check_download_fields, download_fault, existing_assets,
    first_of, incomplete_installation, is_asr_missing, is_vad_config, model_dir_in,
    prepared_model, require_download_field, required_field, resolve_installed_asr_model_dir,
    try_resolve_existing_asr_assets, AsrSurvey, FailureTracker, InstallerResourceKind,
    ModelNotice, PreparedLocalAsrAssets, PreparedModel, RootFindings, VadConfig,
};
use crate::config::{LocalAsrConfig, LocalConfigModel};
use crate::error::{HybridAsrError, HybridAsrResult};
use crate::event::{ModelLifecyclePhase, ModelResourceKind};
use crate::paths::{
    final_name, is_parent, is_plain, name_or, parent_dir, path_from, path_of, resolve_dir_name,
};
use crate::text::text_model;

verus! {

/// The directory of the recognition model below an installation root, where the configured
/// directory has no name.
pub const DEFAULT_ASR_DIR_NAME: &'static str = "sense-voice-zh-en";

/// The package that an installation belongs to.
pub const PACKAGE_KEY: &'static str = "hybrid-asr";

pub const AUTO_DOWNLOAD_OFF: &'static str =
    "本地 ASR/VAD 模型缺失，且 auto_download=false，请先调用显式下载 API";

pub const ASR_MISSING_MESSAGE: &'static str = "本地 ASR 模型缺失，准备下载或安装，model_dir=";

pub const VAD_MISSING_MESSAGE: &'static str = "本地 VAD 模型缺失，准备下载或安装，model_dir=";

pub const ASR_READY_MESSAGE: &'static str = "本地 SenseVoice 模型已经准备完成";

pub const VAD_READY_MESSAGE: &'static str = "本地 VAD 模型已经准备完成";

/// What the machine waits for.
#[derive(Clone, Copy, Debug, PartialEq, Eq, Structural)]
pub enum AssetStep {
    /// The survey by which an explicit download learns whether the recognition model is missing.
    ForecastAsr,
    /// The same for the voice activity model.
    ForecastVad,
    SurveyAsr,
    CheckVad,
    /// Nothing is missing: where the recognition model is.
    SurveyReady,
    /// Nothing is missing: where the voice activity model is.
    LocateVad,
    AsrMissingDir,
    AsrMissingNotice,
    VadMissingDir,
    VadMissingNotice,
    /// Whether the recognition model must be installed.
    SurveyMain,
    Install,
    InspectInstallation,
    AsrFailedDir,
    AsrFailedNotice,
    PrepareVad,
    VadFailedDir,
    VadFailedNotice,
    /// Where the recognition model is, after the other one was prepared.
    SurveyFinal,
    AsrReadyNotice,
    VadReadyNotice,
    /// The notice that an explicit download owes for a recognition model that was there.
    AsrConfirmNotice,
    /// The same for the voice activity model.
    VadConfirmNotice,
    Done,
}

/// What to look at: the model in `model_dir`, below the root that `target_dir` stands for in
/// `child_name`, and in that root.
#[derive(Debug)]
pub struct SurveyRequest {
    pub model_dir: String,
    pub target_dir: Option<String>,
    pub child_name: String,
}

/// What to look at after an installation: the model in `model_dir`, below `root` in `child_name`,
/// and in `root`.
#[derive(Debug)]
pub struct InspectionRequest {
    pub root: PathBuf,
    pub model_dir: String,
    pub child_name: String,
}

/// What to install, from where and to where.
#[derive(Debug)]
pub struct InstallRequest {
    pub resource_kind: InstallerResourceKind,
    pub download_url: String,
    pub target_dir: Option<String>,
    pub package_key: String,
}

/// A package that was installed.
#[derive(Debug)]
pub struct InstalledPackage {
    pub install_root: PathBuf,
    pub downloaded_anything: bool,
}

/// A voice activity model that was prepared.
#[derive(Debug)]
pub struct PreparedVad {
    pub model_path: String,
    pub downloaded_anything: bool,
    pub install_root: Option<PathBuf>,
}

/// What the machine wants done.
#[derive(Debug)]
pub enum AssetAction<F> {
    Survey(SurveyRequest),
    CheckVad(VadConfig<F>),
    /// Make out the directory that a configured target stands for.
    ResolveTarget(Option<String>),
    Publish(ModelNotice),
    Install(InstallRequest),
    Inspect(InspectionRequest),
    /// Make the voice activity model ready.
    PrepareVad(VadConfig<F>),
    /// Say where the voice activity model is, which is there. Nothing is to be downloaded, and no
    /// observer is told of it.
    LocateVad(VadConfig<F>),
    Finish,
}

/// What came of it.
#[derive(Debug)]
pub enum AssetReply {
    Surveyed(AsrSurvey),
    VadChecked(HybridAsrResult<bool>),
    Resolved(HybridAsrResult<PathBuf>),
    Published,
    Installed(HybridAsrResult<InstalledPackage>, FailureTracker),
    Inspected(RootFindings),
    VadPrepared(HybridAsrResult<PreparedVad>, FailureTracker),
    /// The path of the voice activity model.
    VadLocated(HybridAsrResult<String>),
}

/// The state of the machine, as data.
///
/// `dir` is the directory of the notice that is about to go out, `main` the recognition model as
/// it was prepared, `prepared` the outcome as far as it is known, and `error` the message with
/// which the preparation ends, if it fails.
#[verifier::ext_equal]
pub struct AssetModel<F> {
    pub config: LocalConfigModel<F>,
    pub explicit: bool,
    pub step: AssetStep,
    pub forecast_asr: bool,
    pub forecast_vad: bool,
    pub asr_missing: bool,
    pub vad_missing: bool,
    pub dir: Option<PathBuf>,
    pub download_url: Seq<char>,
    pub failures: FailureTracker,
    pub install_root: Option<PathBuf>,
    pub install_downloaded: bool,
    pub main: PreparedModel<F>,
    pub vad_root: Option<PathBuf>,
    pub prepared: PreparedModel<F>,
    pub error: Option<Seq<char>>,
}

/// The directory name below an installation root under which a model of `model_dir` is looked
/// for. Of a path that platforms read differently nothing is said.
pub open spec fn is_child_name(model_dir: Seq<char>, child_name: Seq<char>) -> bool {
    is_plain(model_dir) ==> child_name == name_or(final_name(model_dir), DEFAULT_ASR_DIR_NAME@)
}

/// The directory of the voice activity model: the one that its path lies in, or else the
/// configured one.
pub open spec fn dir_or(parent: Option<Seq<char>>, configured: Seq<char>) -> Seq<char> {
    match parent {
        Some(dir) => dir,
        None => configured,
    }
}

/// The configuration under which nothing is downloaded.
pub open spec fn without_download<F>(config: LocalConfigModel<F>) -> LocalConfigModel<F> {
    LocalConfigModel { auto_download: false, ..config }
}

impl<F> AssetModel<F> {
    /// A preparation that has not begun. An explicit one downloads whatever is configured.
    pub open spec fn fresh(config: LocalConfigModel<F>, explicit: bool) -> AssetModel<F> {
        let config = LocalConfigModel { auto_download: explicit || config.auto_download, ..config };
        let untouched = PreparedModel {
            resolved: config,
            downloaded_anything: false,
            install_root: None,
        };
        AssetModel {
            config,
            explicit,
            step: if explicit {
                AssetStep::ForecastAsr
            } else {
                AssetStep::SurveyAsr
            },
            forecast_asr: false,
            forecast_vad: false,
            asr_missing: false,
            vad_missing: false,
            dir: None,
            download_url: Seq::empty(),
            failures: FailureTracker { asr: false, vad: false },
            install_root: None,
            install_downloaded: false,
            main: untouched,
            vad_root: None,
            prepared: untouched,
            error: None,
        }
    }

    pub open spec fn at(self, step: AssetStep) -> AssetModel<F> {
        AssetModel { step, ..self }
    }

    /// The preparation has failed.
    pub open spec fn failed(self, message: Seq<char>) -> AssetModel<F> {
        AssetModel { step: AssetStep::Done, error: Some(message), ..self }
    }

    /// What is missing is known: subscribers hear of it, the recognition model first.
    pub open spec fn checked(self) -> AssetModel<F> {
        if self.asr_missing {
            self.at(AssetStep::AsrMissingDir)
        } else if self.vad_missing {
            self.announce_vad()
        } else {
            self.at(AssetStep::SurveyReady)
        }
    }

    pub open spec fn announce_vad(self) -> AssetModel<F> {
        if self.vad_missing {
            self.at(AssetStep::VadMissingDir)
        } else {
            self.decide()
        }
    }

    /// What is said where something is missing and may not be downloaded, together with what else
    /// stands against a download.
    pub open spec fn refusal(self) -> Seq<char> {
        match download_fault(self.config, self.asr_missing, self.vad_missing) {
            None => AUTO_DOWNLOAD_OFF@,
            Some(message) => AUTO_DOWNLOAD_OFF@ + "；"@ + message,
        }
    }

    /// Goes on to the download, if that is allowed.
    pub open spec fn decide(self) -> AssetModel<F> {
        if self.config.auto_download {
            self.at(AssetStep::SurveyMain)
        } else {
            self.failed(self.refusal())
        }
    }

    /// The recognition model is there.
    pub open spec fn main_ready(self, main: PreparedModel<F>) -> AssetModel<F> {
        AssetModel { step: AssetStep::PrepareVad, main, ..self }
    }

    /// The recognition model could not be prepared. Subscribers hear of it, unless it was not
    /// missing before or the installer has told them already.
    pub open spec fn main_failed(self, message: Seq<char>) -> AssetModel<F> {
        if self.asr_missing && !self.failures.asr {
            AssetModel { step: AssetStep::AsrFailedDir, error: Some(message), ..self }
        } else {
            self.failed(message)
        }
    }

    /// The voice activity model could not be prepared.
    pub open spec fn vad_failed(self, message: Seq<char>) -> AssetModel<F> {
        if self.vad_missing && !self.failures.vad {
            AssetModel { step: AssetStep::VadFailedDir, error: Some(message), ..self }
        } else {
            self.failed(message)
        }
    }

    /// Installs the recognition model, unless a survey has found it.
    pub open spec fn surveyed_main(self, survey: AsrSurvey) -> AssetModel<F> {
        if survey.main_complete {
            self.main_ready(
                PreparedModel {
                    resolved: self.config,
                    downloaded_anything: false,
                    install_root: None,
                },
            )
        } else {
            match existing_assets(self.config, survey) {
                Err(message) => self.main_failed(message),
                Ok(Some(existing)) => self.main_ready(existing),
                Ok(None) => match required_field(self.config.download_url, "download_url"@) {
                    Err(message) => self.main_failed(message),
                    Ok(url) => AssetModel {
                        step: AssetStep::Install,
                        download_url: url,
                        ..self
                    },
                },
            }
        }
    }

    /// The recognition model was installed: where is it?
    pub open spec fn inspected(self, found: RootFindings) -> AssetModel<F> {
        match model_dir_in(self.config.asr_model_dir, found) {
            None => self.main_failed(incomplete_installation()),
            Some(dir) => self.main_ready(
                PreparedModel {
                    resolved: LocalConfigModel { asr_model_dir: dir, ..self.config },
                    downloaded_anything: self.install_downloaded,
                    install_root: self.install_root,
                },
            ),
        }
    }

    /// The voice activity model is there.
    pub open spec fn vad_ready(self, vad: PreparedVad, parent: Option<Seq<char>>) -> AssetModel<F> {
        let known = AssetModel {
            vad_root: vad.install_root,
            prepared: PreparedModel {
                resolved: LocalConfigModel {
                    vad_model_dir: dir_or(parent, self.config.vad_model_dir),
                    ..self.main.resolved
                },
                downloaded_anything: self.main.downloaded_anything || vad.downloaded_anything,
                install_root: self.main.install_root,
            },
            ..self
        };
        if self.asr_missing {
            known.at(AssetStep::AsrReadyNotice)
        } else {
            known.at(AssetStep::SurveyFinal)
        }
    }

    /// The recognition model was not missing: the configuration is the one that a last survey
    /// gives.
    pub open spec fn surveyed_final(self, survey: AsrSurvey) -> AssetModel<F> {
        match existing_assets(self.config, survey) {
            Err(message) => self.failed(message),
            Ok(existing) => self.with_resolved(
                match existing {
                    Some(existing) => existing.resolved,
                    None => self.config,
                },
            ).asr_ready_told(),
        }
    }

    /// Takes a configuration as the resolved one, except for the directory of the voice activity
    /// model, which is known already.
    pub open spec fn with_resolved(self, resolved: LocalConfigModel<F>) -> AssetModel<F> {
        AssetModel {
            prepared: PreparedModel {
                resolved: LocalConfigModel {
                    vad_model_dir: self.prepared.resolved.vad_model_dir,
                    ..resolved
                },
                ..self.prepared
            },
            ..self
        }
    }

    pub open spec fn asr_ready_told(self) -> AssetModel<F> {
        if self.vad_missing {
            self.at(AssetStep::VadReadyNotice)
        } else {
            self.confirm()
        }
    }

    /// The models are ready. An explicit download also tells of those that were there before.
    pub open spec fn confirm(self) -> AssetModel<F> {
        if self.explicit && !self.forecast_asr {
            self.at(AssetStep::AsrConfirmNotice)
        } else {
            self.confirm_vad()
        }
    }

    pub open spec fn confirm_vad(self) -> AssetModel<F> {
        if self.explicit && !self.forecast_vad {
            self.at(AssetStep::VadConfirmNotice)
        } else {
            self.at(AssetStep::Done)
        }
    }

    /// Nothing is missing: the configuration is the one that a survey gives, but for the directory
    /// of the voice activity model, which is still to be made out.
    pub open spec fn surveyed_ready(self, survey: AsrSurvey) -> AssetModel<F> {
        match existing_assets(self.config, survey) {
            Err(message) => self.failed(message),
            Ok(existing) => AssetModel {
                step: AssetStep::LocateVad,
                prepared: PreparedModel {
                    resolved: match existing {
                        Some(existing) => existing.resolved,
                        None => self.config,
                    },
                    downloaded_anything: false,
                    install_root: None,
                },
                ..self
            },
        }
    }

    /// Nothing is missing, and the voice activity model is in `parent`, or else where it is
    /// configured.
    pub open spec fn vad_located(self, parent: Option<Seq<char>>) -> AssetModel<F> {
        (AssetModel {
            prepared: PreparedModel {
                resolved: LocalConfigModel {
                    vad_model_dir: dir_or(parent, self.config.vad_model_dir),
                    ..self.prepared.resolved
                },
                ..self.prepared
            },
            ..self
        }).confirm()
    }

    /// The machine after a survey.
    pub open spec fn surveyed(self, survey: AsrSurvey) -> AssetModel<F> {
        match self.step {
            AssetStep::ForecastAsr => match asr_missing(self.config, survey) {
                Err(message) => self.failed(message),
                Ok(missing) => AssetModel {
                    step: AssetStep::ForecastVad,
                    forecast_asr: missing,
                    ..self
                },
            },
            AssetStep::SurveyAsr => match asr_missing(self.config, survey) {
                Err(message) => self.failed(message),
                Ok(missing) => AssetModel {
                    step: AssetStep::CheckVad,
                    asr_missing: missing,
                    ..self
                },
            },
            AssetStep::SurveyReady => self.surveyed_ready(survey),
            AssetStep::SurveyMain => self.surveyed_main(survey),
            AssetStep::SurveyFinal => self.surveyed_final(survey),
            _ => self,
        }
    }

    /// The machine after the answer whether the voice activity model is missing.
    pub open spec fn vad_checked(self, answer: HybridAsrResult<bool>) -> AssetModel<F> {
        match (self.step, answer) {
            (AssetStep::ForecastVad, Ok(missing)) => AssetModel {
                step: AssetStep::SurveyAsr,
                forecast_vad: missing,
                ..self
            },
            (AssetStep::CheckVad, Ok(missing)) => (AssetModel {
                vad_missing: missing,
                ..self
            }).checked(),
            (AssetStep::ForecastVad, Err(error)) => self.failed(error@),
            (AssetStep::CheckVad, Err(error)) => self.failed(error@),
            _ => self,
        }
    }

    /// The step that follows once the directory of a notice is made out.
    pub open spec fn notice_step(self) -> Option<AssetStep> {
        match self.step {
            AssetStep::AsrMissingDir => Some(AssetStep::AsrMissingNotice),
            AssetStep::VadMissingDir => Some(AssetStep::VadMissingNotice),
            AssetStep::AsrFailedDir => Some(AssetStep::AsrFailedNotice),
            AssetStep::VadFailedDir => Some(AssetStep::VadFailedNotice),
            _ => None,
        }
    }

    /// Whether something is about to be announced that may not be downloaded.
    pub open spec fn is_refusing(self) -> bool {
        !self.config.auto_download && (self.step == AssetStep::AsrMissingDir || self.step
            == AssetStep::VadMissingDir)
    }

    /// The machine after the directory of a notice was made out, or was not. Where nothing may be
    /// downloaded anyway, it is the refusal that counts.
    pub open spec fn resolved(self, dir: HybridAsrResult<PathBuf>) -> AssetModel<F> {
        match (self.notice_step(), dir) {
            (None, _) => self,
            (Some(_), Err(error)) => if self.is_refusing() {
                self.decide()
            } else {
                self.failed(error@)
            },
            (Some(step), Ok(dir)) => AssetModel { step, dir: Some(dir), ..self },
        }
    }

    /// The machine after a notice has gone out.
    pub open spec fn published(self) -> AssetModel<F> {
        match self.step {
            AssetStep::AsrMissingNotice => self.announce_vad(),
            AssetStep::VadMissingNotice => self.decide(),
            AssetStep::AsrReadyNotice => self.asr_ready_told(),
            AssetStep::VadReadyNotice => self.confirm(),
            AssetStep::AsrConfirmNotice => self.confirm_vad(),
            AssetStep::AsrFailedNotice
            | AssetStep::VadFailedNotice
            | AssetStep::VadConfirmNotice => self.at(AssetStep::Done),
            _ => self,
        }
    }

    /// The machine after an attempt to install the recognition model.
    pub open spec fn installed(
        self,
        outcome: HybridAsrResult<InstalledPackage>,
        failures: FailureTracker,
    ) -> AssetModel<F> {
        let told = AssetModel { failures, ..self };
        if self.step != AssetStep::Install {
            self
        } else {
            match outcome {
                Err(error) => told.main_failed(error@),
                Ok(package) => AssetModel {
                    step: AssetStep::InspectInstallation,
                    install_root: Some(package.install_root),
                    install_downloaded: package.downloaded_anything,
                    ..told
                },
            }
        }
    }

    /// The machine after an attempt to prepare the voice activity model.
    pub open spec fn vad_prepared(
        self,
        outcome: HybridAsrResult<PreparedVad>,
        failures: FailureTracker,
        parent: Option<Seq<char>>,
    ) -> AssetModel<F> {
        let told = AssetModel { failures, ..self };
        match (self.step, outcome) {
            (AssetStep::PrepareVad, Err(error)) => told.vad_failed(error@),
            (AssetStep::PrepareVad, Ok(vad)) => told.vad_ready(vad, parent),
            _ => self,
        }
    }

    /// The machine after an attempt to locate the voice activity model. It is there: where it
    /// cannot be located, it is taken to be where it is configured.
    pub open spec fn located(
        self,
        path: HybridAsrResult<String>,
        parent: Option<Seq<char>>,
    ) -> AssetModel<F> {
        match (self.step, path) {
            (AssetStep::LocateVad, Ok(_)) => self.vad_located(parent),
            (AssetStep::LocateVad, Err(_)) => self.vad_located(None),
            _ => self,
        }
    }

    /// The machine after a reply. One that answers to something else changes nothing.
    pub open spec fn next(self, reply: AssetReply, parent: Option<Seq<char>>) -> AssetModel<F> {
        match reply {
            AssetReply::Surveyed(survey) => self.surveyed(survey),
            AssetReply::VadChecked(answer) => self.vad_checked(answer),
            AssetReply::Resolved(dir) => self.resolved(dir),
            AssetReply::Published => self.published(),
            AssetReply::Installed(outcome, failures) => self.installed(outcome, failures),
            AssetReply::Inspected(found) => if self.step == AssetStep::InspectInstallation {
                self.inspected(found)
            } else {
                self
            },
            AssetReply::VadPrepared(outcome, failures) => self.vad_prepared(
                outcome,
                failures,
                parent,
            ),
            AssetReply::VadLocated(path) => self.located(path, parent),
        }
    }

    /// Whether `after` is the state to which a reply leads. Where the voice activity model was
    /// prepared or located, its directory is what the platform takes for it.
    pub open spec fn leads_to(self, reply: AssetReply, after: AssetModel<F>) -> bool {
        match (self.step, reply) {
            (AssetStep::PrepareVad, AssetReply::VadPrepared(Ok(vad), _)) => exists|
                parent: Option<Seq<char>>,
            | #[trigger]
                is_parent(vad.model_path@, parent) && after == self.next(reply, parent),
            (AssetStep::LocateVad, AssetReply::VadLocated(Ok(path))) => exists|
                parent: Option<Seq<char>>,
            | #[trigger]
                is_parent(path@, parent) && after == self.next(reply, parent),
            _ => after == self.next(reply, None),
        }
    }

    /// How the preparation ended, once it has.
    pub open spec fn outcome(self) -> Result<PreparedModel<F>, Seq<char>> {
        match self.error {
            Some(message) => Err(message),
            None => Ok(self.prepared),
        }
    }

    /// Whether `request` asks for what a survey looks at.
    pub open spec fn asks_survey(self, request: SurveyRequest) -> bool {
        &&& request.model_dir@ == self.config.asr_model_dir
        &&& text_model(request.target_dir) == self.config.target_dir
        &&& is_child_name(self.config.asr_model_dir, request.child_name@)
    }

    /// The installation root of the voice activity model.
    pub open spec fn vad_target(self) -> Option<Seq<char>> {
        first_of(self.config.vad_target_dir, self.config.target_dir)
    }

    /// The message of a failure.
    pub open spec fn error_text(self) -> Seq<char> {
        match self.error {
            Some(message) => message,
            None => Seq::empty(),
        }
    }

    /// Where a notice is about: the directory that was made out for it.
    pub open spec fn notice_dir(self) -> PathBuf {
        match self.dir {
            Some(dir) => dir,
            None => path_of(Seq::empty()),
        }
    }

    /// Where the recognition model is: its installation root, or else its directory.
    pub open spec fn asr_home(self) -> PathBuf {
        match self.main.install_root {
            Some(root) => root,
            None => path_of(self.prepared.resolved.asr_model_dir),
        }
    }

    /// Where the voice activity model is.
    pub open spec fn vad_home(self) -> PathBuf {
        match self.vad_root {
            Some(root) => root,
            None => path_of(self.prepared.resolved.vad_model_dir),
        }
    }

    /// Whether `notice` says that `kind` has come to `phase`.
    pub open spec fn is_notice(
        notice: ModelNotice,
        kind: ModelResourceKind,
        phase: ModelLifecyclePhase,
        dir: PathBuf,
        message: Seq<char>,
    ) -> bool {
        &&& notice.resource_kind == kind
        &&& notice.phase == phase
        &&& notice.target_dir == dir
        &&& notice.message@ == message
    }

    /// Whether `notice` is the one that goes out at this step.
    pub open spec fn publishes(self, notice: ModelNotice) -> bool {
        match self.step {
            AssetStep::AsrMissingNotice => Self::is_notice(
                notice,
                ModelResourceKind::Asr,
                ModelLifecyclePhase::Missing,
                self.notice_dir(),
                ASR_MISSING_MESSAGE@ + self.config.asr_model_dir,
            ),
            AssetStep::VadMissingNotice => Self::is_notice(
                notice,
                ModelResourceKind::Vad,
                ModelLifecyclePhase::Missing,
                self.notice_dir(),
                VAD_MISSING_MESSAGE@ + self.config.vad_model_dir,
            ),
            AssetStep::AsrFailedNotice => Self::is_notice(
                notice,
                ModelResourceKind::Asr,
                ModelLifecyclePhase::Failed,
                self.notice_dir(),
                self.error_text(),
            ),
            AssetStep::VadFailedNotice => Self::is_notice(
                notice,
                ModelResourceKind::Vad,
                ModelLifecyclePhase::Failed,
                self.notice_dir(),
                self.error_text(),
            ),
            AssetStep::AsrReadyNotice => Self::is_notice(
                notice,
                ModelResourceKind::Asr,
                ModelLifecyclePhase::Downloaded,
                self.asr_home(),
                ASR_READY_MESSAGE@,
            ),
            AssetStep::VadReadyNotice => Self::is_notice(
                notice,
                ModelResourceKind::Vad,
                ModelLifecyclePhase::Downloaded,
                self.vad_home(),
                VAD_READY_MESSAGE@,
            ),
            AssetStep::AsrConfirmNotice => Self::is_notice(
                notice,
                ModelResourceKind::Asr,
                ModelLifecyclePhase::Downloaded,
                path_of(self.prepared.resolved.asr_model_dir),
                ASR_READY_MESSAGE@,
            ),
            AssetStep::VadConfirmNotice => Self::is_notice(
                notice,
                ModelResourceKind::Vad,
                ModelLifecyclePhase::Downloaded,
                path_of(self.prepared.resolved.vad_model_dir),
                VAD_READY_MESSAGE@,
            ),
            _ => false,
        }
    }

    /// Whether `action` is what the machine wants done.
    pub open spec fn wants(self, action: AssetAction<F>) -> bool {
        match self.step {
            AssetStep::ForecastAsr
            | AssetStep::SurveyAsr
            | AssetStep::SurveyReady
            | AssetStep::SurveyMain
            | AssetStep::SurveyFinal => action matches AssetAction::Survey(request)
                && self.asks_survey(request),
            AssetStep::ForecastVad | AssetStep::CheckVad => action matches AssetAction::CheckVad(vad)
                && is_vad_config(self.config, vad),
            AssetStep::AsrMissingDir
            | AssetStep::AsrFailedDir => action matches AssetAction::ResolveTarget(target)
                && text_model(target) == self.config.target_dir,
            AssetStep::VadMissingDir
            | AssetStep::VadFailedDir => action matches AssetAction::ResolveTarget(target)
                && text_model(target) == self.vad_target(),
            AssetStep::Install => action matches AssetAction::Install(request) && {
                &&& request.resource_kind == InstallerResourceKind::Asr
                &&& request.download_url@ == self.download_url
                &&& text_model(request.target_dir) == self.config.target_dir
                &&& request.package_key@ == PACKAGE_KEY@
            },
            AssetStep::InspectInstallation => match self.install_root {
                Some(root) => action matches AssetAction::Inspect(request) && {
                    &&& request.root == root
                    &&& request.model_dir@ == self.config.asr_model_dir
                    &&& is_child_name(self.config.asr_model_dir, request.child_name@)
                },
                None => action == AssetAction::<F>::Finish,
            },
            AssetStep::PrepareVad => action matches AssetAction::PrepareVad(vad) && is_vad_config(
                self.config,
                vad,
            ),
            AssetStep::LocateVad => action matches AssetAction::LocateVad(vad) && is_vad_config(
                without_download(self.config),
                vad,
            ),
            AssetStep::Done => action == AssetAction::<F>::Finish,
            _ => action matches AssetAction::Publish(notice) && self.publishes(notice),
        }
    }
}

/// The preparation of the models of local recognition.
pub struct AssetPreparation<F> {
    config: LocalAsrConfig<F>,
    explicit: bool,
    step: AssetStep,
    forecast_asr: bool,
    forecast_vad: bool,
    asr_missing: bool,
    vad_missing: bool,
    dir: Option<PathBuf>,
    download_url: String,
    failures: FailureTracker,
    install_root: Option<PathBuf>,
    install_downloaded: bool,
    main: PreparedLocalAsrAssets<F>,
    vad_root: Option<PathBuf>,
    prepared: PreparedLocalAsrAssets<F>,
    error: Option<HybridAsrError>,
}

impl<F> View for AssetPreparation<F> {
    type V = AssetModel<F>;

    closed spec fn view(&self) -> AssetModel<F> {
        AssetModel {
            config: self.config@,
            explicit: self.explicit,
            step: self.step,
            forecast_asr: self.forecast_asr,
            forecast_vad: self.forecast_vad,
            asr_missing: self.asr_missing,
            vad_missing: self.vad_missing,
            dir: self.dir,
            download_url: self.download_url@,
            failures: self.failures,
            install_root: self.install_root,
            install_downloaded: self.install_downloaded,
            main: self.main@,
            vad_root: self.vad_root,
            prepared: self.prepared@,
            error: match self.error {
                Some(error) => Some(error@),
                None => None,
            },
        }
    }
}

/// Begins to prepare the models. What is missing is downloaded only if the configuration allows
/// it.
pub fn prepare_local_asr_assets<F: Copy>(config: &LocalAsrConfig<F>) -> (preparation:
    AssetPreparation<F>)
    ensures
        preparation@ == AssetModel::fresh(config@, false),
{
    AssetPreparation::begin(config, false)
}

/// Begins to prepare the models, and downloads what is missing whatever the configuration allows.
pub fn download_local_asr_assets<F: Copy>(config: &LocalAsrConfig<F>) -> (preparation:
    AssetPreparation<F>)
    ensures
        preparation@ == AssetModel::fresh(config@, true),
{
    AssetPreparation::begin(config, true)
}

impl<F: Copy> AssetPreparation<F> {
    fn untouched(config: &LocalAsrConfig<F>) -> (prepared: PreparedLocalAsrAssets<F>)
        ensures
            prepared@ == (PreparedModel {
                resolved: config@,
                downloaded_anything: false,
                install_root: None,
            }),
    {
        PreparedLocalAsrAssets {
            resolved_config: config.clone(),
            downloaded_anything: false,
            install_root: None,
        }
    }

    fn begin(config: &LocalAsrConfig<F>, explicit: bool) -> (preparation: Self)
        ensures
            preparation@ == AssetModel::fresh(config@, explicit),
    {
        let mut config: LocalAsrConfig<F> = config.clone();
        config.auto_download = explicit || config.auto_download;
        let main: PreparedLocalAsrAssets<F> = Self::untouched(&config);
        let prepared: PreparedLocalAsrAssets<F> = Self::untouched(&config);
        AssetPreparation {
            config,
            explicit,
            step: if explicit {
                AssetStep::ForecastAsr
            } else {
                AssetStep::SurveyAsr
            },
            forecast_asr: false,
            forecast_vad: false,
            asr_missing: false,
            vad_missing: false,
            dir: None,
            download_url: String::new(),
            failures: FailureTracker::new(),
            install_root: None,
            install_downloaded: false,
            main,
            vad_root: None,
            prepared,
            error: None,
        }
    }

    fn fail(&mut self, error: HybridAsrError)
        ensures
            final(self)@ == old(self)@.failed(error@),
    {
        self.step = AssetStep::Done;
        self.error = Some(error);
    }

    fn checked(&mut self)
        ensures
            final(self)@ == old(self)@.checked(),
    {
        if self.asr_missing {
            self.step = AssetStep::AsrMissingDir;
        } else if self.vad_missing {
            self.announce_vad();
        } else {
            self.step = AssetStep::SurveyReady;
        }
    }

    fn announce_vad(&mut self)
        ensures
            final(self)@ == old(self)@.announce_vad(),
    {
        if self.vad_missing {
            self.step = AssetStep::VadMissingDir;
        } else {
            self.decide();
        }
    }

    fn refusal(&self) -> (error: HybridAsrError)
        ensures
            error@ == self@.refusal(),
    {
        let mut message: String = AUTO_DOWNLOAD_OFF.to_owned();
        match check_download_fields(&self.config, self.asr_missing, self.vad_missing) {
            Ok(_) => {},
            Err(error) => {
                message.append("；");
                message.append(error.message.as_str());
            },
        }
        HybridAsrError::new(message)
    }

    fn decide(&mut self)
        ensures
            final(self)@ == old(self)@.decide(),
    {
        if self.config.auto_download {
            self.step = AssetStep::SurveyMain;
        } else {
            let error: HybridAsrError = self.refusal();
            self.fail(error);
        }
    }

    fn main_ready(&mut self, main: PreparedLocalAsrAssets<F>)
        ensures
            final(self)@ == old(self)@.main_ready(main@),
    {
        self.main = main;
        self.step = AssetStep::PrepareVad;
    }

    fn main_failed(&mut self, error: HybridAsrError)
        ensures
            final(self)@ == old(self)@.main_failed(error@),
    {
        if self.asr_missing && !self.failures.asr {
            self.step = AssetStep::AsrFailedDir;
            self.error = Some(error);
        } else {
            self.fail(error);
        }
    }

    fn vad_failed(&mut self, error: HybridAsrError)
        ensures
            final(self)@ == old(self)@.vad_failed(error@),
    {
        if self.vad_missing && !self.failures.vad {
            self.step = AssetStep::VadFailedDir;
            self.error = Some(error);
        } else {
            self.fail(error);
        }
    }

    fn prepare_main_asr_assets(&mut self, survey: &AsrSurvey)
        ensures
            final(self)@ == old(self)@.surveyed_main(*survey),
    {
        if survey.main_complete {
            let main: PreparedLocalAsrAssets<F> = Self::untouched(&self.config);
            self.main_ready(main);
            return ;
        }
        match try_resolve_existing_asr_assets(&self.config, survey) {
            Err(error) => self.main_failed(error),
            Ok(Some(existing)) => self.main_ready(existing),
            Ok(None) => match require_download_field(&self.config.download_url, "download_url") {
                Err(error) => self.main_failed(error),
                Ok(url) => {
                    self.download_url = url;
                    self.step = AssetStep::Install;
                },
            },
        }
    }

    fn inspected(&mut self, found: &RootFindings)
        ensures
            final(self)@ == old(self)@.inspected(*found),
    {
        match resolve_installed_asr_model_dir(found, &self.config) {
            Err(error) => self.main_failed(error),
            Ok(dir) => {
                let mut resolved_config: LocalAsrConfig<F> = self.config.clone();
                resolved_config.asr_model_dir = dir;
                let main: PreparedLocalAsrAssets<F> = PreparedLocalAsrAssets {
                    resolved_config,
                    downloaded_anything: self.install_downloaded,
                    install_root: self.install_root.clone(),
                };
                self.main_ready(main);
            },
        }
    }

    fn vad_ready(&mut self, vad: PreparedVad, parent: Option<String>)
        ensures
            final(self)@ == old(self)@.vad_ready(vad, text_model(parent)),
    {
        let mut resolved_config: LocalAsrConfig<F> = self.main.resolved_config.clone();
        resolved_config.vad_model_dir = self.vad_dir(parent);
        self.vad_root = vad.install_root;
        self.prepared = PreparedLocalAsrAssets {
            resolved_config,
            downloaded_anything: self.main.downloaded_anything || vad.downloaded_anything,
            install_root: self.main.install_root.clone(),
        };
        self.step = if self.asr_missing {
            AssetStep::AsrReadyNotice
        } else {
            AssetStep::SurveyFinal
        };
    }

    fn resolved_by(&self, existing: Option<PreparedLocalAsrAssets<F>>) -> (config: LocalAsrConfig<
        F,
    >)
        ensures
            config@ == (match existing {
                Some(existing) => existing@.resolved,
                None => self@.config,
            }),
    {
        match existing {
            Some(existing) => existing.resolved_config,
            None => self.config.clone(),
        }
    }

    fn surveyed_final(&mut self, survey: &AsrSurvey)
        ensures
            final(self)@ == old(self)@.surveyed_final(*survey),
    {
        match try_resolve_existing_asr_assets(&self.config, survey) {
            Err(error) => self.fail(error),
            Ok(existing) => {
                let mut resolved_config: LocalAsrConfig<F> = self.resolved_by(existing);
                resolved_config.vad_model_dir = self.prepared.resolved_config.vad_model_dir.clone();
                self.prepared.resolved_config = resolved_config;
                self.asr_ready_told();
            },
        }
    }

    fn asr_ready_told(&mut self)
        ensures
            final(self)@ == old(self)@.asr_ready_told(),
    {
        if self.vad_missing {
            self.step = AssetStep::VadReadyNotice;
        } else {
            self.confirm();
        }
    }

    fn confirm(&mut self)
        ensures
            final(self)@ == old(self)@.confirm(),
    {
        if self.explicit && !self.forecast_asr {
            self.step = AssetStep::AsrConfirmNotice;
        } else {
            self.confirm_vad();
        }
    }

    fn confirm_vad(&mut self)
        ensures
            final(self)@ == old(self)@.confirm_vad(),
    {
        self.step = if self.explicit && !self.forecast_vad {
            AssetStep::VadConfirmNotice
        } else {
            AssetStep::Done
        };
    }

    fn surveyed_ready(&mut self, survey: &AsrSurvey)
        ensures
            final(self)@ == old(self)@.surveyed_ready(*survey),
    {
        match try_resolve_existing_asr_assets(&self.config, survey) {
            Err(error) => self.fail(error),
            Ok(existing) => {
                let resolved_config: LocalAsrConfig<F> = self.resolved_by(existing);
                self.prepared = PreparedLocalAsrAssets {
                    resolved_config,
                    downloaded_anything: false,
                    install_root: None,
                };
                self.step = AssetStep::LocateVad;
            },
        }
    }

    fn vad_dir(&self, parent: Option<String>) -> (dir: String)
        ensures
            dir@ == dir_or(text_model(parent), self@.config.vad_model_dir),
    {
        match parent {
            Some(dir) => dir,
            None => self.config.vad_model_dir.clone(),
        }
    }

    fn vad_located(&mut self, parent: Option<String>)
        ensures
            final(self)@ == old(self)@.vad_located(text_model(parent)),
    {
        self.prepared.resolved_config.vad_model_dir = self.vad_dir(parent);
        self.confirm();
    }

    fn surveyed(&mut self, survey: &AsrSurvey)
        ensures
            final(self)@ == old(self)@.surveyed(*survey),
    {
        match self.step {
            AssetStep::ForecastAsr => match is_asr_missing(&self.config, survey) {
                Err(error) => self.fail(error),
                Ok(missing) => {
                    self.forecast_asr = missing;
                    self.step = AssetStep::ForecastVad;
                },
            },
            AssetStep::SurveyAsr => match is_asr_missing(&self.config, survey) {
                Err(error) => self.fail(error),
                Ok(missing) => {
                    self.asr_missing = missing;
                    self.step = AssetStep::CheckVad;
                },
            },
            AssetStep::SurveyReady => self.surveyed_ready(survey),
            AssetStep::SurveyMain => self.prepare_main_asr_assets(survey),
            AssetStep::SurveyFinal => self.surveyed_final(survey),
            _ => {},
        }
    }

    fn vad_checked(&mut self, answer: HybridAsrResult<bool>)
        ensures
            final(self)@ == old(self)@.vad_checked(answer),
    {
        match (self.step, answer) {
            (AssetStep::ForecastVad, Ok(missing)) => {
                self.forecast_vad = missing;
                self.step = AssetStep::SurveyAsr;
            },
            (AssetStep::CheckVad, Ok(missing)) => {
                self.vad_missing = missing;
                self.checked();
            },
            (AssetStep::ForecastVad, Err(error)) => self.fail(error),
            (AssetStep::CheckVad, Err(error)) => self.fail(error),
            _ => {},
        }
    }

    fn resolved(&mut self, dir: HybridAsrResult<PathBuf>)
        ensures
            final(self)@ == old(self)@.resolved(dir),
    {
        let step: AssetStep = match self.step {
            AssetStep::AsrMissingDir => AssetStep::AsrMissingNotice,
            AssetStep::VadMissingDir => AssetStep::VadMissingNotice,
            AssetStep::AsrFailedDir => AssetStep::AsrFailedNotice,
            AssetStep::VadFailedDir => AssetStep::VadFailedNotice,
            _ => return ,
        };
        match dir {
            Err(error) => {
                if !self.config.auto_download && (self.step == AssetStep::AsrMissingDir
                    || self.step == AssetStep::VadMissingDir) {
                    self.decide();
                } else {
                    self.fail(error);
                }
            },
            Ok(dir) => {
                self.dir = Some(dir);
                self.step = step;
            },
        }
    }

    fn published(&mut self)
        ensures
            final(self)@ == old(self)@.published(),
    {
        match self.step {
            AssetStep::AsrMissingNotice => self.announce_vad(),
            AssetStep::VadMissingNotice => self.decide(),
            AssetStep::AsrReadyNotice => self.asr_ready_told(),
            AssetStep::VadReadyNotice => self.confirm(),
            AssetStep::AsrConfirmNotice => self.confirm_vad(),
            AssetStep::AsrFailedNotice => {
                self.step = AssetStep::Done;
            },
            AssetStep::VadFailedNotice => {
                self.step = AssetStep::Done;
            },
            AssetStep::VadConfirmNotice => {
                self.step = AssetStep::Done;
            },
            _ => {},
        }
    }

    fn installed(&mut self, outcome: HybridAsrResult<InstalledPackage>, failures: FailureTracker)
        ensures
            final(self)@ == old(self)@.installed(outcome, failures),
    {
        if self.step != AssetStep::Install {
            return ;
        }
        self.failures = failures;
        match outcome {
            Err(error) => self.main_failed(error),
            Ok(package) => {
                self.install_root = Some(package.install_root);
                self.install_downloaded = package.downloaded_anything;
                self.step = AssetStep::InspectInstallation;
            },
        }
    }

    #[verifier::rlimit(30)]
    fn vad_prepared(&mut self, outcome: HybridAsrResult<PreparedVad>, failures: FailureTracker)
        ensures
            old(self)@.leads_to(AssetReply::VadPrepared(outcome, failures), final(self)@),
    {
        if self.step != AssetStep::PrepareVad {
            return ;
        }
        self.failures = failures;
        match outcome {
            Err(error) => self.vad_failed(error),
            Ok(vad) => {
                let parent: Option<String> = parent_dir(vad.model_path.as_str());
                self.vad_ready(vad, parent);
            },
        }
    }

    fn located(&mut self, path: HybridAsrResult<String>)
        ensures
            old(self)@.leads_to(AssetReply::VadLocated(path), final(self)@),
    {
        if self.step != AssetStep::LocateVad {
            return ;
        }
        match path {
            Err(_) => self.vad_located(None),
            Ok(path) => {
                let parent: Option<String> = parent_dir(path.as_str());
                self.vad_located(parent);
            },
        }
    }

    /// Takes the reply to what the machine wanted done.
    pub fn advance(&mut self, reply: AssetReply)
        ensures
            old(self)@.leads_to(reply, final(self)@),
    {
        match reply {
            AssetReply::Surveyed(survey) => self.surveyed(&survey),
            AssetReply::VadChecked(answer) => self.vad_checked(answer),
            AssetReply::Resolved(dir) => self.resolved(dir),
            AssetReply::Published => self.published(),
            AssetReply::Installed(outcome, failures) => self.installed(outcome, failures),
            AssetReply::Inspected(found) => {
                if self.step == AssetStep::InspectInstallation {
                    self.inspected(&found);
                }
            },
            AssetReply::VadPrepared(outcome, failures) => self.vad_prepared(outcome, failures),
            AssetReply::VadLocated(path) => self.located(path),
        }
    }

    fn child_name(&self) -> (name: String)
        ensures
            is_child_name(self@.config.asr_model_dir, name@),
    {
        resolve_dir_name(self.config.asr_model_dir.as_str(), DEFAULT_ASR_DIR_NAME)
    }

    fn survey_request(&self) -> (request: SurveyRequest)
        ensures
            self@.asks_survey(request),
    {
        SurveyRequest {
            model_dir: self.config.asr_model_dir.clone(),
            target_dir: self.config.target_dir.clone(),
            child_name: self.child_name(),
        }
    }

    fn notice_dir(&self) -> (dir: PathBuf)
        ensures
            dir == self@.notice_dir(),
    {
        match &self.dir {
            Some(dir) => dir.clone(),
            None => path_from(String::new().as_str()),
        }
    }

    fn missing_notice(&self, kind: ModelResourceKind) -> (notice: ModelNotice)
        ensures
            AssetModel::<F>::is_notice(
                notice,
                kind,
                ModelLifecyclePhase::Missing,
                self@.notice_dir(),
                match kind {
                    ModelResourceKind::Asr => ASR_MISSING_MESSAGE@ + self@.config.asr_model_dir,
                    ModelResourceKind::Vad => VAD_MISSING_MESSAGE@ + self@.config.vad_model_dir,
                },
            ),
    {
        let message: String = match kind {
            ModelResourceKind::Asr => {
                let mut message: String = ASR_MISSING_MESSAGE.to_owned();
                message.append(self.config.asr_model_dir.as_str());
                message
            },
            ModelResourceKind::Vad => {
                let mut message: String = VAD_MISSING_MESSAGE.to_owned();
                message.append(self.config.vad_model_dir.as_str());
                message
            },
        };
        ModelNotice {
            resource_kind: kind,
            phase: ModelLifecyclePhase::Missing,
            target_dir: self.notice_dir(),
            message,
        }
    }

    fn failed_notice(&self, kind: ModelResourceKind) -> (notice: ModelNotice)
        ensures
            AssetModel::<F>::is_notice(
                notice,
                kind,
                ModelLifecyclePhase::Failed,
                self@.notice_dir(),
                self@.error_text(),
            ),
    {
        let message: String = match &self.error {
            Some(error) => error.to_string(),
            None => String::new(),
        };
        ModelNotice {
            resource_kind: kind,
            phase: ModelLifecyclePhase::Failed,
            target_dir: self.notice_dir(),
            message,
        }
    }

    fn ready_notice(kind: ModelResourceKind, dir: PathBuf) -> (notice: ModelNotice)
        ensures
            AssetModel::<F>::is_notice(
                notice,
                kind,
                ModelLifecyclePhase::Downloaded,
                dir,
                match kind {
                    ModelResourceKind::Asr => ASR_READY_MESSAGE@,
                    ModelResourceKind::Vad => VAD_READY_MESSAGE@,
                },
            ),
    {
        let message: String = match kind {
            ModelResourceKind::Asr => ASR_READY_MESSAGE.to_owned(),
            ModelResourceKind::Vad => VAD_READY_MESSAGE.to_owned(),
        };
        ModelNotice {
            resource_kind: kind,
            phase: ModelLifecyclePhase::Downloaded,
            target_dir: dir,
            message,
        }
    }

    fn asr_home(&self) -> (dir: PathBuf)
        ensures
            dir == self@.asr_home(),
    {
        match &self.main.install_root {
            Some(root) => root.clone(),
            None => self.prepared.resolved_config.asr_model_dir_path(),
        }
    }

    fn vad_home(&self) -> (dir: PathBuf)
        ensures
            dir == self@.vad_home(),
    {
        match &self.vad_root {
            Some(root) => root.clone(),
            None => self.prepared.resolved_config.vad_model_dir_path(),
        }
    }

    /// What the machine wants done next.
    pub fn action(&self) -> (action: AssetAction<F>)
        ensures
            self@.wants(action),
    {
        match self.step {
            AssetStep::ForecastAsr => AssetAction::Survey(self.survey_request()),
            AssetStep::SurveyAsr => AssetAction::Survey(self.survey_request()),
            AssetStep::SurveyReady => AssetAction::Survey(self.survey_request()),
            AssetStep::SurveyMain => AssetAction::Survey(self.survey_request()),
            AssetStep::SurveyFinal => AssetAction::Survey(self.survey_request()),
            AssetStep::ForecastVad => AssetAction::CheckVad(build_vad_config(&self.config)),
            AssetStep::CheckVad => AssetAction::CheckVad(build_vad_config(&self.config)),
            AssetStep::AsrMissingDir => AssetAction::ResolveTarget(self.config.target_dir.clone()),
            AssetStep::AsrFailedDir => AssetAction::ResolveTarget(self.config.target_dir.clone()),
            AssetStep::VadMissingDir => {
                AssetAction::ResolveTarget(build_vad_config(&self.config).target_dir)
            },
            AssetStep::VadFailedDir => {
                AssetAction::ResolveTarget(build_vad_config(&self.config).target_dir)
            },
            AssetStep::AsrMissingNotice => {
                AssetAction::Publish(self.missing_notice(ModelResourceKind::Asr))
            },
            AssetStep::VadMissingNotice => {
                AssetAction::Publish(self.missing_notice(ModelResourceKind::Vad))
            },
            AssetStep::AsrFailedNotice => {
                AssetAction::Publish(self.failed_notice(ModelResourceKind::Asr))
            },
            AssetStep::VadFailedNotice => {
                AssetAction::Publish(self.failed_notice(ModelResourceKind::Vad))
            },
            AssetStep::AsrReadyNotice => {
                AssetAction::Publish(Self::ready_notice(ModelResourceKind::Asr, self.asr_home()))
            },
            AssetStep::VadReadyNotice => {
                AssetAction::Publish(Self::ready_notice(ModelResourceKind::Vad, self.vad_home()))
            },
            AssetStep::AsrConfirmNotice => {
                let dir: PathBuf = self.prepared.resolved_config.asr_model_dir_path();
                AssetAction::Publish(Self::ready_notice(ModelResourceKind::Asr, dir))
            },
            AssetStep::VadConfirmNotice => {
                let dir: PathBuf = self.prepared.resolved_config.vad_model_dir_path();
                AssetAction::Publish(Self::ready_notice(ModelResourceKind::Vad, dir))
            },
            AssetStep::Install => AssetAction::Install(
                InstallRequest {
                    resource_kind: InstallerResourceKind::Asr,
                    download_url: self.download_url.clone(),
                    target_dir: self.config.target_dir.clone(),
                    package_key: PACKAGE_KEY.to_owned(),
                },
            ),
            AssetStep::InspectInstallation => match &self.install_root {
                Some(root) => AssetAction::Inspect(
                    InspectionRequest {
                        root: root.clone(),
                        model_dir: self.config.asr_model_dir.clone(),
                        child_name: self.child_name(),
                    },
                ),
                None => AssetAction::Finish,
            },
            AssetStep::PrepareVad => AssetAction::PrepareVad(build_vad_config(&self.config)),
            AssetStep::LocateVad => {
                let mut vad: VadConfig<F> = build_vad_config(&self.config);
                vad.auto_download = false;
                AssetAction::LocateVad(vad)
            },
            AssetStep::Done => AssetAction::Finish,
        }
    }

    /// The outcome of a preparation that is done; `None` of one that is not.
    pub fn into_outcome(self) -> (outcome: Option<HybridAsrResult<PreparedLocalAsrAssets<F>>>)
        ensures
            outcome is Some <==> self@.step == AssetStep::Done,
            outcome matches Some(result) ==> prepared_model(result) == self@.outcome(),
    {
        if self.step != AssetStep::Done {
            return None;
        }
        match self.error {
            Some(error) => Some(Err(error)),
            None => Some(Ok(self.prepared)),
        }
    }
}

} // verus!
