use std::path::PathBuf;
use std::time::SystemTime;

use hybrid_asr::assets::preparation::{
    AssetAction, AssetPreparation, AssetReply, InstalledPackage, PreparedVad,
};
use hybrid_asr::assets::{
    build_vad_config, check_download_fields, emit_model_lifecycle_event, is_asr_missing,
    map_download_event, map_resource_kind, observe_model_download, require_download_field,
    resolve_installed_asr_model_dir, try_resolve_existing_asr_assets,
    try_resolve_existing_asr_model_dir, AsrSurvey, DownloadEvent, DownloadPhase,
    FailureTracker, InstallerResourceKind, RootFindings, TargetFindings,
};
use hybrid_asr::event::{EventHub, EventReceiver, ReceiveError};
use hybrid_asr::{
    download_local_asr_assets, inspect_local_asr_assets_download, prepare_local_asr_assets,
    AsrEvent, AsrResult, HybridAsrError, HybridAsrResult, HybridAsrSession, LocalAsrConfig,
    ModelLifecycleEvent, ModelLifecyclePhase, ModelResourceKind, PreparedLocalAsrAssets,
    RealtimeAsrBackend,
};

/// A disk, an installer and a voice activity detector as the tests want them.
struct World {
    /// The directories that hold a whole recognition model.
    complete: Vec<String>,
    /// The installation root, and whether it exists.
    root: Result<String, String>,
    root_exists: bool,
    vad_missing: Result<bool, String>,
    /// The directories that an installation completes.
    install: Result<Vec<String>, String>,
    vad_model_path: Result<String, String>,
    failures: FailureTracker,
    /// What the installer tells of while it works on the recognition model.
    installer_events: Vec<DownloadEvent>,
    installed_urls: Vec<String>,
    /// Whether each preparation of the voice activity model was allowed to download.
    vad_preparations: Vec<bool>,
    /// The same of each attempt to locate it.
    vad_locations: Vec<bool>,
}

impl World {
    fn empty(root: &str) -> Self {
        World {
            complete: Vec::new(),
            root: Ok(root.to_string()),
            root_exists: false,
            vad_missing: Ok(true),
            install: Err("not expected to install".to_string()),
            vad_model_path: Err("not expected to prepare".to_string()),
            failures: FailureTracker::new(),
            installer_events: Vec::new(),
            installed_urls: Vec::new(),
            vad_preparations: Vec::new(),
            vad_locations: Vec::new(),
        }
    }

    fn is_complete(&self, dir: &str) -> bool {
        self.complete.iter().any(|complete| complete == dir)
    }

    fn findings(&self, root: &str, model_dir: &str, child_name: &str) -> RootFindings {
        let child_dir = format!("{root}/{child_name}");
        RootFindings {
            configured_complete: self.is_complete(model_dir),
            child_complete: self.is_complete(&child_dir),
            child_dir,
            root_complete: self.is_complete(root),
            root_dir: root.to_string(),
        }
    }

    fn resolve(&self, target: Option<String>) -> HybridAsrResult<String> {
        match (target, &self.root) {
            (_, Err(message)) => Err(HybridAsrError::from_text(message)),
            (Some(target), Ok(_)) => Ok(target),
            (None, Ok(root)) => Ok(root.clone()),
        }
    }

    fn survey(&self, model_dir: &str, target: Option<String>, child_name: &str) -> AsrSurvey {
        AsrSurvey {
            main_complete: self.is_complete(model_dir),
            target: self.resolve(target).map(|root| TargetFindings {
                found: self.findings(&root, model_dir, child_name),
                root: PathBuf::from(root),
                exists: self.root_exists,
            }),
        }
    }

    fn vad_answer(&self) -> HybridAsrResult<bool> {
        match &self.vad_missing {
            Ok(missing) => Ok(*missing),
            Err(message) => Err(HybridAsrError::from_text(message)),
        }
    }

    /// Runs a preparation to its end and tells `hub` of its notices.
    fn run(
        &mut self,
        mut preparation: AssetPreparation<f32>,
        hub: &mut EventHub,
    ) -> HybridAsrResult<PreparedLocalAsrAssets<f32>> {
        for _ in 0..30 {
            let reply = match preparation.action() {
                AssetAction::Finish => return preparation.into_outcome().unwrap(),
                AssetAction::Survey(request) => AssetReply::Surveyed(self.survey(
                    &request.model_dir,
                    request.target_dir,
                    &request.child_name,
                )),
                AssetAction::CheckVad(_) => AssetReply::VadChecked(self.vad_answer()),
                AssetAction::ResolveTarget(target) => {
                    AssetReply::Resolved(self.resolve(target).map(PathBuf::from))
                }
                AssetAction::Publish(notice) => {
                    emit_model_lifecycle_event(hub, notice, SystemTime::UNIX_EPOCH);
                    AssetReply::Published
                }
                AssetAction::Install(request) => {
                    assert_eq!(request.package_key, "hybrid-asr");
                    assert_eq!(request.resource_kind, InstallerResourceKind::Asr);
                    self.installed_urls.push(request.download_url);
                    for event in &self.installer_events {
                        self.failures.observe(event);
                        observe_model_download(hub, event, SystemTime::UNIX_EPOCH);
                    }
                    let outcome = match &self.install {
                        Err(message) => Err(HybridAsrError::from_text(message)),
                        Ok(dirs) => {
                            self.complete.extend(dirs.iter().cloned());
                            self.root_exists = true;
                            Ok(InstalledPackage {
                                install_root: PathBuf::from(request.target_dir.unwrap()),
                                downloaded_anything: true,
                            })
                        }
                    };
                    AssetReply::Installed(outcome, self.failures)
                }
                AssetAction::Inspect(request) => AssetReply::Inspected(self.findings(
                    request.root.to_str().unwrap(),
                    &request.model_dir,
                    &request.child_name,
                )),
                AssetAction::PrepareVad(vad) => {
                    self.vad_preparations.push(vad.auto_download);
                    let outcome = match &self.vad_model_path {
                        Err(message) => Err(HybridAsrError::from_text(message)),
                        Ok(path) => Ok(PreparedVad {
                            model_path: path.clone(),
                            downloaded_anything: self.vad_missing == Ok(true),
                            install_root: None,
                        }),
                    };
                    AssetReply::VadPrepared(outcome, self.failures)
                }
                AssetAction::LocateVad(vad) => {
                    self.vad_locations.push(vad.auto_download);
                    AssetReply::VadLocated(match &self.vad_model_path {
                        Err(message) => Err(HybridAsrError::from_text(message)),
                        Ok(path) => Ok(path.clone()),
                    })
                }
            };
            preparation.advance(reply);
        }
        panic!("the preparation did not come to an end");
    }
}

fn build_missing_config(target_dir: &str) -> LocalAsrConfig<f32> {
    LocalAsrConfig {
        asr_model_dir: "./missing/sense-voice-zh-en".to_string(),
        vad_model_dir: "./missing/silero_vad".to_string(),
        auto_download: false,
        download_url: None,
        vad_download_url: None,
        vad_target_dir: None,
        target_dir: Some(target_dir.to_string()),
        sample_rate: 16_000,
        num_threads: 2,
        use_itn: true,
        provider: "cpu".to_string(),
        min_silence_duration: 0.5,
        min_speech_duration: 0.25,
        vad_threshold: 0.5,
    }
}

fn model_events(hub: &mut EventHub, receiver: &EventReceiver) -> Vec<ModelLifecycleEvent> {
    let mut events = Vec::new();
    while let Ok(event) = hub.try_receive(receiver) {
        if let AsrEvent::Model(event) = event {
            events.push(event);
        }
    }
    events
}

fn told(events: &[ModelLifecycleEvent]) -> Vec<(ModelResourceKind, ModelLifecyclePhase)> {
    events
        .iter()
        .map(|event| (event.resource_kind, event.phase))
        .collect()
}

const ASR: ModelResourceKind = ModelResourceKind::Asr;
const VAD: ModelResourceKind = ModelResourceKind::Vad;
const MISSING: ModelLifecyclePhase = ModelLifecyclePhase::Missing;
const DOWNLOADED: ModelLifecyclePhase = ModelLifecyclePhase::Downloaded;
const FAILED: ModelLifecyclePhase = ModelLifecyclePhase::Failed;

#[test]
fn prepare_assets_emits_missing_before_download_validation() {
    let target_dir = "/tmp/hybrid-asr-missing-event";
    let mut event_hub = EventHub::default();
    let events = event_hub.subscribe();

    let error = World::empty("/models")
        .run(
            prepare_local_asr_assets(&build_missing_config(target_dir)),
            &mut event_hub,
        )
        .unwrap_err()
        .to_string();

    assert!(error.contains("download_url"));
    let emitted = model_events(&mut event_hub, &events);
    assert_eq!(emitted[0].resource_kind, ModelResourceKind::Asr);
    assert_eq!(emitted[0].phase, ModelLifecyclePhase::Missing);
    assert_eq!(emitted[0].target_dir, PathBuf::from(target_dir));
    assert_eq!(
        emitted[0].message,
        "本地 ASR 模型缺失，准备下载或安装，model_dir=./missing/sense-voice-zh-en"
    );
    assert_eq!(told(&emitted), vec![(ASR, MISSING), (VAD, MISSING)]);
}

#[test]
fn model_download_observer_only_maps_stable_business_phases() {
    let mut event_hub = EventHub::default();
    let events = event_hub.subscribe();
    let now = SystemTime::UNIX_EPOCH;

    observe_model_download(
        &mut event_hub,
        &DownloadEvent {
            resource_kind: InstallerResourceKind::Asr,
            phase: DownloadPhase::PackagePreparing,
            downloaded_bytes: Some(128),
            total_bytes: Some(1024),
            target_dir: PathBuf::from("./models/asr"),
            message: "正在下载 ASR 模型".to_string(),
        },
        now,
    );
    observe_model_download(
        &mut event_hub,
        &DownloadEvent {
            resource_kind: InstallerResourceKind::Vad,
            phase: DownloadPhase::Failed,
            downloaded_bytes: Some(256),
            total_bytes: Some(1024),
            target_dir: PathBuf::from("./models/vad"),
            message: "VAD 下载失败".to_string(),
        },
        now,
    );
    observe_model_download(
        &mut event_hub,
        &DownloadEvent {
            resource_kind: InstallerResourceKind::Asr,
            phase: DownloadPhase::Completed,
            downloaded_bytes: None,
            total_bytes: None,
            target_dir: PathBuf::from("./models/asr"),
            message: "完成".to_string(),
        },
        now,
    );

    let emitted = model_events(&mut event_hub, &events);

    assert_eq!(emitted.len(), 2);
    assert_eq!(emitted[0].resource_kind, ModelResourceKind::Asr);
    assert_eq!(emitted[0].phase, ModelLifecyclePhase::Downloading);
    assert_eq!(emitted[1].resource_kind, ModelResourceKind::Vad);
    assert_eq!(emitted[1].phase, ModelLifecyclePhase::Failed);
    assert_eq!(emitted[0].downloaded_bytes, Some(128));
    assert_eq!(emitted[0].total_bytes, Some(1024));
    assert_eq!(emitted[0].target_dir, PathBuf::from("./models/asr"));
    assert_eq!(emitted[0].message, "正在下载 ASR 模型");
    assert_eq!(emitted[0].timestamp, now);
}

#[test]
fn inspect_download_returns_false_when_asr_and_vad_are_reusable() {
    let target_dir = "/tmp/hybrid-asr-reusable";
    let mut world = World::empty("/models");
    world.root_exists = true;
    world.complete = vec![format!("{target_dir}/sense-voice-zh-en")];
    world.vad_missing = Ok(false);
    let mut config = build_missing_config(target_dir);
    config.vad_model_dir = "./silero_vad".to_string();
    config.vad_target_dir = Some(target_dir.to_string());

    let survey = world.survey(
        &config.asr_model_dir,
        config.target_dir.clone(),
        "sense-voice-zh-en",
    );
    let should_download =
        inspect_local_asr_assets_download(&config, &survey, world.vad_answer()).unwrap();

    assert!(!should_download);
}

#[test]
fn prepare_assets_fails_fast_when_auto_download_disabled() {
    let error = World::empty("/models")
        .run(
            prepare_local_asr_assets(&build_missing_config(
                "/tmp/hybrid-asr-auto-download-disabled",
            )),
            &mut EventHub::default(),
        )
        .unwrap_err()
        .to_string();

    assert!(error.contains("auto_download=false"));
    assert_eq!(
        error,
        "本地 ASR/VAD 模型缺失，且 auto_download=false，请先调用显式下载 API；本地 ASR 模型缺失，且 download_url 未配置"
    );
}

#[test]
fn explicit_download_api_ignores_auto_download_flag_during_validation() {
    let error = World::empty("/models")
        .run(
            download_local_asr_assets(&build_missing_config("/tmp/hybrid-asr-explicit-download")),
            &mut EventHub::default(),
        )
        .unwrap_err()
        .to_string();

    assert!(error.contains("download_url"));
    assert!(!error.contains("auto_download"));
}

struct NoBackend;

impl RealtimeAsrBackend for NoBackend {
    type Sample = f32;
    type Time = f64;

    fn start(&mut self) -> HybridAsrResult<()> {
        Ok(())
    }

    fn accept_samples(&mut self, _samples: &[f32]) -> HybridAsrResult<Vec<AsrResult<f64>>> {
        Ok(Vec::new())
    }

    fn reset(&mut self) -> HybridAsrResult<()> {
        Ok(())
    }

    fn prepare_next_turn(&mut self) -> HybridAsrResult<()> {
        Ok(())
    }

    fn finish(&mut self) -> HybridAsrResult<Vec<AsrResult<f64>>> {
        Ok(Vec::new())
    }
}

#[test]
fn new_with_event_hub_exposes_early_model_missing_event() {
    let mut event_hub = EventHub::default();
    let events = event_hub.subscribe();

    let config = LocalAsrConfig {
        asr_model_dir: "missing-sense-voice-zh-en".to_string(),
        vad_model_dir: "missing-silero-vad".to_string(),
        auto_download: false,
        download_url: None,
        target_dir: None,
        vad_download_url: None,
        vad_target_dir: None,
        sample_rate: 16_000,
        num_threads: 1,
        use_itn: true,
        provider: "cpu".to_string(),
        min_silence_duration: 0.5,
        min_speech_duration: 0.25,
        vad_threshold: 0.5,
    };
    let backend = World::empty("/models")
        .run(prepare_local_asr_assets(&config), &mut event_hub)
        .map(|_| NoBackend);
    let result = HybridAsrSession::new_with_event_hub(backend, event_hub);

    let (error, mut event_hub) = match result {
        Ok(_) => {
            panic!("expected local asr construction to fail when download config is missing")
        }
        Err(refusal) => (refusal.error.to_string(), refusal.event_hub),
    };

    assert!(error.contains("download_url"));
    let model_events = model_events(&mut event_hub, &events);
    assert!(model_events.iter().any(|event| {
        event.resource_kind == ModelResourceKind::Asr
            && event.phase == ModelLifecyclePhase::Missing
    }));
    assert_eq!(
        event_hub.try_receive(&events),
        Err(ReceiveError::Disconnected)
    );
}

#[test]
fn ready_models_are_taken_as_they_are() {
    let mut world = World::empty("/models");
    world.complete = vec!["./missing/sense-voice-zh-en".to_string()];
    world.vad_missing = Ok(false);
    world.vad_model_path = Ok("./missing/silero_vad/silero_vad_v5.onnx".to_string());
    let mut hub = EventHub::default();
    let receiver = hub.subscribe();
    let mut config = build_missing_config("/target");
    let prepared = world
        .run(prepare_local_asr_assets(&config), &mut hub)
        .unwrap();
    assert!(!prepared.downloaded_anything);
    assert_eq!(prepared.install_root, None);
    assert_eq!(
        prepared.resolved_config.asr_model_dir,
        "./missing/sense-voice-zh-en"
    );
    assert_eq!(prepared.resolved_config.vad_model_dir, "./missing/silero_vad");
    assert!(!prepared.resolved_config.auto_download);
    assert!(model_events(&mut hub, &receiver).is_empty());
    assert_eq!(world.vad_locations, vec![false]);
    assert!(world.vad_preparations.is_empty());

    config.auto_download = true;
    let prepared = world
        .run(prepare_local_asr_assets(&config), &mut hub)
        .unwrap();
    assert!(prepared.resolved_config.auto_download);
    assert!(model_events(&mut hub, &receiver).is_empty());
    assert_eq!(world.vad_locations, vec![false, false]);
    assert!(world.vad_preparations.is_empty());
    assert!(world.installed_urls.is_empty());
}

#[test]
fn ready_models_are_found_in_the_target_directories() {
    let mut world = World::empty("/models");
    world.root_exists = true;
    world.complete = vec!["/m/sense-voice-zh-en".to_string()];
    world.vad_missing = Ok(false);
    world.vad_model_path = Ok("/m/silero_vad/silero_vad_v5.onnx".to_string());
    let mut config = build_missing_config("/m");
    config.vad_model_dir = "./silero_vad".to_string();
    config.vad_target_dir = Some("/m".to_string());
    let mut hub = EventHub::default();
    let receiver = hub.subscribe();
    let prepared = world
        .run(prepare_local_asr_assets(&config), &mut hub)
        .unwrap();
    assert_eq!(prepared.resolved_config.asr_model_dir, "/m/sense-voice-zh-en");
    assert_eq!(prepared.resolved_config.vad_model_dir, "/m/silero_vad");
    assert!(!prepared.downloaded_anything);
    assert_eq!(prepared.install_root, None);
    assert_eq!(prepared.resolved_config.target_dir.as_deref(), Some("/m"));
    assert_eq!(prepared.resolved_config.provider, config.provider);
    assert_eq!(prepared.resolved_config.sample_rate, config.sample_rate);
    assert!(model_events(&mut hub, &receiver).is_empty());
}

#[test]
fn a_ready_model_that_cannot_be_located_is_where_it_is_configured() {
    for auto_download in [false, true] {
        let mut world = World::empty("/models");
        world.complete = vec!["./missing/sense-voice-zh-en".to_string()];
        world.vad_missing = Ok(false);
        world.vad_model_path = Err("gone".to_string());
        let mut hub = EventHub::default();
        let receiver = hub.subscribe();
        let mut config = build_missing_config("/target");
        config.auto_download = auto_download;
        let prepared = world
            .run(prepare_local_asr_assets(&config), &mut hub)
            .unwrap();
        assert!(!prepared.downloaded_anything);
        assert_eq!(prepared.install_root, None);
        assert_eq!(
            prepared.resolved_config.asr_model_dir,
            "./missing/sense-voice-zh-en"
        );
        assert_eq!(prepared.resolved_config.vad_model_dir, "./missing/silero_vad");
        assert!(model_events(&mut hub, &receiver).is_empty());
    }
}

#[test]
fn a_model_is_in_the_directory_before_its_name() {
    let cases = [
        ("silero_vad_v5.onnx", ""),
        ("/silero_vad_v5.onnx", "/"),
        ("./silero_vad_v5.onnx", "."),
        ("../silero_vad_v5.onnx", ".."),
        ("a/../silero_vad_v5.onnx", "a/.."),
        ("a/./b/silero_vad_v5.onnx", "a/./b"),
        ("/a:b/silero_vad_v5.onnx", "/a:b"),
        ("", "./missing/silero_vad"),
    ];
    for (path, dir) in cases {
        let mut world = World::empty("/models");
        world.complete = vec!["./missing/sense-voice-zh-en".to_string()];
        world.vad_missing = Ok(false);
        world.vad_model_path = Ok(path.to_string());
        let prepared = world
            .run(
                prepare_local_asr_assets(&build_missing_config("/target")),
                &mut EventHub::default(),
            )
            .unwrap();
        assert_eq!(prepared.resolved_config.vad_model_dir, dir, "{path}");
    }
}

#[test]
fn a_refusal_does_not_depend_on_the_target_directory() {
    let mut world = World::empty("/models");
    world.root = Err("no home".to_string());
    world.complete = vec!["./missing/sense-voice-zh-en".to_string()];
    let mut hub = EventHub::default();
    let receiver = hub.subscribe();
    let mut config = build_missing_config("/target");
    let error = world
        .run(prepare_local_asr_assets(&config), &mut hub)
        .unwrap_err();
    assert_eq!(
        error.to_string(),
        "本地 ASR/VAD 模型缺失，且 auto_download=false，请先调用显式下载 API；本地 ASR 模型缺失，且 vad_download_url 未配置"
    );
    assert!(model_events(&mut hub, &receiver).is_empty());

    config.auto_download = true;
    let error = world
        .run(prepare_local_asr_assets(&config), &mut hub)
        .unwrap_err();
    assert_eq!(error.to_string(), "no home");
}

#[test]
fn a_model_below_the_root_or_in_it_is_found() {
    let mut world = World::empty("/models");
    world.root_exists = true;
    world.vad_missing = Ok(false);
    world.vad_model_path = Ok("/target/silero_vad/silero_vad_v5.onnx".to_string());
    let config = build_missing_config("/target");
    world.complete = vec!["/target".to_string()];
    let prepared = world
        .run(prepare_local_asr_assets(&config), &mut EventHub::default())
        .unwrap();
    assert_eq!(prepared.resolved_config.asr_model_dir, "/target");
    assert_eq!(prepared.resolved_config.vad_model_dir, "/target/silero_vad");
    world.complete.push("/target/sense-voice-zh-en".to_string());
    let prepared = world
        .run(prepare_local_asr_assets(&config), &mut EventHub::default())
        .unwrap();
    assert_eq!(
        prepared.resolved_config.asr_model_dir,
        "/target/sense-voice-zh-en"
    );
    let mut unnamed = build_missing_config("/target");
    unnamed.asr_model_dir = "..".to_string();
    let prepared = world
        .run(prepare_local_asr_assets(&unnamed), &mut EventHub::default())
        .unwrap();
    assert_eq!(
        prepared.resolved_config.asr_model_dir,
        "/target/sense-voice-zh-en"
    );
}

fn downloadable(target_dir: &str) -> LocalAsrConfig<f32> {
    let mut config = build_missing_config(target_dir);
    config.auto_download = true;
    config.download_url = Some("  http://models.example/asr.zip ".to_string());
    config
}

fn installing_world() -> World {
    let mut world = World::empty("/models");
    world.install = Ok(vec!["/target/sense-voice-zh-en".to_string()]);
    world.vad_model_path = Ok("/target/silero_vad/silero_vad_v5.onnx".to_string());
    world
}

#[test]
fn missing_models_are_announced_downloaded_and_told_ready() {
    let mut world = installing_world();
    let mut hub = EventHub::default();
    let receiver = hub.subscribe();
    let prepared = world
        .run(prepare_local_asr_assets(&downloadable("/target")), &mut hub)
        .unwrap();
    assert_eq!(
        world.installed_urls,
        vec!["http://models.example/asr.zip".to_string()]
    );
    assert!(prepared.downloaded_anything);
    assert_eq!(prepared.install_root, Some(PathBuf::from("/target")));
    assert_eq!(
        prepared.resolved_config.asr_model_dir,
        "/target/sense-voice-zh-en"
    );
    assert_eq!(prepared.resolved_config.vad_model_dir, "/target/silero_vad");
    let events = model_events(&mut hub, &receiver);
    assert_eq!(
        told(&events),
        vec![
            (ASR, MISSING),
            (VAD, MISSING),
            (ASR, DOWNLOADED),
            (VAD, DOWNLOADED),
        ]
    );
    assert_eq!(events[2].target_dir, PathBuf::from("/target"));
    assert_eq!(events[2].message, "本地 SenseVoice 模型已经准备完成");
    assert_eq!(events[3].target_dir, PathBuf::from("/target/silero_vad"));
    assert_eq!(events[3].message, "本地 VAD 模型已经准备完成");
}

#[test]
fn only_the_model_that_was_missing_is_told_of() {
    let mut world = installing_world();
    world.complete = vec!["./missing/sense-voice-zh-en".to_string()];
    world.vad_model_path = Ok("silero_vad_v5.onnx".to_string());
    let mut hub = EventHub::default();
    let receiver = hub.subscribe();
    let prepared = world
        .run(prepare_local_asr_assets(&downloadable("/target")), &mut hub)
        .unwrap();
    assert!(world.installed_urls.is_empty());
    assert_eq!(world.vad_preparations, vec![true]);
    assert!(prepared.downloaded_anything);
    assert_eq!(prepared.install_root, None);
    assert_eq!(prepared.resolved_config.vad_model_dir, "");
    assert_eq!(
        told(&model_events(&mut hub, &receiver)),
        vec![(VAD, MISSING), (VAD, DOWNLOADED)]
    );
}

#[test]
fn an_explicit_download_also_tells_of_what_was_there() {
    let mut world = installing_world();
    world.complete = vec!["./missing/sense-voice-zh-en".to_string()];
    let mut hub = EventHub::default();
    let receiver = hub.subscribe();
    let mut config = downloadable("/target");
    config.auto_download = false;
    let prepared = world
        .run(download_local_asr_assets(&config), &mut hub)
        .unwrap();
    assert!(prepared.resolved_config.auto_download);
    let events = model_events(&mut hub, &receiver);
    assert_eq!(
        told(&events),
        vec![(VAD, MISSING), (VAD, DOWNLOADED), (ASR, DOWNLOADED)]
    );
    assert_eq!(
        events[2].target_dir,
        PathBuf::from("./missing/sense-voice-zh-en")
    );

    let mut world = installing_world();
    world.complete = vec!["./missing/sense-voice-zh-en".to_string()];
    world.vad_missing = Ok(false);
    let prepared = world
        .run(download_local_asr_assets(&config), &mut hub)
        .unwrap();
    let events = model_events(&mut hub, &receiver);
    assert_eq!(told(&events), vec![(ASR, DOWNLOADED), (VAD, DOWNLOADED)]);
    assert_eq!(prepared.resolved_config.vad_model_dir, "/target/silero_vad");
    assert_eq!(events[1].target_dir, PathBuf::from("/target/silero_vad"));
    assert!(!prepared.downloaded_anything);
}

#[test]
fn an_explicit_download_ignores_auto_download() {
    let worlds: [fn() -> World; 4] = [
        installing_world,
        || {
            let mut world = installing_world();
            world.install = Err("no network".to_string());
            world
        },
        || {
            let mut world = installing_world();
            world.complete = vec!["./missing/sense-voice-zh-en".to_string()];
            world.vad_missing = Ok(false);
            world
        },
        || {
            let mut world = installing_world();
            world.complete = vec!["./missing/sense-voice-zh-en".to_string()];
            world.root = Err("no home".to_string());
            world
        },
    ];
    for build in worlds {
        let mut outcomes = Vec::new();
        for auto_download in [false, true] {
            let mut config = downloadable("/target");
            config.auto_download = auto_download;
            let mut hub = EventHub::default();
            let receiver = hub.subscribe();
            let outcome = build().run(download_local_asr_assets(&config), &mut hub);
            let summary = match outcome {
                Ok(prepared) => Ok((
                    prepared.resolved_config.asr_model_dir,
                    prepared.resolved_config.vad_model_dir,
                    prepared.downloaded_anything,
                    prepared.install_root,
                )),
                Err(error) => Err(error.to_string()),
            };
            if let Err(message) = &summary {
                assert!(!message.contains("auto_download"));
            }
            assert_eq!(config.auto_download, auto_download);
            outcomes.push((summary, told(&model_events(&mut hub, &receiver))));
        }
        assert_eq!(outcomes[0], outcomes[1]);
    }
}

#[test]
fn the_root_is_that_of_the_recognition_model() {
    let mut world = installing_world();
    world.root_exists = true;
    world.complete = vec!["/target/sense-voice-zh-en".to_string()];
    let prepared = world
        .run(
            prepare_local_asr_assets(&downloadable("/target")),
            &mut EventHub::default(),
        )
        .unwrap();
    assert!(world.installed_urls.is_empty());
    assert!(prepared.downloaded_anything);
    assert_eq!(prepared.install_root, Some(PathBuf::from("/target")));
}

#[test]
fn a_failed_installation_is_told_once() {
    let mut world = installing_world();
    world.install = Err("no network".to_string());
    let mut hub = EventHub::default();
    let receiver = hub.subscribe();
    let error = world
        .run(prepare_local_asr_assets(&downloadable("/target")), &mut hub)
        .unwrap_err();
    assert_eq!(error.to_string(), "no network");
    let events = model_events(&mut hub, &receiver);
    assert_eq!(
        told(&events),
        vec![(ASR, MISSING), (VAD, MISSING), (ASR, FAILED)]
    );
    assert_eq!(events[2].message, "no network");
    assert_eq!(events[2].target_dir, PathBuf::from("/target"));

    world.failures.asr = true;
    world
        .run(prepare_local_asr_assets(&downloadable("/target")), &mut hub)
        .unwrap_err();
    assert_eq!(
        told(&model_events(&mut hub, &receiver)),
        vec![(ASR, MISSING), (VAD, MISSING)]
    );
}

#[test]
fn a_failure_is_told_as_often_as_the_installer_tells_of_it() {
    let event = |phase| DownloadEvent {
        resource_kind: InstallerResourceKind::Asr,
        phase,
        downloaded_bytes: None,
        total_bytes: None,
        target_dir: PathBuf::from("/target"),
        message: "try again".to_string(),
    };
    let mut world = installing_world();
    world.install = Err("no network".to_string());
    world.installer_events = vec![
        event(DownloadPhase::PackagePreparing),
        event(DownloadPhase::Failed),
        event(DownloadPhase::Failed),
    ];
    let mut hub = EventHub::default();
    let receiver = hub.subscribe();
    let error = world
        .run(prepare_local_asr_assets(&downloadable("/target")), &mut hub)
        .unwrap_err();
    assert_eq!(error.to_string(), "no network");
    let events = model_events(&mut hub, &receiver);
    assert_eq!(
        told(&events),
        vec![
            (ASR, MISSING),
            (VAD, MISSING),
            (ASR, ModelLifecyclePhase::Downloading),
            (ASR, FAILED),
            (ASR, FAILED),
        ]
    );
    assert_eq!(events[3].message, "try again");
}

#[test]
fn an_installation_without_the_model_fails() {
    let mut world = installing_world();
    world.install = Ok(Vec::new());
    let error = world
        .run(
            prepare_local_asr_assets(&downloadable("/target")),
            &mut EventHub::default(),
        )
        .unwrap_err();
    assert_eq!(
        error.to_string(),
        "安装目录中缺少 model.int8.onnx 或 tokens.txt"
    );
}

#[test]
fn a_voice_activity_model_that_fails_is_told_once() {
    let mut world = installing_world();
    world.vad_model_path = Err("broken package".to_string());
    let mut hub = EventHub::default();
    let receiver = hub.subscribe();
    let error = world
        .run(prepare_local_asr_assets(&downloadable("/target")), &mut hub)
        .unwrap_err();
    assert_eq!(error.to_string(), "broken package");
    assert_eq!(
        told(&model_events(&mut hub, &receiver)),
        vec![(ASR, MISSING), (VAD, MISSING), (VAD, FAILED)]
    );
}

#[test]
fn a_root_that_cannot_be_made_out_is_an_error_only_where_it_matters() {
    let mut world = World::empty("/models");
    world.root = Err("no home".to_string());
    world.vad_missing = Ok(false);
    let mut config = build_missing_config("/target");
    config.target_dir = None;
    let error = world
        .run(prepare_local_asr_assets(&config), &mut EventHub::default())
        .unwrap_err();
    assert_eq!(error.to_string(), "no home");
    let survey = world.survey(&config.asr_model_dir, None, "sense-voice-zh-en");
    assert_eq!(
        inspect_local_asr_assets_download(&config, &survey, Ok(false))
            .unwrap_err()
            .to_string(),
        "no home"
    );
    world.complete = vec![config.asr_model_dir.clone()];
    let survey = world.survey(&config.asr_model_dir, None, "sense-voice-zh-en");
    assert!(!inspect_local_asr_assets_download(&config, &survey, Ok(false)).unwrap());
}

#[test]
fn forecasts_name_the_field_that_is_missing() {
    let world = World::empty("/models");
    let mut config = build_missing_config("/target");
    let survey = world.survey(
        &config.asr_model_dir,
        config.target_dir.clone(),
        "sense-voice-zh-en",
    );
    let forecast = |config: &LocalAsrConfig<f32>, vad: HybridAsrResult<bool>| {
        inspect_local_asr_assets_download(config, &survey, vad)
    };
    assert_eq!(
        forecast(&config, Ok(false)).unwrap_err().to_string(),
        "本地 ASR 模型缺失，且 download_url 未配置"
    );
    config.download_url = Some("  ".to_string());
    assert_eq!(
        forecast(&config, Ok(true)).unwrap_err().to_string(),
        "本地 ASR 模型缺失，且 download_url 为空"
    );
    config.download_url = Some("http://models.example/asr.zip".to_string());
    assert!(forecast(&config, Ok(true)).unwrap());
    config.vad_download_url = Some(String::new());
    assert!(forecast(&config, Ok(false)).unwrap());
    assert_eq!(
        forecast(&config, Ok(true)).unwrap_err().to_string(),
        "本地 ASR 模型缺失，且 vad_download_url 为空"
    );
    assert_eq!(
        forecast(&config, Err(HybridAsrError::from_text("vad broken")))
            .unwrap_err()
            .to_string(),
        "vad broken"
    );
}

#[test]
fn a_reply_to_something_else_changes_nothing() {
    let mut preparation = prepare_local_asr_assets(&build_missing_config("/target"));
    preparation.advance(AssetReply::Published);
    preparation.advance(AssetReply::Installed(
        Err(HybridAsrError::from_text("nobody asked")),
        FailureTracker::new(),
    ));
    assert!(matches!(preparation.action(), AssetAction::Survey(_)));
    assert!(preparation.into_outcome().is_none());
}

#[test]
fn voice_activity_detection_falls_back_on_the_recognition_fields() {
    let mut config = downloadable("/target");
    let vad = build_vad_config(&config);
    assert_eq!(
        vad.download_url.as_deref(),
        Some("  http://models.example/asr.zip ")
    );
    assert_eq!(vad.target_dir.as_deref(), Some("/target"));
    assert_eq!(
        vad.model_path.dir.join(vad.model_path.file_name),
        PathBuf::from("./missing/silero_vad/silero_vad_v5.onnx")
    );
    assert!(vad.auto_download);
    assert_eq!(vad.sample_rate, 16_000);
    assert_eq!(vad.provider, "cpu");
    assert_eq!(vad.threshold, 0.5);
    assert_eq!(vad.min_silence_duration, 0.5);
    assert_eq!(vad.min_speech_duration, 0.25);
    assert_eq!(vad.window_size, 512);
    assert_eq!(vad.max_speech_seconds, 0);
    assert_eq!(vad.max_buffer_seconds, 60);
    assert_eq!(vad.num_threads, 1);
    config.vad_download_url = Some("http://models.example/vad.zip".to_string());
    config.vad_target_dir = Some("/vad".to_string());
    let vad = build_vad_config(&config);
    assert_eq!(
        vad.download_url.as_deref(),
        Some("http://models.example/vad.zip")
    );
    assert_eq!(vad.target_dir.as_deref(), Some("/vad"));
}

#[test]
fn failures_are_tracked_by_resource() {
    let event = |resource_kind, phase| DownloadEvent {
        resource_kind,
        phase,
        downloaded_bytes: None,
        total_bytes: None,
        target_dir: PathBuf::from("models"),
        message: String::new(),
    };
    let mut tracker = FailureTracker::new();
    tracker.observe(&event(
        InstallerResourceKind::Vad,
        DownloadPhase::Extracting,
    ));
    assert_eq!(tracker, FailureTracker { asr: false, vad: false });
    tracker.observe(&event(InstallerResourceKind::Tts, DownloadPhase::Failed));
    assert_eq!(tracker, FailureTracker { asr: true, vad: false });
    tracker.observe(&event(InstallerResourceKind::Vad, DownloadPhase::Failed));
    assert_eq!(tracker, FailureTracker { asr: true, vad: true });

    assert_eq!(map_resource_kind(InstallerResourceKind::Tts), ASR);
    assert_eq!(map_resource_kind(InstallerResourceKind::Vad), VAD);
    let now = SystemTime::UNIX_EPOCH;
    let silent = [
        DownloadPhase::Validating,
        DownloadPhase::Extracting,
        DownloadPhase::Completed,
    ];
    for phase in silent {
        assert!(map_download_event(&event(InstallerResourceKind::Asr, phase), now).is_none());
    }
    let told = map_download_event(
        &event(InstallerResourceKind::Asr, DownloadPhase::BundleDownloading),
        now,
    );
    assert_eq!(told.unwrap().phase, ModelLifecyclePhase::Downloading);
}

#[test]
fn findings_are_judged_in_order() {
    let config = build_missing_config("/target");
    let mut found = RootFindings {
        configured_complete: true,
        child_dir: "/target/child".to_string(),
        child_complete: true,
        root_dir: "/target".to_string(),
        root_complete: true,
    };
    assert_eq!(
        try_resolve_existing_asr_model_dir(&found, &config).as_deref(),
        Some("./missing/sense-voice-zh-en")
    );
    found.configured_complete = false;
    assert_eq!(
        resolve_installed_asr_model_dir(&found, &config).unwrap(),
        "/target/child"
    );
    found.child_complete = false;
    let survey = AsrSurvey {
        main_complete: false,
        target: Ok(TargetFindings {
            root: PathBuf::from("/target"),
            exists: true,
            found,
        }),
    };
    let existing = try_resolve_existing_asr_assets(&config, &survey)
        .unwrap()
        .unwrap();
    assert_eq!(existing.resolved_config.asr_model_dir, "/target");
    assert_eq!(existing.install_root, Some(PathBuf::from("/target")));
    assert!(!existing.downloaded_anything);
    assert!(!is_asr_missing(&config, &survey).unwrap());
    let nowhere = AsrSurvey {
        main_complete: false,
        target: Ok(TargetFindings {
            exists: false,
            ..survey.target.unwrap()
        }),
    };
    assert!(is_asr_missing(&config, &nowhere).unwrap());
    assert!(check_download_fields(&config, false, false).is_ok());
}

#[test]
fn required_fields_are_trimmed() {
    assert_eq!(
        require_download_field(&Some(" url ".to_string()), "download_url").unwrap(),
        "url"
    );
}
