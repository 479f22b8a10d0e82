//! What a caller configures.

use std::path::PathBuf;

use vstd::prelude::*;

use crate::paths::{path_from, path_of};
use crate::text::{contains_text, has_piece, text_model};
use crate::text_laws::{law_pieces_stand_between, law_texts_part_at_their_pieces};
use crate::types::AsrMode;

verus! {

/// How many seconds of audio may wait in front of an engine.
///
/// The buffers of the local engine hold as much, so that no stage pushes back before another.
pub const ASR_CHANNEL_QUEUE_MAX_SECONDS: usize = 60;

pub const DEFAULT_ONLINE_ASR_URL: &'static str =
    "wss://aivoice-test.haier.net/api/speech-service/ws/asr/recognize";

pub const DEFAULT_TEST_APP_AUTH_URL: &'static str =
    "https://techless-test.haier.net/api/appauth/create/token";

pub const DEFAULT_PROD_APP_AUTH_URL: &'static str =
    "https://techless.haier.net/api/appauth/create/token";

pub const DEFAULT_ONLINE_VISIT_K_CODE: &'static str = "S04877";

pub const DEFAULT_ONLINE_AUDIO_FORMAT: &'static str = "pcm_s16le";

pub const DEFAULT_ONLINE_FRAME_BYTES: usize = 4096;

pub const MAX_ONLINE_FRAME_BYTES: usize = 16 * 1024;

/// The host of the test service.
pub const TEST_SERVICE_HOST: &'static str = "aivoice-test.haier.net";

/// The recognition model within its directory.
pub const ASR_MODEL_FILE_NAME: &'static str = "model.int8.onnx";

/// The token table within the directory of the recognition model.
pub const ASR_TOKENS_FILE_NAME: &'static str = "tokens.txt";

/// The voice activity model within its directory.
pub const VAD_MODEL_FILE_NAME: &'static str = "silero_vad_v5.onnx";

/// A file by its directory and its name. How the two are joined is the platform's matter.
#[derive(Debug)]
pub struct AssetPath {
    pub dir: PathBuf,
    pub file_name: &'static str,
}

/// The configuration of local recognition.
///
/// `F` is the number type of durations and thresholds.
#[derive(Debug)]
pub struct LocalAsrConfig<F> {
    pub asr_model_dir: String,
    pub vad_model_dir: String,
    pub auto_download: bool,
    pub download_url: Option<String>,
    pub target_dir: Option<String>,
    pub vad_download_url: Option<String>,
    pub vad_target_dir: Option<String>,
    pub sample_rate: i32,
    pub num_threads: i32,
    pub use_itn: bool,
    pub provider: String,
    pub min_silence_duration: F,
    pub min_speech_duration: F,
    pub vad_threshold: F,
}

/// The configuration of local recognition, as data.
#[verifier::ext_equal]
pub struct LocalConfigModel<F> {
    pub asr_model_dir: Seq<char>,
    pub vad_model_dir: Seq<char>,
    pub auto_download: bool,
    pub download_url: Option<Seq<char>>,
    pub target_dir: Option<Seq<char>>,
    pub vad_download_url: Option<Seq<char>>,
    pub vad_target_dir: Option<Seq<char>>,
    pub sample_rate: i32,
    pub num_threads: i32,
    pub use_itn: bool,
    pub provider: Seq<char>,
    pub min_silence_duration: F,
    pub min_speech_duration: F,
    pub vad_threshold: F,
}

impl<F> View for LocalAsrConfig<F> {
    type V = LocalConfigModel<F>;

    open spec fn view(&self) -> LocalConfigModel<F> {
        LocalConfigModel {
            asr_model_dir: self.asr_model_dir@,
            vad_model_dir: self.vad_model_dir@,
            auto_download: self.auto_download,
            download_url: text_model(self.download_url),
            target_dir: text_model(self.target_dir),
            vad_download_url: text_model(self.vad_download_url),
            vad_target_dir: text_model(self.vad_target_dir),
            sample_rate: self.sample_rate,
            num_threads: self.num_threads,
            use_itn: self.use_itn,
            provider: self.provider@,
            min_silence_duration: self.min_silence_duration,
            min_speech_duration: self.min_speech_duration,
            vad_threshold: self.vad_threshold,
        }
    }
}

impl<F: Copy> Clone for LocalAsrConfig<F> {
    fn clone(&self) -> (copy: Self)
        ensures
            copy == *self,
    {
        LocalAsrConfig {
            asr_model_dir: self.asr_model_dir.clone(),
            vad_model_dir: self.vad_model_dir.clone(),
            auto_download: self.auto_download,
            download_url: self.download_url.clone(),
            target_dir: self.target_dir.clone(),
            vad_download_url: self.vad_download_url.clone(),
            vad_target_dir: self.vad_target_dir.clone(),
            sample_rate: self.sample_rate,
            num_threads: self.num_threads,
            use_itn: self.use_itn,
            provider: self.provider.clone(),
            min_silence_duration: self.min_silence_duration,
            min_speech_duration: self.min_speech_duration,
            vad_threshold: self.vad_threshold,
        }
    }
}

impl<F> LocalAsrConfig<F> {
    /// The directory of the recognition model.
    pub fn asr_model_dir_path(&self) -> (dir: PathBuf)
        ensures
            dir == path_of(self.asr_model_dir@),
    {
        path_from(self.asr_model_dir.as_str())
    }

    /// The directory of the voice activity model.
    pub fn vad_model_dir_path(&self) -> (dir: PathBuf)
        ensures
            dir == path_of(self.vad_model_dir@),
    {
        path_from(self.vad_model_dir.as_str())
    }

    /// The recognition model.
    pub fn model_path(&self) -> (path: AssetPath)
        ensures
            path.dir == path_of(self.asr_model_dir@),
            path.file_name@ == ASR_MODEL_FILE_NAME@,
    {
        AssetPath { dir: self.asr_model_dir_path(), file_name: ASR_MODEL_FILE_NAME }
    }

    /// The token table.
    pub fn tokens_path(&self) -> (path: AssetPath)
        ensures
            path.dir == path_of(self.asr_model_dir@),
            path.file_name@ == ASR_TOKENS_FILE_NAME@,
    {
        AssetPath { dir: self.asr_model_dir_path(), file_name: ASR_TOKENS_FILE_NAME }
    }

    /// The voice activity model.
    pub fn vad_model_path(&self) -> (path: AssetPath)
        ensures
            path.dir == path_of(self.vad_model_dir@),
            path.file_name@ == VAD_MODEL_FILE_NAME@,
    {
        AssetPath { dir: self.vad_model_dir_path(), file_name: VAD_MODEL_FILE_NAME }
    }
}

/// The configuration of online recognition.
#[derive(Debug)]
pub struct OnlineAsrConfig {
    pub online_url: String,
    pub app_auth_url: String,
    pub k_code: String,
    pub k_secret: String,
    pub visit_k_code: String,
    pub trace_id: String,
    pub biz_id: String,
    pub hot_words: Option<String>,
    pub sample_rate: i32,
    pub audio_format: String,
    pub frame_bytes: usize,
}

impl Clone for OnlineAsrConfig {
    fn clone(&self) -> (copy: Self)
        ensures
            copy == *self,
    {
        OnlineAsrConfig {
            online_url: self.online_url.clone(),
            app_auth_url: self.app_auth_url.clone(),
            k_code: self.k_code.clone(),
            k_secret: self.k_secret.clone(),
            visit_k_code: self.visit_k_code.clone(),
            trace_id: self.trace_id.clone(),
            biz_id: self.biz_id.clone(),
            hot_words: self.hot_words.clone(),
            sample_rate: self.sample_rate,
            audio_format: self.audio_format.clone(),
            frame_bytes: self.frame_bytes,
        }
    }
}

/// The configuration of either kind of recognition.
#[derive(Debug)]
pub enum HybridAsrConfig<F> {
    Local(LocalAsrConfig<F>),
    Online(OnlineAsrConfig),
}

impl<F: Copy> Clone for HybridAsrConfig<F> {
    fn clone(&self) -> (copy: Self)
        ensures
            copy == *self,
    {
        match self {
            HybridAsrConfig::Local(config) => HybridAsrConfig::Local(config.clone()),
            HybridAsrConfig::Online(config) => HybridAsrConfig::Online(config.clone()),
        }
    }
}

impl<F> HybridAsrConfig<F> {
    /// Which kind of recognition is configured.
    pub fn mode(&self) -> (mode: AsrMode)
        ensures
            mode == (match self {
                HybridAsrConfig::Local(_) => AsrMode::Local,
                HybridAsrConfig::Online(_) => AsrMode::Online,
            }),
    {
        match self {
            HybridAsrConfig::Local(_) => AsrMode::Local,
            HybridAsrConfig::Online(_) => AsrMode::Online,
        }
    }
}

/// The token service that belongs to a recognition service.
pub open spec fn auth_url_for(online_url: Seq<char>) -> Seq<char> {
    if has_piece(online_url, TEST_SERVICE_HOST@) {
        DEFAULT_TEST_APP_AUTH_URL@
    } else {
        DEFAULT_PROD_APP_AUTH_URL@
    }
}

/// The token service that belongs to a recognition service: the one for tests where
/// the address names the test host, else that of production.
pub fn infer_app_auth_url_from_online_url(online_url: &str) -> (url: String)
    ensures
        url@ == auth_url_for(online_url@),
        url@ == if has_piece(online_url@, TEST_SERVICE_HOST@) {
            DEFAULT_TEST_APP_AUTH_URL@
        } else {
            DEFAULT_PROD_APP_AUTH_URL@
        },
{
    if contains_text(online_url, TEST_SERVICE_HOST) {
        DEFAULT_TEST_APP_AUTH_URL.to_owned()
    } else {
        DEFAULT_PROD_APP_AUTH_URL.to_owned()
    }
}

/// Turns the finding that a file is there, or is not, into a result.
pub fn ensure_file_exists(exists: bool, path: &str, description: &str) -> (checked: Result<
    (),
    String,
>)
    ensures
        checked is Ok <==> exists,
        checked matches Err(message) ==> message@ == description@ + " 不存在: "@ + path@,
{
    if exists {
        Ok(())
    } else {
        let mut message: String = description.to_owned();
        message.append(" 不存在: ");
        message.append(path);
        Err(message)
    }
}

/// A recognition service takes its tokens from the service for tests exactly where the host of the
/// test service stands in its address, whatever stands around it.
pub proof fn law_test_services_take_test_tokens(
    front: Seq<char>,
    back: Seq<char>,
    other: Seq<char>,
)
    ensures
        auth_url_for(front + "aivoice-test.haier.net"@ + back)
            == "https://techless-test.haier.net/api/appauth/create/token"@,
        (forall|before: Seq<char>, after: Seq<char>| #[trigger]
            (before + "aivoice-test.haier.net"@ + after) != other) ==> auth_url_for(other)
            == "https://techless.haier.net/api/appauth/create/token"@,
{
    law_pieces_stand_between(front, TEST_SERVICE_HOST@, back);
    if has_piece(other, TEST_SERVICE_HOST@) {
        law_texts_part_at_their_pieces(other, TEST_SERVICE_HOST@);
    }
}

/// Nothing that is configured is lost on the way to what is known of it, and nothing is added.
pub proof fn law_configurations_are_known_by_their_fields<F>(config: LocalAsrConfig<F>)
    ensures
        config@.asr_model_dir == config.asr_model_dir@,
        config@.vad_model_dir == config.vad_model_dir@,
        config@.auto_download == config.auto_download,
        config@.download_url is Some <==> config.download_url is Some,
        config.download_url matches Some(url) ==> config@.download_url == Some(url@),
        config@.target_dir is Some <==> config.target_dir is Some,
        config.target_dir matches Some(dir) ==> config@.target_dir == Some(dir@),
        config@.vad_download_url is Some <==> config.vad_download_url is Some,
        config.vad_download_url matches Some(url) ==> config@.vad_download_url == Some(url@),
        config@.vad_target_dir is Some <==> config.vad_target_dir is Some,
        config.vad_target_dir matches Some(dir) ==> config@.vad_target_dir == Some(dir@),
        config@.sample_rate == config.sample_rate,
        config@.num_threads == config.num_threads,
        config@.use_itn == config.use_itn,
        config@.provider == config.provider@,
        config@.min_silence_duration == config.min_silence_duration,
        config@.min_speech_duration == config.min_speech_duration,
        config@.vad_threshold == config.vad_threshold,
{
}

} // verus!
