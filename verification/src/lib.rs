//! Realtime speech recognition behind one session interface.
//!
//! A session drives an engine that recognises speech, local or online, and tells subscribers what
//! happens. The library holds what is decided, and of the outside world it touches the clock alone,
//! which [`session::HybridAsrSession`] reads to date its events:
//!
//! - [`session`] and [`event`]: the states of a session, and the hub that tells of them;
//! - [`engine::online`]: what the online engine sends and reads, and when, as a machine;
//! - [`engine::online_protocol`] and [`engine::online_auth`]: the messages of the online service,
//!   and the tokens that it wants;
//! - [`engine::local`]: the set-up of the local recogniser, and its results;
//! - [`assets`]: how the models of local recognition are found, downloaded and announced, as a
//!   machine too.
//!
//! A machine says what it wants done; a caller with a disk and a network does it and hands back
//! what came of it.

pub mod assets;
pub mod backend;
pub mod config;
pub mod engine;
pub mod error;
pub mod event;
pub mod event_laws;
pub mod json;
pub mod paths;
pub mod session;
pub mod session_laws;
pub mod text;
pub mod text_laws;
pub mod types;

pub use crate::assets::preparation::{
    download_local_asr_assets, prepare_local_asr_assets, AssetPreparation,
};
pub use crate::assets::{inspect_local_asr_assets_download, PreparedLocalAsrAssets};
pub use crate::backend::RealtimeAsrBackend;
pub use crate::config::{
    infer_app_auth_url_from_online_url, HybridAsrConfig, LocalAsrConfig, OnlineAsrConfig,
    DEFAULT_ONLINE_ASR_URL, DEFAULT_ONLINE_AUDIO_FORMAT, DEFAULT_ONLINE_FRAME_BYTES,
    DEFAULT_ONLINE_VISIT_K_CODE, MAX_ONLINE_FRAME_BYTES,
};
pub use crate::error::{HybridAsrError, HybridAsrResult};
pub use crate::event::{
    AsrEvent, AsrEventHub, AsrStateChangeReason, AsrStateTransitionEvent, ModelLifecycleEvent,
    ModelLifecyclePhase, ModelResourceKind, SessionEvent,
};
pub use crate::session::HybridAsrSession;
pub use crate::types::{AsrMode, AsrResult, AsrState};
