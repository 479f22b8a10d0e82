//! The engines behind a session.

pub mod framing_laws;
pub mod local;
pub mod online;
pub mod online_auth;
pub mod online_laws;
pub mod online_protocol;
pub mod outcome_laws;
pub mod response_laws;
pub mod step_laws;
pub mod token_laws;
