//! NeMo Guardrails plugin: configuration, request building and verdicts.

pub mod bridge;
pub mod component;
pub mod guarded_call;
pub mod guarded_stream;
pub mod local;
pub mod remote;
pub mod remote_exchange;
pub mod remote_options;
pub mod remote_verdict;
pub mod stream_text;
pub mod validation;
