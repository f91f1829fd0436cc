//! Plugin infrastructure of a relay: configuration, discovery, dynamic plugins, and the native,
//! worker and guardrails plugins, with everything that decides proved against its contract.

use vstd::prelude::*;

pub mod activation;
pub mod activation_steps;
pub mod component_setup;
pub mod config;
pub mod digest;
pub mod discovery;
pub mod dynamic;
pub mod error;
pub mod guardrails;
pub mod handlers;
pub mod json;
pub mod json_text;
pub mod layering;
pub mod native;
pub mod paths;
pub mod registrations;
pub mod relay_version;
pub mod text;
pub mod text_map;
pub mod validation;
pub mod worker;

verus! {

} // verus!
