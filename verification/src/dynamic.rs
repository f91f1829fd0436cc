//! Dynamic plugin control plane: manifests, durable records and their registry.

pub mod kinds;
pub mod manifest;
pub mod record;
pub mod registry;
pub mod teardown;
