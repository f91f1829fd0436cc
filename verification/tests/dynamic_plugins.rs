use relay_plugin::dynamic::manifest::{
    has_uri_scheme, is_unc_path, reject_duplicate_capabilities, required_string,
    required_trimmed_string, DynamicPluginManifest, DynamicPluginManifestCapabilities,
    DynamicPluginManifestCompat, DynamicPluginManifestConfigSchema, DynamicPluginManifestDefaults,
    DynamicPluginManifestIntegrity, DynamicPluginManifestLoad, DynamicPluginManifestPlugin,
    DynamicPluginManifestRustDynamicLoad, DynamicPluginManifestSource,
    DynamicPluginManifestWorkerLoad, ManifestFile, RawDynamicPluginManifestLoad,
};
use relay_plugin::dynamic::record::{
    bump_generation, DynamicPluginAttestationMode, DynamicPluginCapability,
    DynamicPluginCheckState, DynamicPluginCompatibility, DynamicPluginFailure,
    DynamicPluginFailurePhase, DynamicPluginKind, DynamicPluginLoadContract,
    DynamicPluginMetadata, DynamicPluginRecord, DynamicPluginRuntimeState,
    DynamicPluginRuntimeStatus, DynamicPluginRustCompatibility, DynamicPluginRustLoadContract,
    DynamicPluginSource, DynamicPluginSpec, DynamicPluginStartupClass, DynamicPluginStatus,
    DynamicPluginValidationStatus, DynamicPluginWorkerCompatibility,
    DynamicPluginWorkerLoadContract, WorkerRuntime,
};
use relay_plugin::dynamic::registry::DynamicPluginRegistry;
use relay_plugin::dynamic::teardown::DynamicPluginTeardownOutcome;
use relay_plugin::error::PluginError;

fn assert_timestamp(time: &Option<String>) {
    let time = time.as_ref().unwrap();
    assert!(time.ends_with("+00:00"), "{time}");
    let bytes = time.as_bytes();
    assert!(bytes.len() >= 25);
    assert_eq!([bytes[4], bytes[7], bytes[10], bytes[13], bytes[16]], *b"--T::");
}

fn some(text: &str) -> Option<String> {
    Some(text.to_string())
}

fn worker_manifest() -> DynamicPluginManifest {
    DynamicPluginManifest {
        manifest_version: 1,
        plugin: DynamicPluginManifestPlugin {
            id: " acme.worker ".to_string(),
            name: some("Acme"),
            version: some("1.2.3"),
            kind: DynamicPluginKind::Worker,
        },
        compat: DynamicPluginManifestCompat {
            relay: some(">=0.8.0"),
            native_api: None,
            worker_protocol: some("grpc-v1"),
        },
        defaults: DynamicPluginManifestDefaults { enabled: false },
        capabilities: DynamicPluginManifestCapabilities {
            items: vec![DynamicPluginCapability::PluginWorker],
        },
        config_schema: None,
        load: DynamicPluginManifestLoad::Worker(DynamicPluginManifestWorkerLoad {
            runtime: Some(WorkerRuntime::Python),
            entrypoint: some(" acme:main "),
        }),
        source: Some(DynamicPluginManifestSource {
            manifest_root: None,
            artifact: some("acme.whl"),
        }),
        integrity: Some(DynamicPluginManifestIntegrity { sha256: some("abc"), signature: None }),
        description: None,
    }
}

fn native_manifest() -> DynamicPluginManifest {
    let mut manifest = worker_manifest();
    manifest.plugin.kind = DynamicPluginKind::RustDynamic;
    manifest.plugin.id = "acme.native".to_string();
    manifest.compat.native_api = some("1");
    manifest.compat.worker_protocol = None;
    manifest.capabilities.items = vec![DynamicPluginCapability::PluginNative];
    manifest.load = DynamicPluginManifestLoad::RustDynamic(DynamicPluginManifestRustDynamicLoad {
        library: some("libacme.so"),
        symbol: some("acme_entry"),
    });
    manifest
}

fn problem(manifest: &DynamicPluginManifest) -> String {
    manifest.validate().unwrap_err().to_text()
}

fn record(id: &str) -> DynamicPluginRecord {
    DynamicPluginRecord {
        metadata: DynamicPluginMetadata {
            id: id.to_string(),
            name: None,
            version: None,
            kind: DynamicPluginKind::RustDynamic,
            generation: 0,
            created_at: None,
            updated_at: None,
        },
        source: DynamicPluginSource::default(),
        spec: DynamicPluginSpec::default(),
        compatibility: DynamicPluginCompatibility::RustDynamic(DynamicPluginRustCompatibility {
            relay: ">=0.8.0".to_string(),
            native_api: "1".to_string(),
        }),
        load: DynamicPluginLoadContract::RustDynamic(DynamicPluginRustLoadContract {
            library: "libacme.so".to_string(),
            symbol: "acme_entry".to_string(),
        }),
        status: DynamicPluginStatus::default(),
    }
}

fn registry_with(ids: &[&str]) -> DynamicPluginRegistry {
    let mut registry = DynamicPluginRegistry::new();
    for id in ids {
        registry.add_at(record(id), "t0".to_string()).unwrap();
    }
    registry
}

fn ids(registry: &DynamicPluginRegistry, all: bool) -> Vec<String> {
    registry.list(all).iter().map(|r| r.metadata.id.clone()).collect()
}

#[test]
fn names_of_enumerations() {
    assert_eq!(DynamicPluginKind::RustDynamic.as_str(), "rust_dynamic");
    assert_eq!(DynamicPluginKind::Worker.as_str(), "worker");
    assert_eq!(WorkerRuntime::Python.as_str(), "python");
    assert_eq!(WorkerRuntime::Command.as_str(), "command");
    assert_eq!(DynamicPluginCapability::ConfigSchema.as_str(), "config_schema");
    assert_eq!(DynamicPluginStartupClass::Required.as_str(), "required");
    assert_eq!(DynamicPluginAttestationMode::IntegrityOnly.as_str(), "integrity_only");
    assert_eq!(DynamicPluginCheckState::Unknown.as_str(), "unknown");
    assert_eq!(DynamicPluginRuntimeState::Running.as_str(), "running");
    assert_eq!(DynamicPluginFailurePhase::Policy.as_str(), "policy");
}

#[test]
fn load_block_belongs_to_one_lane() {
    let raw = |runtime, entrypoint, library, symbol| RawDynamicPluginManifestLoad {
        runtime,
        entrypoint,
        library,
        symbol,
    };
    assert!(matches!(
        raw(Some(WorkerRuntime::Rust), None, None, None).into_load(),
        Ok(DynamicPluginManifestLoad::Worker(_))
    ));
    assert!(matches!(
        raw(None, None, some("lib"), None).into_load(),
        Ok(DynamicPluginManifestLoad::RustDynamic(_))
    ));
    assert_eq!(
        raw(Some(WorkerRuntime::Rust), None, some("lib"), None).into_load().unwrap_err(),
        "load must declare either worker fields (runtime, entrypoint) or rust_dynamic fields \
         (library, symbol), not both"
    );
    assert_eq!(
        raw(None, None, None, None).into_load().unwrap_err(),
        "load must declare either worker fields (runtime, entrypoint) or rust_dynamic fields \
         (library, symbol)"
    );
    let load = raw(None, some("main"), None, None).into_load().unwrap();
    assert_eq!(load.to_raw(), raw(None, some("main"), None, None));
}

#[test]
fn complete_manifests_are_valid() {
    assert!(worker_manifest().validate().is_ok());
    assert!(native_manifest().validate().is_ok());
}

#[test]
fn manifest_version_and_identity_are_checked() {
    let mut m = worker_manifest();
    m.manifest_version = 2;
    assert_eq!(
        problem(&m),
        "invalid config: unsupported relay-plugin.toml manifest_version 2; expected 1"
    );
    let mut m = worker_manifest();
    m.plugin.id = " ".to_string();
    assert_eq!(problem(&m), "invalid config: plugin.id must not be empty");
    let mut m = worker_manifest();
    m.defaults.enabled = true;
    assert_eq!(
        problem(&m),
        "invalid config: defaults.enabled=true is not supported for dynamic plugins; plugins are \
         added disabled and require explicit enablement"
    );
}

#[test]
fn capabilities_have_to_fit_the_lane() {
    let mut m = worker_manifest();
    m.capabilities.items = vec![];
    assert_eq!(
        problem(&m),
        "invalid config: capabilities.items must declare at least one capability"
    );
    m.capabilities.items = vec![DynamicPluginCapability::PluginNative];
    assert_eq!(
        problem(&m),
        "invalid config: worker plugins must declare capabilities.items containing plugin_worker"
    );
    m.capabilities.items =
        vec![DynamicPluginCapability::PluginWorker, DynamicPluginCapability::PluginNative];
    assert_eq!(problem(&m), "invalid config: worker plugins must not declare plugin_native");
    let mut n = native_manifest();
    n.capabilities.items = vec![DynamicPluginCapability::PluginWorker];
    assert_eq!(
        problem(&n),
        "invalid config: rust_dynamic plugins must declare capabilities.items containing \
         plugin_native"
    );
    let twice = vec![DynamicPluginCapability::PluginWorker, DynamicPluginCapability::PluginWorker];
    assert!(reject_duplicate_capabilities(&twice).is_err());
    assert!(reject_duplicate_capabilities(&vec![DynamicPluginCapability::PluginWorker]).is_ok());
}

#[test]
fn load_and_compatibility_have_to_fit_the_lane() {
    let mut m = worker_manifest();
    m.load = native_manifest().load;
    assert_eq!(
        problem(&m),
        "invalid config: worker plugins must not declare load.library or load.symbol"
    );
    let mut m = worker_manifest();
    m.load = DynamicPluginManifestLoad::Worker(DynamicPluginManifestWorkerLoad {
        runtime: None,
        entrypoint: some("main"),
    });
    assert_eq!(problem(&m), "invalid config: worker plugins must declare load.runtime");
    let mut m = worker_manifest();
    m.compat.worker_protocol = some("grpc-v2");
    assert_eq!(
        problem(&m),
        "invalid config: worker plugins must declare compat.worker_protocol = \"grpc-v1\""
    );
    let mut n = native_manifest();
    n.compat.native_api = some("2");
    assert_eq!(
        problem(&n),
        "invalid config: rust_dynamic plugins must declare compat.native_api = \"1\""
    );
    let mut n = native_manifest();
    n.compat.worker_protocol = some("grpc-v1");
    assert_eq!(
        problem(&n),
        "invalid config: rust_dynamic plugins must not declare compat.worker_protocol"
    );
    let mut n = native_manifest();
    n.compat.relay = None;
    assert_eq!(problem(&n), "invalid config: compat.relay is required");
}

#[test]
fn config_schema_is_a_local_path() {
    assert!(is_unc_path("\\\\host\\share"));
    assert!(is_unc_path("//host/share"));
    assert!(!is_unc_path("/etc/schema.json"));
    assert!(has_uri_scheme("https://example.com/schema.json"));
    assert!(has_uri_scheme("FILE:schema.json"));
    assert!(!has_uri_scheme("schemas/config.json"));
    let mut m = worker_manifest();
    m.config_schema =
        Some(DynamicPluginManifestConfigSchema { path: "schema.json".to_string() });
    assert_eq!(
        problem(&m),
        "invalid config: [config_schema] requires capabilities.items containing config_schema"
    );
    m.capabilities.items.push(DynamicPluginCapability::ConfigSchema);
    assert!(m.validate().is_ok());
    assert_eq!(
        m.resolve_config_schema_path("/plugins/acme/relay-plugin.toml").unwrap(),
        some("/plugins/acme/schema.json")
    );
    m.config_schema =
        Some(DynamicPluginManifestConfigSchema { path: "schemas/c.json".to_string() });
    assert_eq!(
        m.resolve_config_schema_path("/opt/p/relay-plugin.toml").unwrap(),
        some("/opt/p/schemas/c.json")
    );
    assert_eq!(
        m.resolve_config_schema_path("/relay-plugin.toml").unwrap(),
        some("/schemas/c.json")
    );
    assert!(m.resolve_config_schema_path("/").is_err());
    m.config_schema =
        Some(DynamicPluginManifestConfigSchema { path: "/abs/schema.json".to_string() });
    assert_eq!(
        m.resolve_config_schema_path("/plugins/acme/relay-plugin.toml").unwrap(),
        some("/abs/schema.json")
    );
    m.config_schema =
        Some(DynamicPluginManifestConfigSchema { path: "https://x/y".to_string() });
    assert_eq!(
        problem(&m),
        "invalid config: config_schema.path must be a local filesystem path, not a URI or network \
         share"
    );
}

#[test]
fn required_texts() {
    assert!(matches!(required_string(&some("x"), "f"), Ok("x")));
    assert!(matches!(required_trimmed_string(&some(" x "), "f"), Ok(" x ")));
    assert!(matches!(required_string(&some("  "), "f"), Ok("  ")));
    let refused = |r: Result<&str, PluginError>| r.unwrap_err().to_text();
    assert_eq!(refused(required_string(&None, "f")), "invalid config: f is required");
    assert_eq!(
        refused(required_trimmed_string(&some("  "), "f")),
        "invalid config: f must not be empty"
    );
}

#[test]
fn manifest_files_are_loaded() {
    let file = |exists, normalized, read, decoded| ManifestFile {
        display_ref: "dir/relay-plugin.toml".to_string(),
        exists,
        normalized,
        read,
        decoded,
    };
    let at = || Ok("/abs/relay-plugin.toml".to_string());
    let (manifest, path) =
        DynamicPluginManifest::load_from_path(file(Ok(true), at(), Ok(()), Ok(worker_manifest())))
            .unwrap();
    assert_eq!(manifest, worker_manifest());
    assert_eq!(path, "/abs/relay-plugin.toml");
    let refuse = |f| DynamicPluginManifest::load_from_path(f).unwrap_err().to_text();
    let boom = || "boom".to_string();
    assert_eq!(
        refuse(file(Err(boom()), at(), Ok(()), Ok(worker_manifest()))),
        "internal error: failed to inspect 'dir/relay-plugin.toml': boom"
    );
    assert_eq!(
        refuse(file(Ok(false), at(), Ok(()), Ok(worker_manifest()))),
        "not found: dynamic plugin manifest 'dir/relay-plugin.toml' does not exist"
    );
    assert_eq!(
        refuse(file(Ok(true), Err(boom()), Ok(()), Ok(worker_manifest()))),
        "internal error: failed to normalize dynamic plugin manifest 'dir/relay-plugin.toml': boom"
    );
    assert_eq!(
        refuse(file(Ok(true), at(), Err(boom()), Ok(worker_manifest()))),
        "internal error: failed to read dynamic plugin manifest '/abs/relay-plugin.toml': boom"
    );
    assert_eq!(
        refuse(file(Ok(true), at(), Ok(()), Err(boom()))),
        "invalid config: invalid relay-plugin.toml: boom"
    );
}

#[test]
fn manifest_becomes_a_disabled_record() {
    let made = worker_manifest()
        .into_record_at(some("/abs/relay-plugin.toml"), "2026-01-01".to_string())
        .unwrap();
    assert_eq!(made.metadata.id, "acme.worker");
    assert_eq!(made.metadata.kind, DynamicPluginKind::Worker);
    assert!(made.spec.present && !made.spec.enabled);
    assert_eq!(made.source.manifest_ref, some("/abs/relay-plugin.toml"));
    assert_eq!(made.source.artifact_ref, some("acme.whl"));
    assert_eq!(made.source.artifact_digest, some("abc"));
    assert_eq!(
        made.load,
        DynamicPluginLoadContract::Worker(DynamicPluginWorkerLoadContract {
            runtime: WorkerRuntime::Python,
            entrypoint: "acme:main".to_string(),
        })
    );
    assert_eq!(
        made.compatibility,
        DynamicPluginCompatibility::Worker(DynamicPluginWorkerCompatibility {
            relay: ">=0.8.0".to_string(),
            worker_protocol: "grpc-v1".to_string(),
        })
    );
    assert_eq!(made.status.validation.manifest, DynamicPluginCheckState::Valid);
    assert_eq!(made.status.validation.checked_at, some("2026-01-01"));
    assert_eq!(made.status.validation.message, some("manifest validated"));
    let mut registry = DynamicPluginRegistry::new();
    assert!(registry.add_at(made, "t".to_string()).is_ok());
}

#[test]
fn validation_time_is_a_timestamp() {
    let status = worker_manifest().validation_status();
    let at = status.checked_at.unwrap();
    assert!(at.len() >= 20 && at.as_bytes()[4] == b'-' && at.as_bytes()[10] == b'T');
}

#[test]
fn empty_registry_lists_nothing() {
    let registry = DynamicPluginRegistry::new();
    assert!(registry.list(true).is_empty());
    assert!(registry.get("acme").is_none());
}

#[test]
fn adding_stamps_and_trims() {
    let mut registry = DynamicPluginRegistry::new();
    registry.add_at(record("  acme  "), "t0".to_string()).unwrap();
    let added = registry.get("acme").unwrap();
    assert_eq!(added.metadata.id, "acme");
    assert_eq!(added.metadata.created_at, some("t0"));
    assert_eq!(added.metadata.updated_at, some("t0"));
    let refused = registry.add_at(record("acme"), "t1".to_string()).unwrap_err();
    assert_eq!(refused.to_text(), "conflict: dynamic plugin 'acme' is already registered");
}

#[test]
fn records_have_to_agree_with_their_lane() {
    let mut registry = DynamicPluginRegistry::new();
    let mut blank = record("acme");
    blank.metadata.id = " ".to_string();
    assert!(registry.add_at(blank, "t".to_string()).is_err());
    let mut mixed = record("acme");
    mixed.metadata.kind = DynamicPluginKind::Worker;
    assert!(registry.add_at(mixed, "t".to_string()).is_err());
    assert!(registry.list(true).is_empty());
}

#[test]
fn listing_is_ordered_and_hides_tombstones() {
    let mut registry = registry_with(&["c", "a", "b"]);
    assert_eq!(ids(&registry, true), ["a", "b", "c"]);
    assert!(registry.remove_at("b", "t1".to_string()).unwrap());
    assert_eq!(ids(&registry, false), ["a", "c"]);
    assert_eq!(ids(&registry, true), ["a", "b", "c"]);
    assert_eq!(registry.cloned_records(false).len(), 2);
}

#[test]
fn generation_follows_desired_state() {
    let mut registry = registry_with(&["acme"]);
    let before = registry.get("acme").unwrap().metadata.generation;
    assert!(registry.set_enabled_at("acme", true, "t1".to_string()).unwrap());
    assert_eq!(registry.get("acme").unwrap().metadata.generation, before + 1);
    assert!(!registry.set_enabled_at("acme", true, "t2".to_string()).unwrap());
    let now = registry.get("acme").unwrap();
    assert_eq!(now.metadata.generation, before + 1);
    assert_eq!(now.metadata.updated_at, some("t1"));
    assert!(registry.disable("acme").unwrap());
    assert!(registry.enable("acme").unwrap());
    assert!(registry.enable("missing").is_err());
}

#[test]
fn readded_record_continues_its_lineage() {
    let mut registry = registry_with(&["acme"]);
    registry.remove_at("acme", "t1".to_string()).unwrap();
    let removed = registry.get("acme").unwrap().clone();
    assert!(removed.is_tombstoned());
    assert_eq!(
        registry.set_enabled_at("acme", true, "t2".to_string()).unwrap_err().to_text(),
        "conflict: dynamic plugin 'acme' has been removed"
    );
    assert!(!registry.remove_at("acme", "t2".to_string()).unwrap());
    registry.add_at(record("acme"), "t3".to_string()).unwrap();
    let again = registry.get("acme").unwrap();
    assert_eq!(again.metadata.generation, removed.metadata.generation + 1);
    assert_eq!(again.metadata.created_at, some("t0"));
    assert_eq!(again.metadata.updated_at, some("t3"));
    assert!(!again.is_tombstoned());
}

#[test]
fn status_updates_are_kept() {
    let mut registry = registry_with(&["acme"]);
    let validation = DynamicPluginValidationStatus {
        manifest: DynamicPluginCheckState::Invalid,
        ..DynamicPluginValidationStatus::default()
    };
    registry.update_validation_status_at("acme", validation, "t1".to_string()).unwrap();
    let runtime = DynamicPluginRuntimeStatus {
        state: DynamicPluginRuntimeState::Running,
        observed_generation: 0,
        ..DynamicPluginRuntimeStatus::default()
    };
    registry.update_runtime_status_at("acme", runtime, "t2".to_string()).unwrap();
    let failure = DynamicPluginFailure {
        phase: DynamicPluginFailurePhase::Runtime,
        code: "crash".to_string(),
        message: "gone".to_string(),
    };
    registry.update_last_error("acme", Some(failure)).unwrap();
    registry
        .update_environment_at(
            "acme",
            some("/venv"),
            DynamicPluginCheckState::Valid,
            "t3".to_string(),
        )
        .unwrap();
    registry
        .update_policy_status(
            "acme",
            DynamicPluginCheckState::Valid,
            DynamicPluginStartupClass::Required,
            DynamicPluginAttestationMode::SignatureRequired,
            None,
        )
        .unwrap();
    let kept = registry.get("acme").unwrap();
    assert_eq!(kept.status.validation.manifest, DynamicPluginCheckState::Invalid);
    assert_eq!(kept.status.validation.environment, DynamicPluginCheckState::Valid);
    assert_eq!(kept.status.validation.policy_satisfied, DynamicPluginCheckState::Valid);
    assert_eq!(kept.status.runtime.state, DynamicPluginRuntimeState::Running);
    assert_eq!(kept.source.environment_ref, some("/venv"));
    assert_eq!(kept.status.startup_class, Some(DynamicPluginStartupClass::Required));
    assert_eq!(kept.status.last_error, None);
    assert!(kept.is_reconciled());
    let missing = registry.update_last_error("other", None).unwrap_err();
    assert_eq!(missing.to_text(), "not found: dynamic plugin 'other' is not registered");
}

#[test]
fn generation_bumps_touch_the_record() {
    let mut r = record("acme");
    bump_generation(&mut r, "t9".to_string());
    assert_eq!(r.metadata.generation, 1);
    assert_eq!(r.metadata.updated_at, some("t9"));
    assert!(!r.is_reconciled());
}

#[test]
fn records_round_trip() {
    let mut registry = registry_with(&["b", "a", "c"]);
    assert!(registry.remove_at("b", "t1".to_string()).unwrap());
    let stored = registry.cloned_records(true);
    let restored = DynamicPluginRegistry::from_records(stored.clone()).unwrap();
    assert_eq!(restored.cloned_records(true), stored);
    assert_eq!(restored.cloned_records(false), registry.cloned_records(false));
    assert_eq!(restored.cloned_records(false).len(), 2);
    let mut twice = stored.clone();
    twice.push(stored[0].clone());
    assert!(DynamicPluginRegistry::from_records(twice).is_err());
}

#[test]
fn manifests_are_added_as_records() {
    let mut registry = DynamicPluginRegistry::new();
    let added = registry.add_manifest(worker_manifest(), None).unwrap();
    assert_eq!(added.metadata.id, "acme.worker");
    assert!(matches!(
        registry.add_manifest(worker_manifest(), None),
        Err(PluginError::Conflict(_))
    ));
    let mut broken = native_manifest();
    broken.manifest_version = 0;
    assert!(registry.add_manifest(broken, None).is_err());
    let first = registry.add(record("direct")).unwrap();
    assert_timestamp(&first.metadata.created_at);
    assert_timestamp(&first.metadata.updated_at);
    assert!(registry.enable("direct").unwrap());
    assert_timestamp(&registry.get("direct").unwrap().metadata.updated_at);
    assert_timestamp(&worker_manifest().validation_status().checked_at);
}

#[test]
fn teardown_outcomes_are_merged() {
    let mut outcome = DynamicPluginTeardownOutcome::success();
    assert!(outcome.safe_to_unload && outcome.errors.is_empty());
    let mut other = DynamicPluginTeardownOutcome::success();
    other.record_error("late".to_string(), false);
    outcome.record_error("early".to_string(), true);
    outcome.merge(other);
    assert_eq!(outcome.errors, ["early", "late"]);
    assert!(!outcome.safe_to_unload);
}
