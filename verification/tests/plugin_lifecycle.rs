use relay_plugin::activation::{
    active_plugin_report, clear_plugin_configuration, clear_plugin_configuration_for_host,
    component_namespace, initialize_plugins, initialize_plugins_exact,
    initialize_plugins_with_diagnostics, plan_plugin_components, plugin_mutation_conflict,
    record_active_plugin_runtime_diagnostic, ActivationAnswers,
    PluginMutationOwner, PluginRuntime,
};
use relay_plugin::config::{
    ConfigDiagnostic, ConfigReport, DiagnosticLevel, PluginComponentSpec, PluginConfig,
    RuntimeDiagnostic, UnsupportedBehavior,
};
use relay_plugin::discovery::ResolvedPluginConfig;
use relay_plugin::dynamic::teardown::DynamicPluginTeardownOutcome;
use relay_plugin::error::PluginError;
use relay_plugin::handlers::{
    deregister_tracked_registrations_checked, ensure_builtin_plugins_registered,
    list_plugin_kinds, lookup_plugin, lookup_registered_plugin, record_deregistration,
    register_plugin, register_plugin_tracked, BuiltinPlugin, PluginDeregistrationOutcome,
    PluginHandlers, PluginRegistrationOwner,
};
use relay_plugin::json::Json;
use relay_plugin::registrations::{
    deregistration_result, rollback_registrations, rollback_registrations_checked,
    PluginRegistration,
    PluginRegistrationCleanupOutcome, PluginRegistrationContext, RegistrationSurface, RollbackRun,
};
use relay_plugin::validation::validate_plugin_config;

fn builtins() -> Vec<BuiltinPlugin> {
    vec![
        BuiltinPlugin { kind: "observability".to_string(), allows_multiple_components: false },
        BuiltinPlugin { kind: "adaptive".to_string(), allows_multiple_components: true },
    ]
}

fn component(kind: &str) -> PluginComponentSpec {
    PluginComponentSpec::new(kind.to_string())
}

fn config(kinds: &[&str]) -> PluginConfig {
    PluginConfig {
        components: kinds.iter().map(|k| component(k)).collect(),
        ..PluginConfig::default()
    }
}

fn diagnostic(level: DiagnosticLevel, message: &str) -> ConfigDiagnostic {
    ConfigDiagnostic {
        level,
        code: "c".to_string(),
        component: None,
        field: None,
        message: message.to_string(),
    }
}

fn registration(name: &str) -> PluginRegistration {
    PluginRegistration::new("plugin".to_string(), name.to_string())
}

fn rolled_back(answers: Vec<PluginRegistrationCleanupOutcome>) -> RollbackRun {
    let mut run = RollbackRun::begin(answers.len());
    for answer in answers {
        run = run.take(answer);
    }
    run
}

fn answers(
    teardown: Vec<PluginRegistrationCleanupOutcome>,
    activation: Result<Vec<PluginRegistration>, PluginError>,
) -> ActivationAnswers {
    ActivationAnswers {
        teardown: rolled_back(teardown),
        observed: vec![],
        activation,
        restoration: Ok(vec![registration("restored")]),
    }
}

fn activate(runtime: &mut PluginRuntime, name: &str) {
    initialize_plugins_with_diagnostics(
        runtime,
        config(&["acme"]),
        vec![],
        ConfigReport::default(),
        answers(vec![], Ok(vec![registration(name)])),
        vec![],
    )
    .unwrap();
}

fn runtime_diagnostic() -> RuntimeDiagnostic {
    RuntimeDiagnostic {
        code: "late".to_string(),
        component: "acme".to_string(),
        field: None,
        message: "m".to_string(),
        session_id: None,
        count: 1,
    }
}

#[test]
fn registered_kinds_are_listed_in_order() {
    let mut handlers = PluginHandlers::new();
    register_plugin(&mut handlers, "zeta", true).unwrap();
    register_plugin(&mut handlers, "acme", true).unwrap();
    assert_eq!(handlers.kinds(), ["acme", "zeta"]);
    assert_eq!(
        list_plugin_kinds(&mut handlers, &builtins()),
        ["acme", "adaptive", "observability", "zeta"]
    );
}

#[test]
fn a_kind_is_registered_once() {
    let mut handlers = PluginHandlers::new();
    register_plugin(&mut handlers, "acme", true).unwrap();
    assert_eq!(
        register_plugin(&mut handlers, "acme", true).unwrap_err().to_text(),
        "registration failed: plugin 'acme' is already registered"
    );
    handlers.register_builtin_plugin("core", false).unwrap();
    assert_eq!(
        register_plugin(&mut handlers, "core", true).unwrap_err().to_text(),
        "registration failed: plugin 'core' is already registered"
    );
    assert!(handlers.register_builtin_plugin("core", false).is_ok());
    assert_eq!(
        handlers.register_builtin_plugin("acme", false).unwrap_err().to_text(),
        "registration failed: reserved builtin plugin 'acme' is already registered"
    );
}

#[test]
fn builtin_registration_is_idempotent() {
    let mut handlers = PluginHandlers::new();
    ensure_builtin_plugins_registered(&mut handlers, &builtins()).unwrap();
    let first = lookup_registered_plugin(&handlers, "adaptive").unwrap();
    ensure_builtin_plugins_registered(&mut handlers, &builtins()).unwrap();
    assert_eq!(lookup_registered_plugin(&handlers, "adaptive"), Some(first));
    assert_eq!(first.owner, PluginRegistrationOwner::Builtin);
    assert!(handlers.all_builtins_registered(&builtins()));
}

#[test]
fn builtins_conflict_with_external_plugins() {
    let mut handlers = PluginHandlers::new();
    register_plugin(&mut handlers, "adaptive", true).unwrap();
    assert!(ensure_builtin_plugins_registered(&mut handlers, &builtins()).is_err());
    assert!(lookup_plugin(&mut handlers, &builtins(), "missing").is_none());
}

#[test]
fn only_the_own_registration_is_removed() {
    let mut handlers = PluginHandlers::new();
    let first = register_plugin_tracked(&mut handlers, "acme", true).unwrap();
    assert!(handlers.deregister_plugin("acme"));
    assert!(!handlers.deregister_plugin("acme"));
    let second = register_plugin_tracked(&mut handlers, "acme", true).unwrap();
    assert_ne!(first, second);
    assert_eq!(
        handlers.deregister_plugin_registration_checked("acme", first),
        PluginDeregistrationOutcome::Replaced
    );
    assert!(lookup_registered_plugin(&handlers, "acme").is_some());
    assert_eq!(
        handlers.deregister_plugin_registration_checked("acme", second),
        PluginDeregistrationOutcome::Removed
    );
    assert_eq!(
        handlers.deregister_plugin_registration_checked("acme", second),
        PluginDeregistrationOutcome::Missing
    );
}

#[test]
fn teardown_records_what_it_finds() {
    let mut handlers = PluginHandlers::new();
    let acme = register_plugin_tracked(&mut handlers, "acme", true).unwrap();
    let mut kept = vec![("acme".to_string(), acme), ("gone".to_string(), 99)];
    let outcome = deregister_tracked_registrations_checked(&mut handlers, &mut kept, "native");
    assert!(kept.is_empty());
    assert!(outcome.safe_to_unload);
    assert_eq!(
        outcome.errors,
        ["native plugin kind 'gone' was not registered during teardown"]
    );
    let mut other = DynamicPluginTeardownOutcome::success();
    record_deregistration(
        &mut other,
        "worker",
        "acme",
        Err(PluginError::Internal("poisoned".to_string())),
    );
    assert!(!other.safe_to_unload);
    assert_eq!(
        other.errors,
        ["failed to deregister worker plugin kind 'acme': internal error: poisoned"]
    );
}

#[test]
fn clean_configurations_have_no_findings() {
    let mut handlers = PluginHandlers::new();
    let given = config(&["adaptive", "adaptive", "observability"]);
    let report =
        validate_plugin_config(&mut handlers, &builtins(), &given, &vec![vec![], vec![], vec![]]);
    assert!(report.diagnostics.is_empty());
}

#[test]
fn repeated_singletons_are_errors() {
    let mut handlers = PluginHandlers::new();
    let given = config(&["observability", "observability"]);
    let report = validate_plugin_config(&mut handlers, &builtins(), &given, &vec![vec![], vec![]]);
    assert!(report.has_errors());
    assert_eq!(report.diagnostics[0].code, "plugin.duplicate_component");
    assert_eq!(
        report.diagnostics[0].message,
        "plugin component kind 'observability' may only appear once"
    );
}

#[test]
fn unknown_kinds_and_versions_follow_the_policy() {
    let mut handlers = PluginHandlers::new();
    let mut given = config(&["mystery"]);
    given.version = 7;
    given.policy.unknown_component = UnsupportedBehavior::Error;
    given.policy.unsupported_value = UnsupportedBehavior::Error;
    let report = validate_plugin_config(&mut handlers, &builtins(), &given, &vec![vec![]]);
    let messages: Vec<&str> = report.diagnostics.iter().map(|d| d.message.as_str()).collect();
    assert!(messages.contains(&"plugin config version 7 is unsupported"));
    assert!(messages.contains(&"plugin component kind 'mystery' is unsupported"));
    given.policy.unknown_component = UnsupportedBehavior::Ignore;
    given.policy.unsupported_value = UnsupportedBehavior::Ignore;
    let silent = validate_plugin_config(&mut handlers, &builtins(), &given, &vec![vec![]]);
    assert!(silent.diagnostics.is_empty());
}

#[test]
fn findings_of_plugins_are_reported() {
    let mut handlers = PluginHandlers::new();
    let hooks = vec![vec![diagnostic(DiagnosticLevel::Warning, "from the plugin")]];
    let report =
        validate_plugin_config(&mut handlers, &builtins(), &config(&["adaptive"]), &hooks);
    assert_eq!(report.diagnostics.len(), 1);
    assert_eq!(report.diagnostics[0].message, "from the plugin");
}

#[test]
fn registrations_get_the_namespace() {
    let mut context = PluginRegistrationContext::with_namespace("ns__".to_string());
    assert_eq!(context.qualify_name("gate"), "ns__gate");
    context.register_subscriber("sub", Ok(())).unwrap();
    let refused = context.register_tool_execution_intercept("tool", Err("taken".to_string()));
    assert_eq!(
        refused.unwrap_err().to_text(),
        "registration failed: tool execution intercept: taken"
    );
    context.add_registration(registration("extra"));
    let names: Vec<String> = context.into_registrations().into_iter().map(|r| r.name).collect();
    assert_eq!(names, ["ns__sub", "extra"]);
    assert_eq!(PluginRegistrationContext::new().qualify_name("gate"), "gate");
}

#[test]
fn deregistration_errors_name_the_surface() {
    assert!(deregistration_result(RegistrationSurface::Subscriber, Ok(())).is_ok());
    let shown = deregistration_result(RegistrationSurface::Subscriber, Err("boom".to_string()))
        .unwrap_err()
        .to_text();
    assert!(shown.starts_with("registration failed: ") && shown.contains("subscriber"));
}

#[test]
fn clean_rollbacks_report_nothing() {
    let mut registrations = vec![registration("a"), registration("b")];
    let outcome = rollback_registrations_checked(
        &mut registrations,
        &rolled_back(vec![
            PluginRegistrationCleanupOutcome::Removed,
            PluginRegistrationCleanupOutcome::Removed,
        ]),
    );
    assert!(registrations.is_empty());
    assert!(outcome.errors.is_empty() && outcome.callbacks_cleared);
}

#[test]
fn incomplete_rollbacks_are_reported_in_reverse() {
    let mut registrations = vec![registration("a"), registration("b"), registration("c")];
    let outcome = rollback_registrations_checked(
        &mut registrations,
        &rolled_back(vec![
            PluginRegistrationCleanupOutcome::NotRemoved(PluginError::Internal("x".to_string())),
            PluginRegistrationCleanupOutcome::RemovedWithError(PluginError::Internal(
                "y".to_string(),
            )),
            PluginRegistrationCleanupOutcome::Panicked("z".to_string()),
        ]),
    );
    assert!(!outcome.callbacks_cleared);
    assert_eq!(
        outcome.errors,
        [
            "plugin registration 'c' could not be removed: internal error: x",
            "plugin registration 'b' reported a delivery failure: internal error: y",
            "plugin registration 'a' could not be removed: deregistration panicked: z",
        ]
    );
}

#[test]
fn namespaces_tell_components_apart() {
    assert_eq!(component_namespace("acme", 1, 1), "__nemo_relay_plugin__acme__");
    assert_eq!(component_namespace("acme", 2, 3), "__nemo_relay_plugin__acme__2__");
    assert_ne!(component_namespace("acme", 1, 3), component_namespace("acme", 2, 3));
}

#[test]
fn plans_cover_enabled_components() {
    let mut handlers = PluginHandlers::new();
    register_plugin(&mut handlers, "acme", true).unwrap();
    let mut given = config(&["acme", "mystery", "acme"]);
    given.components[1].enabled = false;
    let (steps, problem) = plan_plugin_components(&handlers, &given);
    assert!(problem.is_none());
    let plan: Vec<(usize, &str)> =
        steps.iter().map(|s| (s.index, s.namespace.as_str())).collect();
    assert_eq!(
        plan,
        [(0, "__nemo_relay_plugin__acme__1__"), (2, "__nemo_relay_plugin__acme__2__")]
    );
    given.components[1].enabled = true;
    let (steps, problem) = plan_plugin_components(&handlers, &given);
    assert_eq!(steps.len(), 1);
    assert_eq!(
        problem.unwrap().to_text(),
        "not found: plugin component 'mystery' is not registered"
    );
}

#[test]
fn only_success_activates() {
    let mut runtime = PluginRuntime::new();
    assert!(!runtime.plugin_configuration_is_active());
    let failed = initialize_plugins_with_diagnostics(
        &mut runtime,
        config(&["acme"]),
        vec![],
        ConfigReport::default(),
        answers(vec![], Err(PluginError::Internal("no".to_string()))),
        vec![],
    );
    assert_eq!(failed.unwrap_err().to_text(), "internal error: no");
    assert!(!runtime.plugin_configuration_is_active());
    activate(&mut runtime, "one");
    assert!(runtime.plugin_configuration_is_active());
    assert!(active_plugin_report(&runtime).is_some());
}

#[test]
fn findings_that_are_errors_stop_an_activation() {
    let mut runtime = PluginRuntime::new();
    let refused = initialize_plugins_with_diagnostics(
        &mut runtime,
        config(&["acme"]),
        vec![diagnostic(DiagnosticLevel::Error, "first"), diagnostic(DiagnosticLevel::Error, "second")],
        ConfigReport::default(),
        answers(vec![], Ok(vec![])),
        vec![],
    );
    assert_eq!(refused.unwrap_err().to_text(), "invalid config: first; second");
    assert!(!runtime.plugin_configuration_is_active());
}

#[test]
fn failed_replacement_restores_the_previous_configuration() {
    let mut runtime = PluginRuntime::new();
    activate(&mut runtime, "one");
    let failed = initialize_plugins_with_diagnostics(
        &mut runtime,
        config(&["other"]),
        vec![],
        ConfigReport::default(),
        answers(
            vec![PluginRegistrationCleanupOutcome::Removed],
            Err(PluginError::Internal("no".to_string())),
        ),
        vec![],
    );
    assert_eq!(failed.unwrap_err().to_text(), "internal error: no");
    let active = runtime.active.as_ref().unwrap();
    assert_eq!(active.config.components[0].kind, "acme");
    assert_eq!(active.registrations, [registration("restored")]);
    assert_eq!(runtime.owner, PluginMutationOwner::Idle);
}

#[test]
fn callbacks_that_stay_stop_further_changes() {
    let mut runtime = PluginRuntime::new();
    activate(&mut runtime, "one");
    let failed = initialize_plugins_with_diagnostics(
        &mut runtime,
        config(&["other"]),
        vec![],
        ConfigReport::default(),
        answers(
            vec![PluginRegistrationCleanupOutcome::NotRemoved(PluginError::Internal(
                "stuck".to_string(),
            ))],
            Ok(vec![]),
        ),
        vec![],
    );
    let shown = failed.unwrap_err().to_text();
    assert!(shown.contains("previous plugin configuration could not be cleared: "));
    assert!(shown.contains("; initialization rollback was incomplete: "));
    assert_eq!(runtime.owner, PluginMutationOwner::Legacy);
    let refused = initialize_plugins_with_diagnostics(
        &mut runtime,
        config(&["other"]),
        vec![],
        ConfigReport::default(),
        answers(vec![], Ok(vec![])),
        vec![],
    );
    assert_eq!(
        refused.unwrap_err().to_text(),
        "conflict: another plugin configuration mutation is in progress"
    );
}

#[test]
fn clearing_deactivates() {
    let mut runtime = PluginRuntime::new();
    activate(&mut runtime, "one");
    clear_plugin_configuration(
        &mut runtime,
        None,
        &rolled_back(vec![PluginRegistrationCleanupOutcome::Removed]),
        &vec![],
    )
    .unwrap();
    assert!(!runtime.plugin_configuration_is_active());
    assert!(active_plugin_report(&runtime).is_none());
}

#[test]
fn reports_of_failed_teardowns_are_kept() {
    let mut runtime = PluginRuntime::new();
    activate(&mut runtime, "one");
    record_active_plugin_runtime_diagnostic(&mut runtime, runtime_diagnostic());
    let failed = clear_plugin_configuration(
        &mut runtime,
        Some("flush".to_string()),
        &rolled_back(vec![PluginRegistrationCleanupOutcome::Removed]),
        &vec![],
    );
    assert_eq!(failed.unwrap_err().to_text(), "internal error: flush");
    assert!(!runtime.plugin_configuration_is_active());
    let kept = active_plugin_report(&runtime).unwrap();
    assert_eq!(kept.runtime_diagnostics, [runtime_diagnostic()]);
}

#[test]
fn hosts_take_the_configuration() {
    let mut runtime = PluginRuntime::new();
    let owner = runtime.acquire_plugin_host_lease().unwrap();
    assert_eq!(
        runtime.acquire_plugin_host_lease().unwrap_err().to_text(),
        "conflict: plugin configuration is owned by an active dynamic plugin host"
    );
    assert!(runtime.acquire_legacy_lease().is_err());
    assert!(runtime.verify_plugin_host_owner(owner).is_ok());
    assert!(runtime.verify_plugin_host_owner(owner + 1).is_err());
    let stranger = clear_plugin_configuration_for_host(
        &mut runtime,
        owner + 1,
        None,
        &rolled_back(vec![]),
        &vec![],
    );
    assert!(stranger.result.is_err() && !stranger.callbacks_cleared);
    let own = clear_plugin_configuration_for_host(
        &mut runtime,
        owner,
        None,
        &rolled_back(vec![]),
        &vec![],
    );
    assert!(own.result.is_ok() && own.callbacks_cleared);
    runtime.release_plugin_host_lease(owner);
    assert!(runtime.acquire_legacy_lease().is_ok());
    runtime.release_legacy_lease();
    assert_eq!(runtime.owner, PluginMutationOwner::Idle);
    assert_eq!(
        plugin_mutation_conflict(PluginMutationOwner::Idle).to_text(),
        "conflict: plugin configuration is available"
    );
}

#[test]
fn hosts_do_not_take_a_static_configuration() {
    let mut runtime = PluginRuntime::new();
    activate(&mut runtime, "one");
    let shown = runtime.acquire_plugin_host_lease().unwrap_err().to_text();
    assert!(shown.starts_with("conflict: a static plugin configuration is already active; "));
}

#[test]
fn an_exact_configuration_is_reported_as_validated() {
    let mut runtime = PluginRuntime::new();
    let validation = ConfigReport {
        diagnostics: vec![diagnostic(DiagnosticLevel::Warning, "validated")],
        ..ConfigReport::default()
    };
    let report = initialize_plugins_exact(
        &mut runtime,
        config(&["acme"]),
        validation,
        answers(vec![], Ok(vec![registration("one")])),
        vec![],
    )
    .unwrap();
    assert_eq!(report.diagnostics.len(), 1);
    assert_eq!(report.diagnostics[0].message, "validated");
    assert_eq!(runtime.active.as_ref().unwrap().registrations, [registration("one")]);
}

#[test]
fn a_resolved_configuration_reports_how_it_came_about_first() {
    let resolved = || ResolvedPluginConfig {
        value: Json::Null,
        diagnostics: vec![diagnostic(DiagnosticLevel::Warning, "inherited")],
    };
    let mut runtime = PluginRuntime::new();
    let failed = initialize_plugins(
        &mut runtime,
        resolved(),
        Err("missing field".to_string()),
        ConfigReport::default(),
        answers(vec![], Ok(vec![registration("one")])),
        vec![],
    );
    assert_eq!(failed.unwrap_err().to_text(), "serialization error: missing field");
    assert!(!runtime.plugin_configuration_is_active());
    let validation = ConfigReport {
        diagnostics: vec![diagnostic(DiagnosticLevel::Warning, "validated")],
        ..ConfigReport::default()
    };
    let report = initialize_plugins(
        &mut runtime,
        resolved(),
        Ok(config(&["acme"])),
        validation,
        answers(vec![], Ok(vec![registration("one")])),
        vec![],
    )
    .unwrap();
    let messages: Vec<&str> = report.diagnostics.iter().map(|d| d.message.as_str()).collect();
    assert_eq!(messages, ["inherited", "validated"]);
    assert!(runtime.plugin_configuration_is_active());
}

#[test]
fn rollbacks_remove_each_registration_once_the_last_first() {
    let mut registrations = vec![registration("a"), registration("b"), registration("c")];
    let mut run = rollback_registrations(&mut registrations);
    assert!(registrations.is_empty());
    let mut called = Vec::new();
    while let Some(i) = run.next() {
        called.push(i);
        run = run.take(PluginRegistrationCleanupOutcome::Panicked("boom".to_string()));
    }
    assert_eq!(called, [2, 1, 0]);
    assert!(run.is_done() && !run.is_clean());
    let run = run.take(PluginRegistrationCleanupOutcome::Removed);
    assert_eq!((run.next(), run.count()), (None, 3));
}

#[test]
fn clearing_removes_callbacks_once_and_locks_out_where_one_stays() {
    let mut runtime = PluginRuntime::new();
    activate(&mut runtime, "one");
    let mut run = runtime.begin_removal();
    assert_eq!(run.next(), Some(0));
    run = run.take(PluginRegistrationCleanupOutcome::Panicked("boom".to_string()));
    assert_eq!(run.next(), None);
    let failed = clear_plugin_configuration(&mut runtime, None, &run, &vec![]).unwrap_err();
    assert!(failed.to_text().starts_with("registration failed: "));
    assert!(!runtime.plugin_configuration_is_active());
    let again = runtime.begin_removal();
    assert_eq!(again.next(), None);
    assert_eq!(
        clear_plugin_configuration(&mut runtime, None, &again, &vec![]).unwrap_err().to_text(),
        "conflict: another plugin configuration mutation is in progress"
    );
    assert!(runtime.acquire_plugin_host_lease().is_err());
}

#[test]
fn clearing_again_removes_nothing() {
    let mut runtime = PluginRuntime::new();
    activate(&mut runtime, "one");
    let run = runtime.begin_removal().take(PluginRegistrationCleanupOutcome::Removed);
    clear_plugin_configuration(&mut runtime, None, &run, &vec![]).unwrap();
    let run = runtime.begin_removal();
    assert_eq!(run.next(), None);
    clear_plugin_configuration(&mut runtime, None, &run, &vec![]).unwrap();
}
