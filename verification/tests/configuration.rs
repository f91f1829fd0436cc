use relay_plugin::config::{
    apply_global_config_policy, record_runtime_diagnostic, ConfigDiagnostic, ConfigPolicy,
    ConfigReport, DiagnosticLevel, PluginComponentSpec, PluginConfig, RuntimeDiagnostic,
    UnsupportedBehavior,
};
use relay_plugin::discovery::{
    component_enabled_sources, deduplicate_plugin_config_paths, default_plugin_config_paths,
    filter_disabled_plugin_components, load_plugin_config_files, merge_plugin_config_documents,
    parse_plugin_config_document, plugin_config_overlay_value, read_plugin_config_files,
    resolve_discovered_plugin_config, resolve_programmatic_plugin_config, system_config_dir,
    user_config_base, user_config_dir, PluginConfigDocument, PluginConfigFile,
};
use relay_plugin::json::{json_eq, put, text_json, Json};
use relay_plugin::layering::{
    layer_config, merge_json_value, merge_plugin_components, merge_plugin_config_value,
    nth_component_by_kind,
};
use relay_plugin::paths::{is_absolute_for, join_for, resolve_manifest_relative_path};

fn toml(text: &str) -> Json {
    parse_plugin_config_document("inline", text).unwrap().value
}

fn same(a: &Json, b: &Json) -> bool {
    json_eq(a, b)
}

fn document(path: &str, text: &str) -> PluginConfigDocument {
    parse_plugin_config_document(path, text).unwrap()
}

fn file(path: &str, text: &str) -> PluginConfigFile {
    PluginConfigFile { path: path.to_string(), contents: Some(Ok(text.to_string())) }
}

fn component(kind: &str, enabled: bool) -> PluginComponentSpec {
    PluginComponentSpec { enabled, ..PluginComponentSpec::new(kind.to_string()) }
}

fn runtime_diagnostic(code: &str, session: Option<&str>, count: u64) -> RuntimeDiagnostic {
    RuntimeDiagnostic {
        code: code.to_string(),
        component: "acme".to_string(),
        field: None,
        message: "m".to_string(),
        session_id: session.map(|s| s.to_string()),
        count,
    }
}

#[test]
fn configuration_defaults() {
    let config = PluginConfig::default();
    assert_eq!(config.version, 1);
    assert!(config.components.is_empty());
    assert_eq!(config.policy, ConfigPolicy::default());
    let spec = PluginComponentSpec::new("acme".to_string());
    assert!(spec.enabled && spec.kind == "acme" && spec.config.len() == 0);
}

#[test]
fn global_policy_overrides_by_field() {
    let component = ConfigPolicy {
        unknown_component: UnsupportedBehavior::Ignore,
        unknown_field: UnsupportedBehavior::Ignore,
        unsupported_value: UnsupportedBehavior::Warn,
    };
    let mut global = ConfigPolicy::default();
    let unchanged = apply_global_config_policy(component, &global);
    assert_eq!(unchanged, component);
    global.unsupported_value = UnsupportedBehavior::Ignore;
    let changed = apply_global_config_policy(component, &global);
    assert_eq!(changed.unsupported_value, UnsupportedBehavior::Ignore);
    assert_eq!(changed.unknown_field, UnsupportedBehavior::Ignore);
}

#[test]
fn reports_tell_errors_from_warnings() {
    let diagnostic = |level| ConfigDiagnostic {
        level,
        code: "c".to_string(),
        component: None,
        field: None,
        message: "m".to_string(),
    };
    let mut report = ConfigReport::default();
    assert!(!report.has_errors());
    report.diagnostics.push(diagnostic(DiagnosticLevel::Warning));
    assert!(!report.has_errors());
    report.diagnostics.push(diagnostic(DiagnosticLevel::Error));
    assert!(report.has_errors());
}

#[test]
fn repeated_runtime_diagnostics_are_counted() {
    let mut entries = Vec::new();
    record_runtime_diagnostic(&mut entries, runtime_diagnostic("a", None, 1));
    record_runtime_diagnostic(&mut entries, runtime_diagnostic("b", None, 1));
    record_runtime_diagnostic(&mut entries, runtime_diagnostic("a", Some("s"), 2));
    assert_eq!(entries.len(), 2);
    assert_eq!(entries[0], runtime_diagnostic("a", Some("s"), 3));
    record_runtime_diagnostic(&mut entries, runtime_diagnostic("a", None, u64::MAX));
    assert_eq!(entries[0].count, u64::MAX);
}

#[test]
fn runtime_diagnostics_are_bounded_by_distinct_failures() {
    let mut entries = Vec::new();
    for i in 0..500 {
        let session = format!("s{i}");
        let code = format!("c{}", i % 3);
        record_runtime_diagnostic(&mut entries, runtime_diagnostic(&code, Some(&session), 1));
    }
    assert_eq!(entries.len(), 3);
    assert_eq!(entries.iter().map(|e| e.count).sum::<u64>(), 500);
}

#[test]
fn objects_merge_and_other_values_are_replaced() {
    let mut left = toml("a = 1\n[t]\nx = 1\ny = [1, 2]\n");
    merge_json_value(&mut left, toml("b = 2\n[t]\ny = [3]\nz = true\n"));
    assert!(same(&left, &toml("a = 1\nb = 2\n[t]\nx = 1\ny = [3]\nz = true\n")));
}

#[test]
fn empty_overlays_change_nothing() {
    let text = "a = 1\n[t]\nx = [1]\n";
    let mut left = toml(text);
    merge_json_value(&mut left, toml(""));
    assert!(same(&left, &toml(text)));
    let mut empty = toml("");
    merge_json_value(&mut empty, toml(text));
    assert!(same(&empty, &toml(text)));
}

#[test]
fn component_lists_concatenate_with_the_higher_first() {
    let mut low = toml("rules = [1, 2]\n[nested]\nitems = [1]\n");
    merge_plugin_config_value(&mut low, toml("rules = [3]\n[nested]\nitems = [2]\n"), false);
    assert!(same(&low, &toml("rules = [3, 1, 2]\n[nested]\nitems = [2]\n")));
}

#[test]
fn observability_collections_concatenate() {
    let mut low = toml("[atof]\nsinks = [1]\n[opentelemetry.logs]\nendpoints = [1]\n");
    let high = toml("[atof]\nsinks = [2]\n[opentelemetry.logs]\nendpoints = []\n");
    merge_plugin_config_value(&mut low, high, true);
    assert!(same(
        &low,
        &toml("[atof]\nsinks = [2, 1]\n[opentelemetry.logs]\nendpoints = []\n")
    ));
}

#[test]
fn components_pair_by_kind_and_position() {
    let list = |text: &str| match toml(text) {
        Json::Object(mut m) => m.remove("components").unwrap(),
        _ => panic!("not an object"),
    };
    let mut left = list(
        "[[components]]\nkind = \"a\"\nx = 1\n[[components]]\nkind = \"b\"\nx = 1\n\
         [[components]]\nkind = \"a\"\nx = 2\n",
    );
    merge_plugin_components(
        &mut left,
        list(
            "[[components]]\nkind = \"a\"\ny = 1\n[[components]]\nkind = \"a\"\ny = 2\n\
             [[components]]\nkind = \"a\"\ny = 3\n",
        ),
    );
    assert!(same(
        &left,
        &list(
            "[[components]]\nkind = \"a\"\nx = 1\ny = 1\n[[components]]\nkind = \"b\"\nx = 1\n\
             [[components]]\nkind = \"a\"\nx = 2\ny = 2\n[[components]]\nkind = \"a\"\ny = 3\n",
        )
    ));
    let items = left.as_array().unwrap();
    assert_eq!(nth_component_by_kind(items, items.len(), "a", 1), Some(2));
    assert_eq!(nth_component_by_kind(items, items.len(), "a", 9), None);
}

#[test]
fn documents_are_layered_by_component() {
    let mut base = toml("version = 1\n[[components]]\nkind = \"a\"\n[components.config]\nx = 1\n");
    layer_config(
        &mut base,
        toml("[policy]\nunknown_field = \"error\"\n[[components]]\nkind = \"a\"\n[components.config]\ny = 2\n"),
    );
    assert!(same(
        &base,
        &toml(
            "version = 1\n[policy]\nunknown_field = \"error\"\n[[components]]\nkind = \"a\"\n\
             [components.config]\nx = 1\ny = 2\n"
        )
    ));
}

#[test]
fn unreadable_documents_are_refused() {
    let refused = |r: Result<PluginConfigDocument, relay_plugin::error::PluginError>| match r {
        Ok(_) => panic!("accepted"),
        Err(e) => e.to_text(),
    };
    let shown = refused(parse_plugin_config_document("/etc/plugins.toml", "a = "));
    assert!(shown.starts_with("invalid config: invalid plugin TOML in /etc/plugins.toml: "));
}

#[test]
fn toml_values_become_json() {
    let value = toml("n = 3\nm = -4\nb = true\ns = \"x\"\nf = 1.5\n");
    assert_eq!(value.get("s").unwrap().as_str(), Some("x"));
    assert_eq!(value.get("b").unwrap().as_bool(), Some(true));
    assert!(matches!(
        value.get("n"),
        Some(Json::Number(relay_plugin::json::JsonNumber::Unsigned(3)))
    ));
    assert!(matches!(
        value.get("m"),
        Some(Json::Number(relay_plugin::json::JsonNumber::Negative(-4)))
    ));
    assert!(matches!(
        value.get("f"),
        Some(Json::Number(relay_plugin::json::JsonNumber::Float(_)))
    ));
}

#[test]
fn missing_files_are_skipped_and_unreadable_ones_refused() {
    let missing = PluginConfigFile { path: "a".to_string(), contents: None };
    let read = read_plugin_config_files(&vec![missing, file("b", "x = 1")]);
    match read {
        Ok(documents) => {
            assert_eq!(documents.len(), 1);
            assert_eq!(documents[0].path, "b");
        }
        Err(e) => panic!("{}", e.to_text()),
    }
    let broken = PluginConfigFile {
        path: "c".to_string(),
        contents: Some(Err("denied".to_string())),
    };
    match read_plugin_config_files(&vec![broken]) {
        Ok(_) => panic!("accepted"),
        Err(e) => assert_eq!(e.to_text(), "invalid config: failed to read c: denied"),
    }
}

#[test]
fn later_files_take_precedence() {
    let loaded = load_plugin_config_files(&vec![
        file("user", "version = 1\n[[components]]\nkind = \"a\"\n[components.config]\nx = 1\n"),
        file("system", "[[components]]\nkind = \"a\"\n[components.config]\nx = 2\n"),
    ]);
    match loaded {
        Ok(Some((value, sources))) => {
            assert_eq!(sources, ["user", "system"]);
            assert!(same(
                &value,
                &toml("version = 1\n[[components]]\nkind = \"a\"\n[components.config]\nx = 2\n")
            ));
        }
        _ => panic!("nothing loaded"),
    }
    assert!(matches!(load_plugin_config_files(&vec![]), Ok(None)));
}

#[test]
fn document_versions_are_checked() {
    let refuse = |text: &str| match merge_plugin_config_documents(&vec![document("f", text)]) {
        Ok(_) => panic!("accepted"),
        Err(e) => e.to_text(),
    };
    assert_eq!(
        refuse("version = 2"),
        "invalid config: plugin config version 2 in f is unsupported; expected 1"
    );
    assert!(refuse("version = \"1\"")
        .starts_with("invalid config: invalid plugin config version in f: "));
    assert!(refuse("version = -1").starts_with("invalid config: invalid plugin config version"));
}

#[test]
fn component_kinds_are_declared_once_for_each_file() {
    let twice = "[[components]]\nkind = \"b\"\n[[components]]\nkind = \"a\"\n\
                 [[components]]\nkind = \"b\"\n[[components]]\nkind = \"a\"\n";
    match merge_plugin_config_documents(&vec![document("f", twice)]) {
        Ok(_) => panic!("accepted"),
        Err(e) => assert_eq!(
            e.to_text(),
            "invalid config: duplicate plugin component kind in f: a, b; declare each kind once \
             per plugins.toml"
        ),
    }
}

#[test]
fn disabled_components_of_files_are_filtered() {
    let mut value = toml(
        "[[components]]\nkind = \"a\"\nenabled = false\n[[components]]\nkind = \"b\"\n\
         [[components]]\nkind = \"c\"\nenabled = true\n",
    );
    filter_disabled_plugin_components(&mut value);
    assert!(same(
        &value,
        &toml("[[components]]\nkind = \"b\"\n[[components]]\nkind = \"c\"\nenabled = true\n")
    ));
}

#[test]
fn duplicate_paths_keep_the_last() {
    let texts = |items: &[&str]| items.iter().map(|s| s.to_string()).collect::<Vec<String>>();
    assert_eq!(
        deduplicate_plugin_config_paths(
            &texts(&["link", "other", "real"]),
            &texts(&["/real", "/other", "/real"])
        ),
        ["other", "real"]
    );
    assert_eq!(
        deduplicate_plugin_config_paths(&texts(&["a", "b"]), &texts(&["1", "2"])),
        ["a", "b"]
    );
}

#[test]
fn configuration_directories() {
    assert_eq!(
        default_plugin_config_paths(Some("/home/u/.config/nemo-relay"), false, None),
        ["/home/u/.config/nemo-relay/plugins.toml", "/etc/nemo-relay/plugins.toml"]
    );
    assert_eq!(
        default_plugin_config_paths(Some("/u"), false, None),
        ["/u/plugins.toml", "/etc/nemo-relay/plugins.toml"]
    );
    assert_eq!(
        default_plugin_config_paths(None, false, Some("ignored")),
        ["/etc/nemo-relay/plugins.toml"]
    );
    assert_eq!(system_config_dir(false, None), "/etc/nemo-relay");
    assert!(system_config_dir(true, Some("D:")).starts_with("D:"));
    assert!(system_config_dir(true, None).starts_with("C:\\ProgramData"));
    assert!(system_config_dir(true, None).ends_with("nemo-relay"));
    let text = |s: &str| Some(s.to_string());
    assert_eq!(
        user_config_base(text("/xdg"), text("/home"), None),
        Some(("/xdg".to_string(), "nemo-relay"))
    );
    assert_eq!(
        user_config_base(None, None, text("C:/u")),
        Some(("C:/u".to_string(), ".config/nemo-relay"))
    );
    assert_eq!(user_config_base(None, None, None), None);
    assert_eq!(user_config_dir(false, text("/xdg"), None, None), text("/xdg/nemo-relay"));
    assert_eq!(
        user_config_dir(false, None, text("/home/u"), text("/p")),
        text("/home/u/.config/nemo-relay")
    );
    assert_eq!(user_config_dir(false, None, None, None), None);
}

#[test]
fn paths_are_joined_for_a_platform() {
    assert_eq!(join_for(false, "/etc/nemo-relay", "plugins.toml"), "/etc/nemo-relay/plugins.toml");
    assert_eq!(join_for(false, "/etc/", "a/b"), "/etc/a/b");
    assert_eq!(join_for(false, "", "a"), "a");
    assert_eq!(join_for(false, "/etc", "/a"), "/a");
    assert!(join_for(true, "C:\\x", "a").ends_with("a"));
    assert!(is_absolute_for(false, "/a") && !is_absolute_for(false, "a"));
    assert!(!is_absolute_for(false, "") && !is_absolute_for(true, "a\\b"));
    let beside = |manifest: &str, value: &str| resolve_manifest_relative_path(manifest, value);
    assert_eq!(beside("/opt/p/relay-plugin.toml", "lib/x.so"), "/opt/p/lib/x.so");
    assert_eq!(beside("/relay-plugin.toml", "x.so"), "/x.so");
    assert_eq!(beside("/opt/p/relay-plugin.toml", "/usr/lib/x.so"), "/usr/lib/x.so");
    assert_eq!(beside("/", "x.so"), "x.so");
}

#[test]
fn default_values_stay_out_of_the_overlay() {
    let mut config = PluginConfig::default();
    config.components.push(component("a", false));
    assert!(same(
        &plugin_config_overlay_value(&config),
        &toml("[[components]]\nkind = \"a\"\nenabled = false\nconfig = {}\n")
    ));
    config.version = 3;
    config.policy.unknown_field = UnsupportedBehavior::Ignore;
    assert!(same(
        &plugin_config_overlay_value(&config),
        &toml(
            "version = 3\n[policy]\nunknown_field = \"ignore\"\n[[components]]\nkind = \"a\"\n\
             enabled = false\nconfig = {}\n"
        )
    ));
}

#[test]
fn programmatic_configuration_is_layered_over_files() {
    let discovered = match resolve_discovered_plugin_config(&vec![document(
        "/etc/plugins.toml",
        "[[components]]\nkind = \"a\"\n[components.config]\nx = 1\n[[components]]\nkind = \"b\"\nenabled = false\n",
    )]) {
        Ok(d) => d,
        Err(e) => panic!("{}", e.to_text()),
    };
    let mut config = PluginConfig::default();
    let mut a = component("a", true);
    put(&mut a.config, "y", text_json("two"));
    config.components.push(a);
    config.components.push(component("b", true));
    let resolved = resolve_programmatic_plugin_config(discovered, &config);
    assert!(same(
        &resolved.value,
        &toml(
            "[[components]]\nkind = \"a\"\nenabled = true\n[components.config]\nx = 1\ny = \"two\"\n\
             [[components]]\nkind = \"b\"\nenabled = true\nconfig = {}\n"
        )
    ));
    let messages: Vec<&str> = resolved.diagnostics.iter().map(|d| d.message.as_str()).collect();
    assert_eq!(
        messages,
        [
            "inherited plugin configuration from discovered file: /etc/plugins.toml",
            "programmatic configuration enabled plugin component 'b' and overrode enabled = false \
             from /etc/plugins.toml",
        ]
    );
    assert_eq!(resolved.diagnostics[1].code, "plugin.component_reenabled");
    assert_eq!(resolved.diagnostics[1].field.as_deref(), Some("enabled"));
}

#[test]
fn nothing_discovered_leaves_the_overlay() {
    let discovered = match resolve_discovered_plugin_config(&vec![]) {
        Ok(d) => d,
        Err(e) => panic!("{}", e.to_text()),
    };
    let mut config = PluginConfig::default();
    config.components.push(component("a", true));
    let resolved = resolve_programmatic_plugin_config(discovered, &config);
    assert!(resolved.diagnostics.is_empty());
    assert!(same(&resolved.value, &plugin_config_overlay_value(&config)));
}

#[test]
fn enabled_sources_name_the_last_file() {
    let sources = component_enabled_sources(&vec![
        document("one", "[[components]]\nkind = \"a\"\nenabled = false\n"),
        document("two", "[[components]]\nkind = \"a\"\nenabled = true\n"),
    ]);
    let source = sources.get("a").unwrap();
    assert!(source.enabled && source.path == "two");
}
