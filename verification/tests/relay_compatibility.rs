use relay_plugin::error::PluginError;
use relay_plugin::relay_version::{
    any_clause_reaches_baseline, check_relay_baseline, comparator_minimum, increment_major,
    increment_minor, increment_patch, is_at_least_baseline,
    parse_dynamic_plugin_relay_requirement, validate_annotated_request_consumer_compatibility,
    validate_dynamic_plugin_relay_baseline, validate_dynamic_plugin_relay_compatibility,
    ComparatorOp, RelayComparator, RelayVersion,
};

fn version(major: u64, minor: u64, patch: u64) -> RelayVersion {
    RelayVersion { major, minor, patch, has_pre: false }
}

fn clause(op: ComparatorOp, major: u64, minor: Option<u64>, patch: Option<u64>) -> RelayComparator {
    RelayComparator { op, major, minor, patch, has_pre: false }
}

fn text(result: Result<(), PluginError>) -> String {
    match result {
        Ok(()) => panic!("expected an error"),
        Err(e) => e.to_text(),
    }
}

#[test]
fn increments_reset_lower_parts() {
    let mut v = version(1, 2, 3);
    increment_patch(&mut v);
    assert_eq!(v, version(1, 2, 4));
    increment_minor(&mut v);
    assert_eq!(v, version(1, 3, 0));
    increment_major(&mut v);
    assert_eq!(v, version(2, 0, 0));
}

#[test]
fn increments_carry_at_the_largest_number() {
    let mut v = version(1, u64::MAX, u64::MAX);
    increment_patch(&mut v);
    assert_eq!(v, version(2, 0, 0));
    let mut top = version(u64::MAX, u64::MAX, u64::MAX);
    increment_patch(&mut top);
    assert_eq!(top, version(u64::MAX, u64::MAX, u64::MAX));
}

#[test]
fn clause_minimum_follows_the_operator() {
    let op = ComparatorOp::Greater;
    assert_eq!(comparator_minimum(&clause(op, 0, None, None)), Some(version(1, 0, 0)));
    assert_eq!(comparator_minimum(&clause(op, 0, Some(7), None)), Some(version(0, 8, 0)));
    assert_eq!(comparator_minimum(&clause(op, 0, Some(7), Some(9))), Some(version(0, 7, 10)));
    assert_eq!(
        comparator_minimum(&clause(ComparatorOp::Caret, 0, Some(8), None)),
        Some(version(0, 8, 0))
    );
    assert_eq!(comparator_minimum(&clause(ComparatorOp::Less, 2, None, None)), None);
    assert_eq!(comparator_minimum(&clause(ComparatorOp::LessEq, 2, None, None)), None);
}

#[test]
fn baseline_starts_at_its_release() {
    assert!(is_at_least_baseline(&version(0, 8, 0)));
    assert!(is_at_least_baseline(&version(1, 0, 0)));
    assert!(!is_at_least_baseline(&version(0, 7, 99)));
    assert!(!is_at_least_baseline(&RelayVersion { has_pre: true, ..version(0, 8, 0) }));
    assert!(is_at_least_baseline(&RelayVersion { has_pre: true, ..version(0, 8, 1) }));
}

#[test]
fn one_clause_is_enough_for_the_baseline() {
    let low = clause(ComparatorOp::GreaterEq, 0, Some(1), None);
    let high = clause(ComparatorOp::GreaterEq, 0, Some(8), None);
    assert!(any_clause_reaches_baseline(&vec![low, high]));
    assert!(!any_clause_reaches_baseline(&vec![low]));
    assert!(!any_clause_reaches_baseline(&vec![]));
}

#[test]
fn requirement_is_required_and_trimmed() {
    assert!(matches!(
        parse_dynamic_plugin_relay_requirement(Some("  >=0.8.0 "), "worker"),
        Ok(">=0.8.0")
    ));
    match parse_dynamic_plugin_relay_requirement(Some("  "), "worker") {
        Err(e) => assert_eq!(e.to_text(), "invalid config: compat.relay is required"),
        Ok(_) => panic!("blank requirement was accepted"),
    }
    match parse_dynamic_plugin_relay_requirement(None, "worker") {
        Err(PluginError::InvalidConfig(m)) => assert_eq!(m, "compat.relay is required"),
        _ => panic!("missing requirement was accepted"),
    }
}

#[test]
fn baseline_requirements_are_accepted() {
    for relay in [">=0.8.0", "^0.8", "~0.8.1", "=0.9.0", ">0.7", "0.8.0", ">=0.1, >=0.8"] {
        assert!(validate_dynamic_plugin_relay_baseline(Some(relay), "worker").is_ok(), "{relay}");
    }
}

#[test]
fn earlier_requirements_are_refused() {
    for relay in [">=0.7.0", "*", "<1.0.0", "^0.5", ">=0.8.0-rc.1"] {
        assert_eq!(
            text(validate_dynamic_plugin_relay_baseline(Some(relay), "worker")),
            format!(
                "invalid config: worker plugins must declare compat.relay = \">=0.8.0\" or another \
                 range that excludes Relay versions before 0.8; found '{relay}'"
            )
        );
    }
}

#[test]
fn unreadable_requirement_is_refused() {
    let shown = text(validate_dynamic_plugin_relay_baseline(Some("not a range"), "worker"));
    assert!(shown.starts_with("invalid config: invalid compat.relay version requirement: "));
    assert_eq!(
        text(check_relay_baseline(Err("boom".to_string()), "x", "worker")),
        "invalid config: invalid compat.relay version requirement: boom"
    );
}

#[test]
fn host_version_has_to_be_admitted() {
    let check = validate_dynamic_plugin_relay_compatibility;
    assert!(check(Some(">=0.8.0"), "rust_dynamic", "0.8.0").is_ok());
    assert!(check(Some(">=0.8.0, <0.10"), "rust_dynamic", "0.9.7").is_ok());
    assert_eq!(
        text(check(Some(">=0.9.0"), "rust_dynamic", "0.8.0")),
        "invalid config: rust_dynamic plugin requires relay '>=0.9.0' but host version is 0.8.0"
    );
    assert!(check(Some(">=0.8.0"), "rust_dynamic", "not-a-version").is_err());
    assert!(check(None, "rust_dynamic", "0.8.0").is_err());
}

#[test]
fn annotated_request_consumers_need_a_recent_relay() {
    assert!(validate_annotated_request_consumer_compatibility(">=0.8.0", "acme").is_ok());
    assert_eq!(
        text(validate_annotated_request_consumer_compatibility(">=0.5.0", "acme")),
        "invalid config: dynamic plugin 'acme' registers an LLM request intercept and must declare \
         compat.relay = \">=0.6,<1.0\" or another range that excludes Relay 0.5"
    );
    assert!(validate_annotated_request_consumer_compatibility("nonsense", "acme").is_err());
}
