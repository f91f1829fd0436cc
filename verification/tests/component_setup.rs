use relay_plugin::component_setup::{
    ComponentOutcome, ComponentSetup, SetupEvent, SetupStage, SetupStep,
};
use relay_plugin::config::{PluginComponentSpec, PluginConfig};
use relay_plugin::error::PluginError;
use relay_plugin::handlers::{register_plugin, PluginHandlers};
use relay_plugin::registrations::{PluginRegistration, PluginRegistrationCleanupOutcome, RollbackRun};

fn config(kinds: &[&str]) -> PluginConfig {
    let components =
        kinds.iter().map(|kind| PluginComponentSpec::new(kind.to_string())).collect();
    PluginConfig { components, ..PluginConfig::default() }
}

fn handlers(kinds: &[&str]) -> PluginHandlers {
    let mut handlers = PluginHandlers::new();
    for kind in kinds {
        register_plugin(&mut handlers, kind, true).unwrap();
    }
    handlers
}

fn registration(name: &str) -> PluginRegistration {
    PluginRegistration::new("plugin".to_string(), name.to_string())
}

fn done(names: &[&str]) -> SetupEvent {
    let registrations = names.iter().map(|name| registration(name)).collect();
    SetupEvent::Registered(registrations, ComponentOutcome::Done)
}

fn stuck() -> PluginRegistrationCleanupOutcome {
    PluginRegistrationCleanupOutcome::NotRemoved(PluginError::Internal("busy".to_string()))
}

fn rolled_back(answers: Vec<PluginRegistrationCleanupOutcome>) -> RollbackRun {
    let mut run = RollbackRun::begin(answers.len());
    for answer in answers {
        run = run.take(answer);
    }
    run
}

#[test]
fn components_register_in_order() {
    let known = handlers(&["a", "b"]);
    let (setup, step) = ComponentSetup::begin(&known, &config(&["a", "b", "a"]), Ok(()));
    match step {
        SetupStep::Register(index, namespace) => {
            assert_eq!(index, 0);
            assert_eq!(namespace, "__nemo_relay_plugin__a__1__");
        }
        _ => panic!("nothing is registered"),
    }
    let (setup, step) = setup.take(done(&["one"]));
    match step {
        SetupStep::Register(index, namespace) => {
            assert_eq!(index, 1);
            assert_eq!(namespace, "__nemo_relay_plugin__b__");
        }
        _ => panic!("the second component is left out"),
    }
    let (setup, step) = setup.take(done(&["two", "three"]));
    assert!(matches!(step, SetupStep::Register(2, _)));
    let (setup, step) = setup.take(done(&[]));
    match step {
        SetupStep::Finish(Ok(registrations), failures) => {
            let names: Vec<&str> = registrations.iter().map(|r| r.name.as_str()).collect();
            assert_eq!(names, ["one", "two", "three"]);
            assert!(failures.is_empty());
        }
        _ => panic!("the setup goes on"),
    }
    let (setup, step) = setup.take(done(&["late"]));
    assert!(matches!(step, SetupStep::Ignore));
    assert_eq!(setup.stage, SetupStage::Over);
}

#[test]
fn failed_setups_take_everything_back() {
    let known = handlers(&["a", "b"]);
    let (setup, _) = ComponentSetup::begin(&known, &config(&["a", "b"]), Ok(()));
    let (setup, _) = setup.take(done(&["one"]));
    let failed = ComponentOutcome::Failed(PluginError::Internal("no".to_string()));
    let (setup, step) = setup.take(SetupEvent::Registered(vec![registration("two")], failed));
    assert!(matches!(step, SetupStep::RollBackComponent));
    assert_eq!(setup.partial.len(), 1);
    let (setup, step) = setup.take(SetupEvent::RolledBack(RollbackRun::begin(1)));
    assert!(matches!(step, SetupStep::Ignore));
    let (setup, step) = setup.take(SetupEvent::RolledBack(rolled_back(vec![stuck()])));
    assert!(matches!(step, SetupStep::RollBackEarlier));
    assert_eq!(setup.registrations.len(), 1);
    let removed = PluginRegistrationCleanupOutcome::Removed;
    let (setup, step) = setup.take(SetupEvent::RolledBack(rolled_back(vec![removed])));
    match step {
        SetupStep::Finish(Err(e), failures) => {
            assert_eq!(e.to_text(), "internal error: no");
            assert_eq!(
                failures,
                ["plugin registration 'two' could not be removed: internal error: busy"]
            );
        }
        _ => panic!("the setup goes on"),
    }
    assert_eq!(setup.stage, SetupStage::Over);
}

#[test]
fn stopped_and_unknown_components_fail_the_setup() {
    let known = handlers(&["a"]);
    let (setup, _) = ComponentSetup::begin(&known, &config(&["a"]), Ok(()));
    let stopped = ComponentOutcome::Stopped("task panicked".to_string());
    let (setup, _) = setup.take(SetupEvent::Registered(Vec::new(), stopped));
    let (setup, _) = setup.take(SetupEvent::RolledBack(rolled_back(Vec::new())));
    let (_, step) = setup.take(SetupEvent::RolledBack(rolled_back(Vec::new())));
    match step {
        SetupStep::Finish(Err(e), _) => assert_eq!(
            e.to_text(),
            "internal error: plugin component initialization task failed: task panicked"
        ),
        _ => panic!("the setup goes on"),
    }

    let (setup, _) = ComponentSetup::begin(&known, &config(&["a", "other"]), Ok(()));
    let (setup, step) = setup.take(done(&["one"]));
    assert!(matches!(step, SetupStep::RollBackEarlier));
    let removed = PluginRegistrationCleanupOutcome::Removed;
    let (_, step) = setup.take(SetupEvent::RolledBack(rolled_back(vec![removed])));
    match step {
        SetupStep::Finish(Err(e), failures) => {
            assert_eq!(
                e.to_text(),
                "not found: plugin component 'other' is not registered"
            );
            assert!(failures.is_empty());
        }
        _ => panic!("the setup goes on"),
    }

    let refused = Err(PluginError::RegistrationFailed("taken".to_string()));
    let (_, step) = ComponentSetup::begin(&known, &config(&["a"]), refused);
    assert!(matches!(step, SetupStep::Finish(Err(_), _)));
}
