//! Component behavior: configuration, initialization, actions, state
//! reads, state-change delivery, and the failure latch.

use plugin_runtime::definition::MylifePlugin;
use plugin_runtime::errors::PluginError;
use plugin_runtime::failure::FailureHandler;
use plugin_runtime::module::{HostVersions, Module, ModuleDeclaration};
use plugin_runtime::runtime::ComponentImpl;
use plugin_runtime::switch::Switch;
use plugin_runtime::value::{Config, ConfigValue, Value};
use plugin_runtime::value_binary::ValueBinary;

fn switch_component(id: &str) -> Box<ComponentImpl<Switch>> {
    let runtime = Switch::runtime();
    let mut c = runtime.create(id);
    c.set_on_fail();
    c.set_on_state();
    c
}

#[test]
fn component_id_is_kept() {
    let c = switch_component("house.light");
    assert_eq!(c.id(), "house.light");
}

#[test]
fn get_state_with_unregistered_name_fails_and_mutates_nothing() {
    let mut c = switch_component("c1");
    let mut config = Config::new();
    config.insert("initial", ConfigValue::Bool(true));
    c.configure(&config);
    c.init();
    assert_eq!(c.get_state("on").unwrap(), Value::Bool(true));

    let err = c.get_state("nope").unwrap_err();
    assert_eq!(err.message(), "No such state: 'nope'");
    // nothing was mutated: no failure latched, state unchanged
    assert!(c.failure().is_none());
    assert_eq!(c.get_state("on").unwrap(), Value::Bool(true));
}

#[test]
fn execute_action_with_unregistered_name_latches_a_failure() {
    let mut c = switch_component("c1");
    c.execute_action("missing", Value::Bool(true));
    let first = c.failure().unwrap().message();
    assert_eq!(first, "No such action: 'missing'");

    // a second, different failure leaves the first error latched
    c.execute_action("also-missing", Value::Bool(true));
    assert_eq!(c.failure().unwrap().message(), "No such action: 'missing'");
}

#[test]
fn failure_latch_is_idempotent_and_notifies_every_time() {
    let mut handler = FailureHandler::new();
    handler.set_handler();
    assert!(handler.failure().is_none());
    assert_eq!(handler.notified(), 0);

    handler.fail(PluginError::Plugin("first".to_string()));
    handler.fail(PluginError::Plugin("second".to_string()));

    // the first error stays latched; both deliveries carried it
    assert_eq!(handler.failure().unwrap().message(), "first");
    assert_eq!(handler.notified(), 2);
}

#[test]
fn component_failures_notify_once_per_trigger_with_the_first_error() {
    let mut c = switch_component("c1");
    c.execute_action("missing", Value::Bool(true));
    // a real executor error this time: toggle expects a boolean
    c.execute_action("toggle", Value::Text("not a bool".to_string()));
    assert_eq!(c.failure().unwrap().message(), "No such action: 'missing'");
    assert_eq!(c.fail_handler.notified(), 2);
}

#[test]
fn bound_bool_state_round_trips_with_one_notification() {
    let mut c = switch_component("c1");
    let mut config = Config::new();
    config.insert("initial", ConfigValue::Bool(true));
    c.configure(&config);
    assert_eq!(c.state_log.len(), 0);

    c.init();
    // the new value was committed and delivered exactly once, before
    // `init` returned
    assert_eq!(c.get_state("on").unwrap(), Value::Bool(true));
    assert_eq!(c.state_log.len(), 1);
    assert_eq!(c.state_log[0].0, "on");
    assert_eq!(c.state_log[0].1, Value::Bool(true));
}

#[test]
fn notifications_are_dropped_without_an_observer() {
    let runtime = Switch::runtime();
    let mut c = runtime.create("c1");
    c.set_on_fail();
    let mut config = Config::new();
    config.insert("initial", ConfigValue::Bool(true));
    c.configure(&config);
    c.init();
    assert_eq!(c.get_state("on").unwrap(), Value::Bool(true));
    assert_eq!(c.state_log.len(), 0);
}

#[test]
fn relay_switch_scenario() {
    let host = HostVersions {
        rustc_version: "r1".to_string(),
        core_version: "c1".to_string(),
        mylife_runtime_version: "m1".to_string(),
    };
    let decl = ModuleDeclaration {
        rustc_version: "r1".to_string(),
        core_version: "c1".to_string(),
        mylife_runtime_version: "m1".to_string(),
        module_version: "1.0.0".to_string(),
    };
    let plugins = Module::load("relay", &host, &decl, vec![Switch::runtime()]).unwrap();
    assert_eq!(plugins.len(), 1);
    let plugin = &plugins[0];
    assert_eq!(plugin.id(), "relay.switch");

    let mut c = plugin.create_component("relay-1");
    c.set_on_fail();
    c.set_on_state();

    let mut config = Config::new();
    config.insert("initial", ConfigValue::Bool(true));
    c.configure(&config);
    c.init();
    assert!(c.failure().is_none());
    assert_eq!(c.get_state("on").unwrap(), Value::Bool(true));

    c.execute_action("toggle", Value::Bool(true));
    assert!(c.failure().is_none());
    assert_eq!(c.get_state("on").unwrap(), Value::Bool(false));

    c.execute_action("missing", Value::Bool(true));
    assert_eq!(c.failure().unwrap().message(), "No such action: 'missing'");
    assert_eq!(c.get_state("on").unwrap(), Value::Bool(false));
}

#[test]
fn toggle_with_false_argument_does_nothing() {
    let mut c = switch_component("c1");
    let mut config = Config::new();
    config.insert("initial", ConfigValue::Bool(true));
    c.configure(&config);
    c.init();
    c.execute_action("toggle", Value::Bool(false));
    assert!(c.failure().is_none());
    assert_eq!(c.get_state("on").unwrap(), Value::Bool(true));
    // only the init notification was delivered
    assert_eq!(c.state_log.len(), 1);
}

#[test]
fn configure_with_missing_key_fails_with_that_key() {
    let mut c = switch_component("c1");
    let config = Config::new();
    c.configure(&config);
    assert_eq!(c.failure().unwrap().message(), "Config key not set: 'initial'");
    // the setter was never applied: init still sees the default
    c.init();
    assert_eq!(c.get_state("on").unwrap(), Value::Bool(false));
}

#[test]
fn configure_with_wrong_type_routes_the_setter_error() {
    let mut c = switch_component("c1");
    let mut config = Config::new();
    config.insert("initial", ConfigValue::Text("yes".to_string()));
    c.configure(&config);
    assert_eq!(c.failure().unwrap().message(), "Config 'initial' expects a boolean");
}

#[test]
fn value_binary_actions_drive_the_state() {
    let runtime = ValueBinary::runtime();
    let mut c = runtime.create("vb-1");
    c.set_on_fail();
    c.set_on_state();
    let mut config = Config::new();
    config.insert("config", ConfigValue::Bool(false));
    c.configure(&config);
    c.init();
    assert_eq!(c.get_state("state").unwrap(), Value::Bool(false));

    c.execute_action("on", Value::Bool(true));
    assert_eq!(c.get_state("state").unwrap(), Value::Bool(true));

    // a false argument leaves the state alone
    c.execute_action("off", Value::Bool(false));
    assert_eq!(c.get_state("state").unwrap(), Value::Bool(true));

    c.execute_action("off", Value::Bool(true));
    assert_eq!(c.get_state("state").unwrap(), Value::Bool(false));
    assert!(c.failure().is_none());

    // toggle always reports the test error
    c.execute_action("toggle", Value::Bool(true));
    assert_eq!(c.failure().unwrap().message(), "Boom!");
    assert_eq!(c.get_state("state").unwrap(), Value::Bool(false));
}

#[test]
fn value_binary_missing_config_key_names_it() {
    let runtime = ValueBinary::runtime();
    let mut c = runtime.create("vb-1");
    c.set_on_fail();
    c.configure(&Config::new());
    assert_eq!(c.failure().unwrap().message(), "Config key not set: 'config'");
}
