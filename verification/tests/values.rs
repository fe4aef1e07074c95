//! The value model, the config mapping, the state container, and the
//! error messages.

use plugin_runtime::definition::State;
use plugin_runtime::errors::{ConfigNotSetError, NoSuchActionError, NoSuchStateError};
use plugin_runtime::metadata::Type;
use plugin_runtime::value::{str_eq, Config, ConfigValue, TypedInto, Value};
use plugin_runtime::value_binary::TestError;

#[test]
fn typed_into_encodes_the_native_value() {
    assert_eq!(true.typed_into(Type::Bool), Value::Bool(true));
    assert_eq!(false.typed_into(Type::Bool), Value::Bool(false));
    assert_eq!(7u64.typed_into(Type::UInt), Value::UInt(7));
    assert_eq!((-3i64).typed_into(Type::Int), Value::Int(-3));
}

#[test]
fn str_eq_compares_characters() {
    assert!(str_eq("on", "on"));
    assert!(!str_eq("on", "off"));
    assert!(str_eq("", ""));
    assert!(!str_eq("a", ""));
}

#[test]
fn config_lookup_finds_the_first_entry() {
    let mut config = Config::new();
    assert!(config.get("initial").is_none());
    config.insert("initial", ConfigValue::Bool(true));
    config.insert("other", ConfigValue::UInt(5));
    config.insert("initial", ConfigValue::Bool(false));
    assert_eq!(config.get("initial"), Some(&ConfigValue::Bool(true)));
    assert_eq!(config.get("other"), Some(&ConfigValue::UInt(5)));
    assert!(config.get("missing").is_none());
}

#[test]
fn state_set_records_one_notification_per_call() {
    let mut state: State<bool> = State::default();
    state.runtime_register(Type::Bool);
    assert_eq!(*state.get(), false);

    state.set(true);
    assert_eq!(*state.get(), true);
    let notes = state.take_notifications();
    assert_eq!(notes, vec![Value::Bool(true)]);

    // collected notifications are cleared
    let notes = state.take_notifications();
    assert_eq!(notes.len(), 0);

    state.set(false);
    state.set(true);
    let notes = state.take_notifications();
    assert_eq!(notes, vec![Value::Bool(false), Value::Bool(true)]);
}

#[test]
fn error_messages_name_the_member() {
    let e = ConfigNotSetError { name: "initial".to_string() };
    assert_eq!(e.message(), "Config key not set: 'initial'");
    let e = NoSuchActionError { name: "flip".to_string() };
    assert_eq!(e.message(), "No such action: 'flip'");
    let e = NoSuchStateError { name: "on".to_string() };
    assert_eq!(e.message(), "No such state: 'on'");
    assert_eq!(TestError().message(), "Boom!");
}
