//! Module loading: version validation and plugin registration order.

use plugin_runtime::definition::MylifePlugin;
use plugin_runtime::metadata::PluginMetadata;
use plugin_runtime::module::{
    module_file_name, HostVersions, Module, ModuleDeclaration, ModuleLoadError,
};
use plugin_runtime::runtime::{PluginRuntimeAccess, PluginRuntimeImpl};
use plugin_runtime::switch::Switch;
use plugin_runtime::value_binary::ValueBinary;

fn host() -> HostVersions {
    HostVersions {
        rustc_version: "rustc 1.70.0".to_string(),
        core_version: "core 1.0".to_string(),
        mylife_runtime_version: "runtime 1.0".to_string(),
    }
}

fn matching_decl() -> ModuleDeclaration {
    ModuleDeclaration {
        rustc_version: "rustc 1.70.0".to_string(),
        core_version: "core 1.0".to_string(),
        mylife_runtime_version: "runtime 1.0".to_string(),
        module_version: "2.3.4".to_string(),
    }
}

#[test]
fn load_returns_one_plugin_per_registration_in_order() {
    let runtimes = vec![Switch::runtime(), Switch::runtime(), Switch::runtime()];
    let plugins = Module::load("relay", &host(), &matching_decl(), runtimes).unwrap();
    assert_eq!(plugins.len(), 3);
    for p in &plugins {
        assert_eq!(p.id(), "relay.switch");
        assert_eq!(p.module(), "relay");
        assert_eq!(p.version(), "2.3.4");
        assert_eq!(p.metadata().name, "switch");
    }
}

#[test]
fn load_kebab_cases_the_module_name() {
    let runtimes = vec![ValueBinary::runtime()];
    let plugins = Module::load("LogicBase", &host(), &matching_decl(), runtimes).unwrap();
    assert_eq!(plugins.len(), 1);
    assert_eq!(plugins[0].module(), "logic-base");
    assert_eq!(plugins[0].id(), "logic-base.value-binary");
}

#[test]
fn load_empty_module_registers_nothing() {
    let runtimes: Vec<_> = Vec::<plugin_runtime::runtime::PluginRuntimeImpl<Switch>>::new();
    let plugins = Module::load("relay", &host(), &matching_decl(), runtimes).unwrap();
    assert_eq!(plugins.len(), 0);
}

fn load_switch_err(decl: &ModuleDeclaration) -> ModuleLoadError {
    match Module::load("relay", &host(), decl, vec![Switch::runtime()]) {
        Ok(_) => panic!("expected a load error"),
        Err(e) => e,
    }
}

#[test]
fn load_rejects_rustc_version_mismatch() {
    let mut decl = matching_decl();
    decl.rustc_version = "rustc 1.69.0".to_string();
    let err = load_switch_err(&decl);
    match &err {
        ModuleLoadError::RustCompilerVersionMismatch(m, h) => {
            assert_eq!(m, "rustc 1.69.0");
            assert_eq!(h, "rustc 1.70.0");
        },
        other => panic!("wrong error: {:?}", other),
    }
    assert_eq!(
        err.message(),
        "Rust compiler version mismatch: module='rustc 1.69.0', core='rustc 1.70.0'"
    );
}

#[test]
fn load_rejects_core_version_mismatch() {
    let mut decl = matching_decl();
    decl.core_version = "core 0.9".to_string();
    let err = load_switch_err(&decl);
    match &err {
        ModuleLoadError::CoreVersionMismatch(m, h) => {
            assert_eq!(m, "core 0.9");
            assert_eq!(h, "core 1.0");
        },
        other => panic!("wrong error: {:?}", other),
    }
    assert_eq!(err.message(), "Rust core version mismatch: module='core 0.9', core='core 1.0'");
}

#[test]
fn load_rejects_runtime_version_mismatch() {
    let mut decl = matching_decl();
    decl.mylife_runtime_version = "runtime 0.1".to_string();
    let err = load_switch_err(&decl);
    match &err {
        ModuleLoadError::MylifeRuntimeVersionMismatch(m, h) => {
            assert_eq!(m, "runtime 0.1");
            assert_eq!(h, "runtime 1.0");
        },
        other => panic!("wrong error: {:?}", other),
    }
    assert_eq!(
        err.message(),
        "Mylife runtime version mismatch: module='runtime 0.1', core='runtime 1.0'"
    );
}

#[test]
fn load_checks_versions_in_order() {
    // every field corrupted: the compiler check comes first
    let decl = ModuleDeclaration {
        rustc_version: "x".to_string(),
        core_version: "y".to_string(),
        mylife_runtime_version: "z".to_string(),
        module_version: "0".to_string(),
    };
    let err = load_switch_err(&decl);
    assert!(matches!(err, ModuleLoadError::RustCompilerVersionMismatch(_, _)));
}

#[test]
fn module_file_name_follows_the_convention() {
    assert_eq!(module_file_name("relay"), "librelay.so");
    assert_eq!(module_file_name(""), "lib.so");
}

#[test]
fn load_keeps_registration_order() {
    let named = |name: &str| -> PluginRuntimeImpl<Switch> {
        let metadata = PluginMetadata {
            name: name.to_string(),
            version: "1.0.0".to_string(),
            configs: Vec::new(),
            states: Vec::new(),
            actions: Vec::new(),
        };
        let access = PluginRuntimeAccess::new(Vec::new(), Vec::new(), Vec::new());
        *PluginRuntimeImpl::new(metadata, access)
    };
    let plugins =
        Module::load("relay", &host(), &matching_decl(), vec![named("alpha"), named("beta")])
            .unwrap();
    assert_eq!(plugins.len(), 2);
    assert_eq!(plugins[0].id(), "relay.alpha");
    assert_eq!(plugins[1].id(), "relay.beta");
}

#[test]
fn plugin_metadata_describes_the_members() {
    let runtime = Switch::runtime();
    let plugins = Module::load("relay", &host(), &matching_decl(), vec![runtime]).unwrap();
    let metadata = plugins[0].metadata();
    assert_eq!(metadata.name, "switch");
    assert_eq!(metadata.configs.len(), 1);
    assert_eq!(metadata.configs[0].name, "initial");
    assert_eq!(metadata.states.len(), 1);
    assert_eq!(metadata.states[0].name, "on");
    assert_eq!(metadata.actions.len(), 1);
    assert_eq!(metadata.actions[0].name, "toggle");
}
