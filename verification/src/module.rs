//! The module loader: validating a loaded module's declared versions
//! against the host's, and collecting the plugins the module registers.
//!
//! Opening the shared-library file and reading its declaration record
//! happen at the host's edge, outside this layer; the loader receives the
//! declaration and the registered plugin runtimes as plain values,
//! validates compatibility, and assembles the `Module` and its `Plugin`s.

use crate::definition::MylifePlugin;
use crate::failure::FailureView;
use crate::metadata::PluginMetadata;
use crate::runtime::{ComponentImpl, PluginRuntimeImpl};
use crate::value::{str_eq, ValueV};
use convert_case::{Case, Casing};
use std::sync::Arc;
use vstd::prelude::*;
use vstd::string::StringExecFns;

verus! {

/// The kebab-cased form of a name.
pub uninterp spec fn kebab_of(s: Seq<char>) -> Seq<char>;

/// Relies on convert_case's `Casing::to_case` with `Case::Kebab`: the
/// kebab-cased name is a function of the input characters alone.
#[verifier::external_body]
fn make_module_name(name: &str) -> (r: String)
    ensures
        r@ == kebab_of(name@),
{
    name.to_case(Case::Kebab)
}

/// The file name convention of a module: a module named `X` lives in
/// `lib<X>.so`.
pub fn module_file_name(name: &str) -> (r: String)
    ensures
        r@ == "lib"@ + name@ + ".so"@,
{
    let s: String = "lib".to_owned();
    s.concat(name).concat(".so")
}

/// The host's own versions, which a module's declaration must match
/// exactly for the module to load.
pub struct HostVersions {
    pub rustc_version: String,
    pub core_version: String,
    pub mylife_runtime_version: String,
}

/// The declaration record a module exports: its build versions and its
/// self-reported module version.
pub struct ModuleDeclaration {
    pub rustc_version: String,
    pub core_version: String,
    pub mylife_runtime_version: String,
    pub module_version: String,
}

/// Loading failed on a version check: the variant names the dimension
/// that disagreed, with the module's value first and the host's second.
#[derive(Debug, PartialEq, Clone)]
pub enum ModuleLoadError {
    RustCompilerVersionMismatch(String, String),
    CoreVersionMismatch(String, String),
    MylifeRuntimeVersionMismatch(String, String),
}

/// The mathematical model of a `ModuleLoadError`.
pub enum ModuleLoadErrorV {
    RustCompilerVersionMismatch(Seq<char>, Seq<char>),
    CoreVersionMismatch(Seq<char>, Seq<char>),
    MylifeRuntimeVersionMismatch(Seq<char>, Seq<char>),
}

impl View for ModuleLoadError {
    type V = ModuleLoadErrorV;

    open spec fn view(&self) -> ModuleLoadErrorV {
        match self {
            ModuleLoadError::RustCompilerVersionMismatch(m, h) => {
                ModuleLoadErrorV::RustCompilerVersionMismatch(m@, h@)
            },
            ModuleLoadError::CoreVersionMismatch(m, h) => {
                ModuleLoadErrorV::CoreVersionMismatch(m@, h@)
            },
            ModuleLoadError::MylifeRuntimeVersionMismatch(m, h) => {
                ModuleLoadErrorV::MylifeRuntimeVersionMismatch(m@, h@)
            },
        }
    }
}

/// The display message of a load error model.
pub open spec fn module_load_error_message(e: ModuleLoadErrorV) -> Seq<char> {
    match e {
        ModuleLoadErrorV::RustCompilerVersionMismatch(m, h) => {
            "Rust compiler version mismatch: module='"@ + m + "', core='"@ + h + "'"@
        },
        ModuleLoadErrorV::CoreVersionMismatch(m, h) => {
            "Rust core version mismatch: module='"@ + m + "', core='"@ + h + "'"@
        },
        ModuleLoadErrorV::MylifeRuntimeVersionMismatch(m, h) => {
            "Mylife runtime version mismatch: module='"@ + m + "', core='"@ + h + "'"@
        },
    }
}

impl ModuleLoadError {
    /// The display message of this error.
    pub fn message(&self) -> (r: String)
        ensures
            r@ == module_load_error_message(self@),
    {
        match self {
            ModuleLoadError::RustCompilerVersionMismatch(m, h) => {
                let s: String = "Rust compiler version mismatch: module='".to_owned();
                s.concat(m.as_str()).concat("', core='").concat(h.as_str()).concat("'")
            },
            ModuleLoadError::CoreVersionMismatch(m, h) => {
                let s: String = "Rust core version mismatch: module='".to_owned();
                s.concat(m.as_str()).concat("', core='").concat(h.as_str()).concat("'")
            },
            ModuleLoadError::MylifeRuntimeVersionMismatch(m, h) => {
                let s: String = "Mylife runtime version mismatch: module='".to_owned();
                s.concat(m.as_str()).concat("', core='").concat(h.as_str()).concat("'")
            },
        }
    }
}

/// A loaded module: its in-process name (the kebab-cased form of the
/// requested name) and its self-reported version. The host side that
/// opened the shared library keeps the library handle alive for as long
/// as this value, or any `Plugin` holding it, is alive.
pub struct Module {
    pub name: String,
    pub version: String,
}

impl Module {
    /// The in-process module name.
    pub fn name(&self) -> (r: &str)
        ensures
            r@ == self.name@,
    {
        self.name.as_str()
    }

    /// The module's self-reported version.
    pub fn version(&self) -> (r: &str)
        ensures
            r@ == self.version@,
    {
        self.version.as_str()
    }
}

/// One registered plugin: a plugin runtime paired with its owning module.
/// Its id is `<module-name>.<plugin-name>`.
pub struct Plugin<PluginType: MylifePlugin> {
    pub id: String,
    pub runtime: PluginRuntimeImpl<PluginType>,
    pub module: Arc<Module>,
}

impl<PluginType: MylifePlugin> Plugin<PluginType> {
    /// Pair `runtime` with its owning `module`, deriving the plugin id.
    fn new(module: Arc<Module>, runtime: PluginRuntimeImpl<PluginType>) -> (r: Plugin<PluginType>)
        ensures
            r.module == module,
            r.runtime == runtime,
            r.id@ == module.name@ + "."@ + runtime.metadata.name@,
    {
        let id = module.name.clone().concat(".").concat(runtime.metadata().name.as_str());
        Plugin { id, runtime, module }
    }

    /// The globally unique id of this plugin.
    pub fn id(&self) -> (r: &str)
        ensures
            r@ == self.id@,
    {
        self.id.as_str()
    }

    /// The name of the owning module.
    pub fn module(&self) -> (r: &str)
        ensures
            r@ == self.module.name@,
    {
        self.module.name()
    }

    /// The version of the owning module.
    pub fn version(&self) -> (r: &str)
        ensures
            r@ == self.module.version@,
    {
        self.module.version()
    }

    /// The metadata of the plugin type.
    pub fn metadata(&self) -> (r: &PluginMetadata)
        ensures
            *r == self.runtime.metadata,
    {
        self.runtime.metadata()
    }

    /// Instantiate a fresh component of this plugin under `id`.
    pub fn create_component(&self, id: &str) -> (r: Box<ComponentImpl<PluginType>>)
        requires
            self.runtime.wf(),
        ensures
            r.wf(),
            r.id@ == id@,
            r.component.model() == PluginType::fresh_model(id@),
            r.fail_handler@ == (FailureView { error: None, installed: false, notified: 0 }),
            !r.state_handler_installed,
            r.log_view() == Seq::<(Seq<char>, ValueV)>::empty(),
    {
        self.runtime.create(id)
    }
}

/// The registry a loading module fills: every plugin it registers is
/// wrapped with the owning module and appended, in registration order.
/// Nothing is deduplicated.
pub struct PluginRegistryImpl<PluginType: MylifePlugin> {
    pub module: Arc<Module>,
    pub plugins: Vec<Plugin<PluginType>>,
}

impl<PluginType: MylifePlugin> PluginRegistryImpl<PluginType> {
    /// An empty registry for `module`.
    fn new(module: Arc<Module>) -> (r: PluginRegistryImpl<PluginType>)
        ensures
            r.module == module,
            r.plugins@ == Seq::<Plugin<PluginType>>::empty(),
    {
        PluginRegistryImpl { module, plugins: Vec::new() }
    }

    /// Register one plugin runtime: wrap it with the owning module and
    /// append it. Each call appends exactly one plugin.
    pub fn register_plugin(&mut self, runtime: PluginRuntimeImpl<PluginType>)
        ensures
            final(self).module == old(self).module,
            final(self).plugins@.len() == old(self).plugins@.len() + 1,
            final(self).plugins@ == old(self).plugins@.push(final(self).plugins@.last()),
            ({
                let p = final(self).plugins@.last();
                &&& p.module == old(self).module
                &&& p.runtime == runtime
                &&& p.id@ == old(self).module.name@ + "."@ + runtime.metadata.name@
            }),
    {
        let plugin = Plugin::new(self.module.clone(), runtime);
        self.plugins.push(plugin);
    }
}

impl Module {
    /// Load a module: validate its declared compiler, core and runtime
    /// versions against the host's, in that order, stopping at the first
    /// mismatch; on success, build the `Module` and wrap each plugin
    /// runtime the module registered into a `Plugin`, in registration
    /// order.
    pub fn load<PluginType: MylifePlugin>(
        name: &str,
        host: &HostVersions,
        decl: &ModuleDeclaration,
        runtimes: Vec<PluginRuntimeImpl<PluginType>>,
    ) -> (r: Result<Vec<Plugin<PluginType>>, ModuleLoadError>)
        ensures
            decl.rustc_version@ != host.rustc_version@ ==> ({
                &&& r matches Err(e) && e@ == ModuleLoadErrorV::RustCompilerVersionMismatch(
                    decl.rustc_version@,
                    host.rustc_version@,
                )
            }),
            decl.rustc_version@ == host.rustc_version@ && decl.core_version@
                != host.core_version@ ==> ({
                &&& r matches Err(e) && e@ == ModuleLoadErrorV::CoreVersionMismatch(
                    decl.core_version@,
                    host.core_version@,
                )
            }),
            decl.rustc_version@ == host.rustc_version@ && decl.core_version@ == host.core_version@
                && decl.mylife_runtime_version@ != host.mylife_runtime_version@ ==> ({
                &&& r matches Err(e) && e@ == ModuleLoadErrorV::MylifeRuntimeVersionMismatch(
                    decl.mylife_runtime_version@,
                    host.mylife_runtime_version@,
                )
            }),
            decl.rustc_version@ == host.rustc_version@ && decl.core_version@ == host.core_version@
                && decl.mylife_runtime_version@ == host.mylife_runtime_version@ ==> ({
                &&& r matches Ok(plugins)
                &&& plugins@.len() == runtimes@.len()
                &&& forall|i: int|
                    0 <= i < runtimes@.len() ==> {
                        let p = #[trigger] plugins@[i];
                        &&& p.runtime == runtimes@[i]
                        &&& p.module.name@ == kebab_of(name@)
                        &&& p.module.version@ == decl.module_version@
                        &&& p.id@ == kebab_of(name@) + "."@ + runtimes@[i].metadata.name@
                    }
            }),
    {
        if !str_eq(decl.rustc_version.as_str(), host.rustc_version.as_str()) {
            return Err(
                ModuleLoadError::RustCompilerVersionMismatch(
                    decl.rustc_version.clone(),
                    host.rustc_version.clone(),
                ),
            );
        }
        if !str_eq(decl.core_version.as_str(), host.core_version.as_str()) {
            return Err(
                ModuleLoadError::CoreVersionMismatch(
                    decl.core_version.clone(),
                    host.core_version.clone(),
                ),
            );
        }
        if !str_eq(decl.mylife_runtime_version.as_str(), host.mylife_runtime_version.as_str()) {
            return Err(
                ModuleLoadError::MylifeRuntimeVersionMismatch(
                    decl.mylife_runtime_version.clone(),
                    host.mylife_runtime_version.clone(),
                ),
            );
        }
        let module = Arc::new(
            Module { name: make_module_name(name), version: decl.module_version.clone() },
        );
        let mut registry = PluginRegistryImpl::new(module);
        let ghost all = runtimes@;
        let mut rts = runtimes;
        while rts.len() > 0
            invariant
                registry.plugins@.len() + rts@.len() == all.len(),
                rts@ == all.skip(registry.plugins@.len() as int),
                registry.module.name@ == kebab_of(name@),
                registry.module.version@ == decl.module_version@,
                forall|i: int|
                    0 <= i < registry.plugins@.len() ==> {
                        let p = #[trigger] registry.plugins@[i];
                        &&& p.runtime == all[i]
                        &&& p.module.name@ == kebab_of(name@)
                        &&& p.module.version@ == decl.module_version@
                        &&& p.id@ == kebab_of(name@) + "."@ + all[i].metadata.name@
                    },
            decreases rts@.len(),
        {
            let ghost done = registry.plugins@.len() as int;
            let rt = rts.remove(0);
            proof {
                assert(rt == all[done]);
                assert(rts@ =~= all.skip(done + 1));
            }
            registry.register_plugin(rt);
        }
        Ok(registry.plugins)
    }
}

} // verus!
