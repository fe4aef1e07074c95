//! The component-runtime layer: the per-plugin-type access table, the typed
//! plugin runtime pairing it with metadata, and the component wrapper that
//! drives one plugin instance through the uniform interface.

use crate::definition::{apply_configs_from, MylifePlugin};
use crate::errors::{
    ConfigNotSetError, NoSuchActionError, NoSuchStateError, PluginError, PluginErrorV,
};
use crate::failure::{fail_step, FailureHandler, FailureView};
use crate::metadata::PluginMetadata;
use crate::value::{str_eq, Config, Value, ValueV};
use std::sync::Arc;
use vstd::prelude::*;

verus! {

/// The per-plugin-type access table: the member names the runtime may
/// dispatch on, one list per category, in declaration order. Built once at
/// module registration and shared, immutable, by every component instance
/// of the plugin type.
pub struct PluginRuntimeAccess {
    pub configs: Vec<String>,
    pub states: Vec<String>,
    pub actions: Vec<String>,
}

impl PluginRuntimeAccess {
    /// The config member names, in declaration order.
    pub open spec fn config_names(self) -> Seq<Seq<char>> {
        self.configs@.map_values(|s: String| s@)
    }

    /// The state member names, in declaration order.
    pub open spec fn state_names(self) -> Seq<Seq<char>> {
        self.states@.map_values(|s: String| s@)
    }

    /// The action member names, in declaration order.
    pub open spec fn action_names(self) -> Seq<Seq<char>> {
        self.actions@.map_values(|s: String| s@)
    }

    /// Build the shared access table of a plugin type.
    pub fn new(configs: Vec<String>, states: Vec<String>, actions: Vec<String>) -> (r: Arc<
        PluginRuntimeAccess,
    >)
        ensures
            r.config_names() == configs@.map_values(|s: String| s@),
            r.state_names() == states@.map_values(|s: String| s@),
            r.action_names() == actions@.map_values(|s: String| s@),
    {
        Arc::new(PluginRuntimeAccess { configs, states, actions })
    }
}

/// The typed runtime of one plugin type: its immutable metadata and the
/// access table every component of the type dispatches through.
pub struct PluginRuntimeImpl<PluginType> {
    pub metadata: PluginMetadata,
    pub access: Arc<PluginRuntimeAccess>,
    pub instance: std::marker::PhantomData<PluginType>,
}

impl<PluginType> PluginRuntimeImpl<PluginType> {
    /// Pair a plugin type's metadata with its shared access table.
    pub fn new(metadata: PluginMetadata, access: Arc<PluginRuntimeAccess>) -> (r: Box<Self>)
        ensures
            r.metadata == metadata,
            r.access == access,
    {
        Box::new(PluginRuntimeImpl { metadata, access, instance: std::marker::PhantomData })
    }

    /// The metadata of the plugin type.
    pub fn metadata(&self) -> (r: &PluginMetadata)
        ensures
            *r == self.metadata,
    {
        &self.metadata
    }
}

impl<PluginType: MylifePlugin> PluginRuntimeImpl<PluginType> {
    /// The access table names exactly the declared members of the plugin
    /// type, the metadata describes the same members, and member names are
    /// unique within each category.
    pub open spec fn wf(self) -> bool {
        &&& self.access.config_names() == PluginType::config_keys()
        &&& self.access.state_names() == PluginType::state_keys()
        &&& self.access.action_names() == PluginType::action_keys()
        &&& self.metadata.config_names() == PluginType::config_keys()
        &&& self.metadata.state_names() == PluginType::state_keys()
        &&& self.metadata.action_names() == PluginType::action_keys()
        &&& self.metadata.wf()
    }

    /// Instantiate a fresh component of this plugin type under `id`.
    pub fn create(&self, id: &str) -> (r: Box<ComponentImpl<PluginType>>)
        requires
            self.wf(),
        ensures
            r.wf(),
            r.id@ == id@,
            r.component.model() == PluginType::fresh_model(id@),
            r.fail_handler@ == (FailureView { error: None, installed: false, notified: 0 }),
            !r.state_handler_installed,
            r.log_view() == Seq::<(Seq<char>, ValueV)>::empty(),
    {
        ComponentImpl::new(id, &self.access)
    }
}

/// A live component: one concrete plugin instance driven through the
/// uniform interface, together with the shared access table of its plugin
/// type, its unique id, its failure latch, and the state-change channel.
///
/// The state-change callback of the design is modeled as a delivery log:
/// while an observer is installed, every change notification a plugin
/// operation produces is appended, as the pair of member name and new
/// value, to `state_log`, synchronously, before the operation returns;
/// with no observer installed notifications are dropped.
pub struct ComponentImpl<PluginType: MylifePlugin> {
    pub access: Arc<PluginRuntimeAccess>,
    pub component: PluginType,
    pub id: String,
    pub fail_handler: FailureHandler,
    pub state_handler_installed: bool,
    pub state_log: Vec<(String, Value)>,
}

impl<PluginType: MylifePlugin> ComponentImpl<PluginType> {
    /// The delivery log of the state-change observer.
    pub open spec fn log_view(self) -> Seq<(Seq<char>, ValueV)> {
        self.state_log@.map_values(|e: (String, Value)| (e.0@, e.1@))
    }

    /// The access table names exactly the declared members of the plugin
    /// type, every state member is bound, and no change notification is
    /// left uncollected between operations.
    pub open spec fn wf(self) -> bool {
        &&& self.access.config_names() == PluginType::config_keys()
        &&& self.access.state_names() == PluginType::state_keys()
        &&& self.access.action_names() == PluginType::action_keys()
        &&& self.component.states_bound()
        &&& self.component.notifications() == Seq::<(Seq<char>, ValueV)>::empty()
    }

    /// Instantiate a fresh plugin through its constructor hook, then bind
    /// every state member named by the access table, in declaration
    /// order, before the component is usable.
    pub fn new(id: &str, access: &Arc<PluginRuntimeAccess>) -> (r: Box<ComponentImpl<PluginType>>)
        requires
            access.config_names() == PluginType::config_keys(),
            access.state_names() == PluginType::state_keys(),
            access.action_names() == PluginType::action_keys(),
        ensures
            r.wf(),
            r.access == *access,
            r.id@ == id@,
            r.component.model() == PluginType::fresh_model(id@),
            r.fail_handler@ == (FailureView { error: None, installed: false, notified: 0 }),
            !r.state_handler_installed,
            r.log_view() == Seq::<(Seq<char>, ValueV)>::empty(),
    {
        let mut component = PluginType::new(id);
        let ghost keys = PluginType::state_keys();
        let mut i: usize = 0;
        while i < access.states.len()
            invariant
                access.state_names() == keys,
                keys == PluginType::state_keys(),
                i <= access.states@.len(),
                keys.len() == access.states@.len(),
                component.model() == PluginType::fresh_model(id@),
                component.notifications() == Seq::<(Seq<char>, ValueV)>::empty(),
                forall|j: int| 0 <= j < i ==> component.state_bound(#[trigger] keys[j]),
            decreases access.states@.len() - i,
        {
            let key: &String = &access.states[i];
            proof {
                assert(keys[i as int] == key@);
                assert(keys.contains(key@));
            }
            component.register_state(key.as_str());
            i = i + 1;
        }
        proof {
            PluginType::lemma_all_bound(component);
        }
        let r = Box::new(
            ComponentImpl {
                access: access.clone(),
                component,
                id: id.to_owned(),
                fail_handler: FailureHandler::new(),
                state_handler_installed: false,
                state_log: Vec::new(),
            },
        );
        proof {
            assert(r.log_view() =~= Seq::<(Seq<char>, ValueV)>::empty());
        }
        r
    }

    /// Route a result to the failure latch: an error is recorded there and
    /// swallowed; a value passes through. Routing without an installed
    /// fail observer is a programming error.
    fn res_to_fail<T>(&mut self, result: Result<T, PluginError>) -> (r: Option<T>)
        requires
            old(self).fail_handler@.installed,
            old(self).fail_handler@.notified < u64::MAX,
        ensures
            final(self).component == old(self).component,
            final(self).access == old(self).access,
            final(self).id == old(self).id,
            final(self).state_handler_installed == old(self).state_handler_installed,
            final(self).state_log == old(self).state_log,
            match result {
                Ok(v) => r == Some(v) && final(self).fail_handler == old(self).fail_handler,
                Err(e) => r is None && final(self).fail_handler@ == fail_step(
                    old(self).fail_handler@,
                    e@,
                ) && final(self).fail_handler.error_spec() == (match old(
                    self,
                ).fail_handler.error_spec() {
                    None => Some(e),
                    Some(first) => Some(first),
                }),
            },
    {
        match result {
            Ok(v) => Some(v),
            Err(e) => {
                self.fail_handler.fail(e);
                None
            },
        }
    }

    /// Collect the change notifications the last plugin operation
    /// produced and, while an observer is installed, deliver them to the
    /// log, in the order they were produced.
    fn forward_state_notifications(&mut self)
        ensures
            final(self).access == old(self).access,
            final(self).id == old(self).id,
            final(self).fail_handler == old(self).fail_handler,
            final(self).state_handler_installed == old(self).state_handler_installed,
            final(self).component.model() == old(self).component.model(),
            final(self).component.states_bound() == old(self).component.states_bound(),
            final(self).component.notifications() == Seq::<(Seq<char>, ValueV)>::empty(),
            final(self).log_view() == old(self).log_view() + (if old(
                self,
            ).state_handler_installed {
                old(self).component.notifications()
            } else {
                Seq::<(Seq<char>, ValueV)>::empty()
            }),
    {
        let mut notes = self.component.drain_notifications();
        if self.state_handler_installed {
            self.state_log.append(&mut notes);
            proof {
                assert(self.log_view() =~= old(self).log_view()
                    + old(self).component.notifications());
            }
        } else {
            proof {
                assert(self.log_view() =~= old(self).log_view() + Seq::<(
                    Seq<char>,
                    ValueV,
                )>::empty());
            }
        }
    }

    /// Iterate the declared config members in order; for each, look its
    /// name up in `config` and apply the typed setter. The first missing
    /// key, or the first setter error, stops the iteration.
    fn configure_with_res(&mut self, config: &Config) -> (r: Result<(), PluginError>)
        requires
            old(self).access.config_names() == PluginType::config_keys(),
            old(self).component.states_bound(),
        ensures
            final(self).access == old(self).access,
            final(self).id == old(self).id,
            final(self).fail_handler == old(self).fail_handler,
            final(self).state_handler_installed == old(self).state_handler_installed,
            final(self).state_log == old(self).state_log,
            final(self).component.states_bound(),
            ({
                let (m, notes, e) = apply_configs_from::<PluginType>(
                    old(self).component.model(),
                    PluginType::config_keys(),
                    0,
                    config@,
                );
                &&& final(self).component.model() == m
                &&& final(self).component.notifications() == old(self).component.notifications()
                    + notes
                &&& match r {
                    Ok(u) => e is None,
                    Err(err) => e == Some(err@),
                }
            }),
    {
        let ghost keys = PluginType::config_keys();
        let ghost cfg = config@;
        let ghost target = apply_configs_from::<PluginType>(
            old(self).component.model(),
            keys,
            0,
            cfg,
        );
        let n = self.access.configs.len();
        let mut i: usize = 0;
        proof {
            assert(old(self).component.notifications() + target.1 =~= old(
                self,
            ).component.notifications() + target.1);
        }
        while i < n
            invariant
                n == self.access.configs@.len(),
                self.access == old(self).access,
                self.id == old(self).id,
                self.fail_handler == old(self).fail_handler,
                self.state_handler_installed == old(self).state_handler_installed,
                self.state_log == old(self).state_log,
                self.component.states_bound(),
                keys == PluginType::config_keys(),
                cfg == config@,
                target == apply_configs_from::<PluginType>(
                    old(self).component.model(),
                    keys,
                    0,
                    cfg,
                ),
                self.access.config_names() == keys,
                i <= n,
                keys.len() == n,
                ({
                    let rest = apply_configs_from::<PluginType>(
                        self.component.model(),
                        keys,
                        i as int,
                        cfg,
                    );
                    &&& target.0 == rest.0
                    &&& target.2 == rest.2
                    &&& old(self).component.notifications() + target.1
                        == self.component.notifications() + rest.1
                }),
            decreases n - i,
        {
            let key: &String = &self.access.configs[i];
            proof {
                assert(keys[i as int] == key@);
                assert(keys.contains(key@));
            }
            match config.get(key.as_str()) {
                None => {
                    let err = ConfigNotSetError { name: key.clone() };
                    proof {
                        let rest = apply_configs_from::<PluginType>(
                            self.component.model(),
                            keys,
                            i as int,
                            cfg,
                        );
                        assert(rest.1 =~= Seq::<(Seq<char>, ValueV)>::empty());
                        assert(self.component.notifications() + rest.1
                            =~= self.component.notifications());
                    }
                    return Err(PluginError::ConfigNotSet(err));
                },
                Some(value) => {
                    let ghost pre = self.component.model();
                    match self.component.set_config(key.as_str(), value) {
                        Ok(u) => {
                            proof {
                                let step = PluginType::config_step(pre, keys[i as int], value@);
                                let rest2 = apply_configs_from::<PluginType>(
                                    step.0,
                                    keys,
                                    i as int + 1,
                                    cfg,
                                );
                                assert(old(self).component.notifications() + target.1
                                    =~= self.component.notifications() + rest2.1);
                            }
                        },
                        Err(e) => {
                            proof {
                                let step = PluginType::config_step(pre, keys[i as int], value@);
                                assert(old(self).component.notifications() + target.1
                                    =~= self.component.notifications());
                            }
                            return Err(e);
                        },
                    }
                },
            }
            i = i + 1;
        }
        proof {
            let rest = apply_configs_from::<PluginType>(
                self.component.model(),
                keys,
                i as int,
                cfg,
            );
            assert(self.component.notifications() + rest.1 =~= self.component.notifications());
        }
        Ok(())
    }

    /// Look `name` up in the action table and invoke the typed executor
    /// with `action`; an absent name is a "no such action" error.
    fn execute_action_with_res(&mut self, name: &str, action: &Value) -> (r: Result<
        (),
        PluginError,
    >)
        requires
            old(self).access.action_names() == PluginType::action_keys(),
            old(self).component.states_bound(),
        ensures
            final(self).access == old(self).access,
            final(self).id == old(self).id,
            final(self).fail_handler == old(self).fail_handler,
            final(self).state_handler_installed == old(self).state_handler_installed,
            final(self).state_log == old(self).state_log,
            final(self).component.states_bound(),
            !PluginType::action_keys().contains(name@) ==> ({
                &&& final(self).component == old(self).component
                &&& r matches Err(e) && e@ == (PluginErrorV::NoSuchAction { name: name@ })
            }),
            PluginType::action_keys().contains(name@) ==> ({
                let (m, notes, e) = PluginType::action_step(
                    old(self).component.model(),
                    name@,
                    action@,
                );
                &&& final(self).component.model() == m
                &&& final(self).component.notifications() == old(self).component.notifications()
                    + notes
                &&& match r {
                    Ok(u) => e is None,
                    Err(err) => e == Some(err@),
                }
            }),
    {
        let ghost keys = PluginType::action_keys();
        let n = self.access.actions.len();
        let mut i: usize = 0;
        while i < n
            invariant
                n == self.access.actions@.len(),
                *self == *old(self),
                self.access.action_names() == keys,
                self.component.states_bound(),
                keys == PluginType::action_keys(),
                i <= n,
                keys.len() == n,
                forall|j: int| 0 <= j < i ==> keys[j] != name@,
            decreases n - i,
        {
            let key: &String = &self.access.actions[i];
            proof {
                assert(keys[i as int] == key@);
            }
            if str_eq(key.as_str(), name) {
                proof {
                    assert(keys.contains(name@));
                }
                return self.component.execute_action(name, action);
            }
            i = i + 1;
        }
        proof {
            assert(!keys.contains(name@));
        }
        Err(PluginError::NoSuchAction(NoSuchActionError { name: name.to_owned() }))
    }

    /// Configure the component: apply every declared config member's
    /// setter to the value `config` holds for it, in declaration order.
    /// The first missing key or setter error stops the iteration and is
    /// routed to the failure latch, not returned.
    pub fn configure(&mut self, config: &Config)
        requires
            old(self).wf(),
            old(self).fail_handler@.installed,
            old(self).fail_handler@.notified < u64::MAX,
        ensures
            final(self).wf(),
            final(self).access == old(self).access,
            final(self).id == old(self).id,
            final(self).state_handler_installed == old(self).state_handler_installed,
            ({
                let (m, notes, e) = apply_configs_from::<PluginType>(
                    old(self).component.model(),
                    PluginType::config_keys(),
                    0,
                    config@,
                );
                &&& final(self).component.model() == m
                &&& final(self).log_view() == old(self).log_view() + (if old(
                    self,
                ).state_handler_installed {
                    notes
                } else {
                    Seq::<(Seq<char>, ValueV)>::empty()
                })
                &&& final(self).fail_handler@ == (match e {
                    None => old(self).fail_handler@,
                    Some(ev) => fail_step(old(self).fail_handler@, ev),
                })
            }),
    {
        let result = self.configure_with_res(config);
        self.forward_state_notifications();
        self.res_to_fail(result);
    }

    /// Run the plugin's initialization hook; any error it reports is
    /// routed to the failure latch.
    pub fn init(&mut self)
        requires
            old(self).wf(),
            old(self).fail_handler@.installed,
            old(self).fail_handler@.notified < u64::MAX,
        ensures
            final(self).wf(),
            final(self).access == old(self).access,
            final(self).id == old(self).id,
            final(self).state_handler_installed == old(self).state_handler_installed,
            ({
                let (m, notes, e) = PluginType::init_step(old(self).component.model());
                &&& final(self).component.model() == m
                &&& final(self).log_view() == old(self).log_view() + (if old(
                    self,
                ).state_handler_installed {
                    notes
                } else {
                    Seq::<(Seq<char>, ValueV)>::empty()
                })
                &&& final(self).fail_handler@ == (match e {
                    None => old(self).fail_handler@,
                    Some(ev) => fail_step(old(self).fail_handler@, ev),
                })
            }),
    {
        let result = self.component.init();
        self.forward_state_notifications();
        self.res_to_fail(result);
    }

    /// Invoke the action member `name` with `action`. An unregistered
    /// name, like any executor error, is routed to the failure latch.
    pub fn execute_action(&mut self, name: &str, action: Value)
        requires
            old(self).wf(),
            old(self).fail_handler@.installed,
            old(self).fail_handler@.notified < u64::MAX,
        ensures
            final(self).wf(),
            final(self).access == old(self).access,
            final(self).id == old(self).id,
            final(self).state_handler_installed == old(self).state_handler_installed,
            !PluginType::action_keys().contains(name@) ==> ({
                &&& final(self).component.model() == old(self).component.model()
                &&& final(self).log_view() == old(self).log_view()
                &&& final(self).fail_handler@ == fail_step(
                    old(self).fail_handler@,
                    PluginErrorV::NoSuchAction { name: name@ },
                )
            }),
            PluginType::action_keys().contains(name@) ==> ({
                let (m, notes, e) = PluginType::action_step(
                    old(self).component.model(),
                    name@,
                    action@,
                );
                &&& final(self).component.model() == m
                &&& final(self).log_view() == old(self).log_view() + (if old(
                    self,
                ).state_handler_installed {
                    notes
                } else {
                    Seq::<(Seq<char>, ValueV)>::empty()
                })
                &&& final(self).fail_handler@ == (match e {
                    None => old(self).fail_handler@,
                    Some(ev) => fail_step(old(self).fail_handler@, ev),
                })
            }),
    {
        let result = self.execute_action_with_res(name, &action);
        self.forward_state_notifications();
        self.res_to_fail(result);
    }

    /// Read the current value of the state member `name`. An unregistered
    /// name fails directly, with a "no such state" error, and nothing is
    /// mutated.
    pub fn get_state(&self, name: &str) -> (r: Result<Value, PluginError>)
        requires
            self.wf(),
        ensures
            PluginType::state_keys().contains(name@) ==> ({
                &&& r matches Ok(v) && v@ == PluginType::state_value(
                    self.component.model(),
                    name@,
                )
            }),
            !PluginType::state_keys().contains(name@) ==> ({
                &&& r matches Err(e) && e@ == (PluginErrorV::NoSuchState { name: name@ })
            }),
    {
        let ghost keys = PluginType::state_keys();
        let n = self.access.states.len();
        let mut i: usize = 0;
        while i < n
            invariant
                n == self.access.states@.len(),
                self.access.state_names() == keys,
                self.component.states_bound(),
                keys == PluginType::state_keys(),
                i <= n,
                keys.len() == n,
                forall|j: int| 0 <= j < i ==> keys[j] != name@,
            decreases n - i,
        {
            let key: &String = &self.access.states[i];
            proof {
                assert(keys[i as int] == key@);
            }
            if str_eq(key.as_str(), name) {
                proof {
                    assert(keys.contains(name@));
                }
                return Ok(self.component.get_state(name));
            }
            i = i + 1;
        }
        proof {
            assert(!keys.contains(name@));
        }
        Err(PluginError::NoSuchState(NoSuchStateError { name: name.to_owned() }))
    }

    /// Install the failure observer: from here on every failure, first or
    /// repeated, is delivered to it. A component must have its failure
    /// observer installed before any operation that can fail.
    pub fn set_on_fail(&mut self)
        ensures
            final(self).fail_handler@ == (FailureView {
                error: old(self).fail_handler@.error,
                installed: true,
                notified: old(self).fail_handler@.notified,
            }),
            final(self).fail_handler.error_spec() == old(self).fail_handler.error_spec(),
            final(self).component == old(self).component,
            final(self).access == old(self).access,
            final(self).id == old(self).id,
            final(self).state_handler_installed == old(self).state_handler_installed,
            final(self).state_log == old(self).state_log,
    {
        self.fail_handler.set_handler();
    }

    /// Install the state-change observer: from here on every change
    /// notification is delivered to the log.
    pub fn set_on_state(&mut self)
        ensures
            final(self).state_handler_installed,
            final(self).component == old(self).component,
            final(self).access == old(self).access,
            final(self).id == old(self).id,
            final(self).fail_handler == old(self).fail_handler,
            final(self).state_log == old(self).state_log,
    {
        self.state_handler_installed = true;
    }

    /// The unique id of this component.
    pub fn id(&self) -> (r: &str)
        ensures
            r@ == self.id@,
    {
        self.id.as_str()
    }

    /// The latched error, if this component has failed.
    pub fn failure(&self) -> (r: Option<&PluginError>)
        ensures
            match r {
                Some(e) => self.fail_handler.error_spec() == Some(*e),
                None => self.fail_handler.error_spec() is None,
            },
    {
        self.fail_handler.failure()
    }
}

} // verus!
