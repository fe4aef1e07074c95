//! A step-relay plugin: one boolean config `initial`, one boolean state
//! `on`, and one action `toggle` that inverts the state when its argument
//! is true. `init` sets the state from the configured initial value.

use crate::definition::{MylifePlugin, MylifePluginHooks, State};
use crate::errors::{PluginError, PluginErrorV};
use crate::metadata::{Member, PluginMetadata, Type};
use crate::runtime::{PluginRuntimeAccess, PluginRuntimeImpl};
use crate::value::{ConfigValue, ConfigValueV, Value, ValueV};
use vstd::prelude::*;

verus! {

/// The step relay.
pub struct Switch {
    initial_value: bool,
    on: State<bool>,
}

/// The model of a `Switch`: its configured initial value and the current
/// value of its `on` state.
pub struct SwitchModel {
    pub initial_value: bool,
    pub on: bool,
}

impl MylifePluginHooks for Switch {
    type Model = SwitchModel;

    closed spec fn model(self) -> SwitchModel {
        SwitchModel { initial_value: self.initial_value, on: self.on.value_spec() }
    }

    open spec fn fresh_model(id: Seq<char>) -> SwitchModel {
        SwitchModel { initial_value: false, on: false }
    }

    closed spec fn states_bound(self) -> bool {
        self.on.is_bound()
    }

    closed spec fn notifications(self) -> Seq<(Seq<char>, ValueV)> {
        self.on.pending_view().map_values(|v: ValueV| ("on"@, v))
    }

    open spec fn init_step(m: SwitchModel) -> (SwitchModel, Seq<(Seq<char>, ValueV)>, Option<
        PluginErrorV,
    >) {
        (
            SwitchModel { initial_value: m.initial_value, on: m.initial_value },
            seq![("on"@, ValueV::Bool(m.initial_value))],
            None,
        )
    }

    fn new(id: &str) -> (r: Self) {
        let r = Switch { initial_value: false, on: State::default() };
        proof {
            assert(r.notifications() =~= Seq::<(Seq<char>, ValueV)>::empty());
        }
        r
    }

    fn init(&mut self) -> (r: Result<(), PluginError>) {
        let value = self.initial_value;
        self.on.set(value);
        proof {
            assert(self.notifications() =~= old(self).notifications() + seq![
                ("on"@, ValueV::Bool(old(self).initial_value)),
            ]);
        }
        Ok(())
    }
}

impl MylifePlugin for Switch {
    open spec fn config_keys() -> Seq<Seq<char>> {
        seq!["initial"@]
    }

    open spec fn state_keys() -> Seq<Seq<char>> {
        seq!["on"@]
    }

    open spec fn action_keys() -> Seq<Seq<char>> {
        seq!["toggle"@]
    }

    closed spec fn state_bound(self, key: Seq<char>) -> bool {
        if key == "on"@ {
            self.on.is_bound()
        } else {
            true
        }
    }

    open spec fn config_step(m: SwitchModel, key: Seq<char>, value: ConfigValueV) -> (
        SwitchModel,
        Seq<(Seq<char>, ValueV)>,
        Option<PluginErrorV>,
    ) {
        match value {
            ConfigValueV::Bool(b) => {
                (
                    SwitchModel { initial_value: b, on: m.on },
                    Seq::empty(),
                    None,
                )
            },
            _ => {
                (
                    m,
                    Seq::empty(),
                    Some(PluginErrorV::Plugin { message: "Config 'initial' expects a boolean"@ }),
                )
            },
        }
    }

    open spec fn action_step(m: SwitchModel, key: Seq<char>, value: ValueV) -> (
        SwitchModel,
        Seq<(Seq<char>, ValueV)>,
        Option<PluginErrorV>,
    ) {
        match value {
            ValueV::Bool(b) => {
                if b {
                    (
                        SwitchModel { initial_value: m.initial_value, on: !m.on },
                        seq![("on"@, ValueV::Bool(!m.on))],
                        None,
                    )
                } else {
                    (m, Seq::empty(), None)
                }
            },
            _ => {
                (
                    m,
                    Seq::empty(),
                    Some(PluginErrorV::Plugin { message: "Action 'toggle' expects a boolean"@ }),
                )
            },
        }
    }

    open spec fn state_value(m: SwitchModel, key: Seq<char>) -> ValueV {
        ValueV::Bool(m.on)
    }

    proof fn lemma_all_bound(p: Self) {
        assert(p.state_bound(Self::state_keys()[0]));
        assert(Self::state_keys()[0] == "on"@);
    }

    fn runtime() -> (r: PluginRuntimeImpl<Self>) {
        let metadata = PluginMetadata {
            name: "switch".to_owned(),
            version: "1.0.0".to_owned(),
            configs: vec![
                Member {
                    name: "initial".to_owned(),
                    member_type: Type::Bool,
                    description: "initial value".to_owned(),
                },
            ],
            states: vec![
                Member {
                    name: "on".to_owned(),
                    member_type: Type::Bool,
                    description: "actual value".to_owned(),
                },
            ],
            actions: vec![
                Member {
                    name: "toggle".to_owned(),
                    member_type: Type::Bool,
                    description: "toggle value".to_owned(),
                },
            ],
        };
        let access = PluginRuntimeAccess::new(
            vec!["initial".to_owned()],
            vec!["on".to_owned()],
            vec!["toggle".to_owned()],
        );
        let r = *PluginRuntimeImpl::<Switch>::new(metadata, access);
        proof {
            assert(r.access.config_names() =~= Self::config_keys());
            assert(r.access.state_names() =~= Self::state_keys());
            assert(r.access.action_names() =~= Self::action_keys());
            assert(r.metadata.config_names() =~= Self::config_keys());
            assert(r.metadata.state_names() =~= Self::state_keys());
            assert(r.metadata.action_names() =~= Self::action_keys());
        }
        r
    }

    fn register_state(&mut self, key: &str) {
        proof {
            assert(Self::state_keys()[0] == "on"@);
        }
        self.on.runtime_register(Type::Bool);
        proof {
            assert(old(self).notifications() == Seq::<(Seq<char>, ValueV)>::empty()
                ==> self.notifications() =~= Seq::<(Seq<char>, ValueV)>::empty());
        }
    }

    fn set_config(&mut self, key: &str, value: &ConfigValue) -> (r: Result<(), PluginError>) {
        match value {
            ConfigValue::Bool(b) => {
                self.initial_value = *b;
                proof {
                    assert(self.notifications() =~= old(self).notifications() + Seq::<(
                        Seq<char>,
                        ValueV,
                    )>::empty());
                }
                Ok(())
            },
            _ => {
                proof {
                    assert(self.notifications() =~= old(self).notifications() + Seq::<(
                        Seq<char>,
                        ValueV,
                    )>::empty());
                }
                Err(PluginError::Plugin("Config 'initial' expects a boolean".to_owned()))
            },
        }
    }

    fn execute_action(&mut self, key: &str, value: &Value) -> (r: Result<(), PluginError>) {
        match value {
            Value::Bool(b) => {
                if *b {
                    let current = *self.on.get();
                    self.on.set(!current);
                    proof {
                        assert(self.notifications() =~= old(self).notifications() + seq![
                            ("on"@, ValueV::Bool(!old(self).on.value_spec())),
                        ]);
                    }
                } else {
                    proof {
                        assert(self.notifications() =~= old(self).notifications() + Seq::<(
                            Seq<char>,
                            ValueV,
                        )>::empty());
                    }
                }
                Ok(())
            },
            _ => {
                proof {
                    assert(self.notifications() =~= old(self).notifications() + Seq::<(
                        Seq<char>,
                        ValueV,
                    )>::empty());
                }
                Err(PluginError::Plugin("Action 'toggle' expects a boolean".to_owned()))
            },
        }
    }

    fn get_state(&self, key: &str) -> (r: Value) {
        Value::Bool(*self.on.get())
    }

    fn drain_notifications(&mut self) -> (r: Vec<(String, Value)>) {
        let mut notes = self.on.take_notifications();
        let ghost all = notes@;
        let mut out: Vec<(String, Value)> = Vec::new();
        while notes.len() > 0
            invariant
                out@.len() + notes@.len() == all.len(),
                notes@ == all.skip(out@.len() as int),
                forall|j: int|
                    0 <= j < out@.len() ==> #[trigger] out@[j].0@ == "on"@ && out@[j].1 == all[j],
            decreases notes@.len(),
        {
            let ghost done = out@.len() as int;
            let v = notes.remove(0);
            proof {
                assert(v == all[done]);
                assert(notes@ =~= all.skip(done + 1));
            }
            out.push(("on".to_owned(), v));
        }
        proof {
            assert(out@.map_values(|e: (String, Value)| (e.0@, e.1@)) =~= old(
                self,
            ).notifications());
        }
        out
    }
}

} // verus!
