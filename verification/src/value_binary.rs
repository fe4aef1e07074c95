//! A step-relay example plugin: one boolean config `config`, one boolean
//! state `state`, and three actions. `on` and `off` drive the state when
//! their argument is true; `toggle` demonstrates failure propagation by
//! always reporting a `TestError`.

use crate::definition::{MylifePlugin, MylifePluginHooks, State};
use crate::errors::{PluginError, PluginErrorV};
use crate::metadata::{names_unique, Member, PluginMetadata, Type};
use crate::runtime::{PluginRuntimeAccess, PluginRuntimeImpl};
use crate::value::{ConfigValue, ConfigValueV, Value, ValueV};
use vstd::prelude::*;

verus! {

/// The step relay example.
pub struct ValueBinary {
    config: bool,
    state: State<bool>,
}

/// The model of a `ValueBinary`: its configured value and the current
/// value of its `state` member.
pub struct ValueBinaryModel {
    pub config: bool,
    pub state: bool,
}

/// The error `toggle` always reports.
#[derive(Debug, Clone, PartialEq)]
pub struct TestError();

impl TestError {
    /// The display message of this error.
    pub fn message(&self) -> (r: String)
        ensures
            r@ == "Boom!"@,
    {
        "Boom!".to_owned()
    }
}

impl ValueBinary {
    /// Set the state to true when `arg` is true.
    pub fn on(&mut self, arg: bool) -> (r: Result<(), PluginError>)
        requires
            old(self).states_bound(),
        ensures
            final(self).states_bound(),
            r is Ok,
            final(self).model() == (ValueBinaryModel {
                config: old(self).model().config,
                state: old(self).model().state || arg,
            }),
            final(self).notifications() == old(self).notifications() + (if arg {
                seq![("state"@, ValueV::Bool(true))]
            } else {
                Seq::<(Seq<char>, ValueV)>::empty()
            }),
    {
        if arg {
            self.state.set(true);
            proof {
                assert(self.notifications() =~= old(self).notifications() + seq![
                    ("state"@, ValueV::Bool(true)),
                ]);
            }
        } else {
            proof {
                assert(self.notifications() =~= old(self).notifications() + Seq::<(
                    Seq<char>,
                    ValueV,
                )>::empty());
            }
        }
        Ok(())
    }

    /// Set the state to false when `arg` is true.
    pub fn off(&mut self, arg: bool) -> (r: Result<(), PluginError>)
        requires
            old(self).states_bound(),
        ensures
            final(self).states_bound(),
            r is Ok,
            final(self).model() == (ValueBinaryModel {
                config: old(self).model().config,
                state: old(self).model().state && !arg,
            }),
            final(self).notifications() == old(self).notifications() + (if arg {
                seq![("state"@, ValueV::Bool(false))]
            } else {
                Seq::<(Seq<char>, ValueV)>::empty()
            }),
    {
        if arg {
            self.state.set(false);
            proof {
                assert(self.notifications() =~= old(self).notifications() + seq![
                    ("state"@, ValueV::Bool(false)),
                ]);
            }
        } else {
            proof {
                assert(self.notifications() =~= old(self).notifications() + Seq::<(
                    Seq<char>,
                    ValueV,
                )>::empty());
            }
        }
        Ok(())
    }

    /// Always report a `TestError`, leaving the state untouched.
    pub fn toggle(&mut self, arg: bool) -> (r: Result<(), PluginError>)
        ensures
            *final(self) == *old(self),
            r matches Err(e) && e@ == (PluginErrorV::Plugin { message: "Boom!"@ }),
    {
        let error = TestError();
        Err(PluginError::Plugin(error.message()))
    }
}

impl MylifePluginHooks for ValueBinary {
    type Model = ValueBinaryModel;

    closed spec fn model(self) -> ValueBinaryModel {
        ValueBinaryModel { config: self.config, state: self.state.value_spec() }
    }

    open spec fn fresh_model(id: Seq<char>) -> ValueBinaryModel {
        ValueBinaryModel { config: false, state: false }
    }

    closed spec fn states_bound(self) -> bool {
        self.state.is_bound()
    }

    closed spec fn notifications(self) -> Seq<(Seq<char>, ValueV)> {
        self.state.pending_view().map_values(|v: ValueV| ("state"@, v))
    }

    open spec fn init_step(m: ValueBinaryModel) -> (
        ValueBinaryModel,
        Seq<(Seq<char>, ValueV)>,
        Option<PluginErrorV>,
    ) {
        (
            ValueBinaryModel { config: m.config, state: m.config },
            seq![("state"@, ValueV::Bool(m.config))],
            None,
        )
    }

    fn new(id: &str) -> (r: Self) {
        let r = ValueBinary { config: false, state: State::default() };
        proof {
            assert(r.notifications() =~= Seq::<(Seq<char>, ValueV)>::empty());
        }
        r
    }

    fn init(&mut self) -> (r: Result<(), PluginError>) {
        let value = self.config;
        self.state.set(value);
        proof {
            assert(self.notifications() =~= old(self).notifications() + seq![
                ("state"@, ValueV::Bool(old(self).config)),
            ]);
        }
        Ok(())
    }
}

impl MylifePlugin for ValueBinary {
    open spec fn config_keys() -> Seq<Seq<char>> {
        seq!["config"@]
    }

    open spec fn state_keys() -> Seq<Seq<char>> {
        seq!["state"@]
    }

    open spec fn action_keys() -> Seq<Seq<char>> {
        seq!["on"@, "off"@, "toggle"@]
    }

    closed spec fn state_bound(self, key: Seq<char>) -> bool {
        if key == "state"@ {
            self.state.is_bound()
        } else {
            true
        }
    }

    open spec fn config_step(m: ValueBinaryModel, key: Seq<char>, value: ConfigValueV) -> (
        ValueBinaryModel,
        Seq<(Seq<char>, ValueV)>,
        Option<PluginErrorV>,
    ) {
        match value {
            ConfigValueV::Bool(b) => {
                (ValueBinaryModel { config: b, state: m.state }, Seq::empty(), None)
            },
            _ => {
                (
                    m,
                    Seq::empty(),
                    Some(PluginErrorV::Plugin { message: "Config 'config' expects a boolean"@ }),
                )
            },
        }
    }

    open spec fn action_step(m: ValueBinaryModel, key: Seq<char>, value: ValueV) -> (
        ValueBinaryModel,
        Seq<(Seq<char>, ValueV)>,
        Option<PluginErrorV>,
    ) {
        if key == "toggle"@ {
            (m, Seq::empty(), Some(PluginErrorV::Plugin { message: "Boom!"@ }))
        } else {
            match value {
                ValueV::Bool(b) => {
                    if !b {
                        (m, Seq::empty(), None)
                    } else if key == "on"@ {
                        (
                            ValueBinaryModel { config: m.config, state: true },
                            seq![("state"@, ValueV::Bool(true))],
                            None,
                        )
                    } else {
                        (
                            ValueBinaryModel { config: m.config, state: false },
                            seq![("state"@, ValueV::Bool(false))],
                            None,
                        )
                    }
                },
                _ => {
                    (
                        m,
                        Seq::empty(),
                        Some(PluginErrorV::Plugin { message: "Action expects a boolean"@ }),
                    )
                },
            }
        }
    }

    open spec fn state_value(m: ValueBinaryModel, key: Seq<char>) -> ValueV {
        ValueV::Bool(m.state)
    }

    proof fn lemma_all_bound(p: Self) {
        assert(p.state_bound(Self::state_keys()[0]));
        assert(Self::state_keys()[0] == "state"@);
    }

    fn runtime() -> (r: PluginRuntimeImpl<Self>) {
        let metadata = PluginMetadata {
            name: "value-binary".to_owned(),
            version: "1.0.0".to_owned(),
            configs: vec![
                Member {
                    name: "config".to_owned(),
                    member_type: Type::Bool,
                    description: "initial value".to_owned(),
                },
            ],
            states: vec![
                Member {
                    name: "state".to_owned(),
                    member_type: Type::Bool,
                    description: "actual value".to_owned(),
                },
            ],
            actions: vec![
                Member {
                    name: "on".to_owned(),
                    member_type: Type::Bool,
                    description: "set value to on".to_owned(),
                },
                Member {
                    name: "off".to_owned(),
                    member_type: Type::Bool,
                    description: "set value to off".to_owned(),
                },
                Member {
                    name: "toggle".to_owned(),
                    member_type: Type::Bool,
                    description: "toggle value".to_owned(),
                },
            ],
        };
        let access = PluginRuntimeAccess::new(
            vec!["config".to_owned()],
            vec!["state".to_owned()],
            vec!["on".to_owned(), "off".to_owned(), "toggle".to_owned()],
        );
        let r = *PluginRuntimeImpl::<ValueBinary>::new(metadata, access);
        proof {
            reveal_strlit("on");
            reveal_strlit("off");
            reveal_strlit("toggle");
            assert("on"@.len() == 2 && "off"@.len() == 3 && "toggle"@.len() == 6);
            assert(r.metadata.action_names()[0] == "on"@);
            assert(r.metadata.action_names()[1] == "off"@);
            assert(r.metadata.action_names()[2] == "toggle"@);
            assert(names_unique(r.metadata.action_names()));
            assert(r.access.config_names() =~= Self::config_keys());
            assert(r.access.state_names() =~= Self::state_keys());
            assert(r.access.action_names() =~= Self::action_keys());
            assert(r.metadata.config_names() =~= Self::config_keys());
            assert(r.metadata.state_names() =~= Self::state_keys());
            assert(r.metadata.action_names() =~= Self::action_keys());
        }
        r
    }

    fn register_state(&mut self, key: &str) {
        proof {
            assert(Self::state_keys()[0] == "state"@);
        }
        self.state.runtime_register(Type::Bool);
        proof {
            assert(old(self).notifications() == Seq::<(Seq<char>, ValueV)>::empty()
                ==> self.notifications() =~= Seq::<(Seq<char>, ValueV)>::empty());
        }
    }

    fn set_config(&mut self, key: &str, value: &ConfigValue) -> (r: Result<(), PluginError>) {
        match value {
            ConfigValue::Bool(b) => {
                self.config = *b;
                proof {
                    assert(self.notifications() =~= old(self).notifications() + Seq::<(
                        Seq<char>,
                        ValueV,
                    )>::empty());
                }
                Ok(())
            },
            _ => {
                proof {
                    assert(self.notifications() =~= old(self).notifications() + Seq::<(
                        Seq<char>,
                        ValueV,
                    )>::empty());
                }
                Err(PluginError::Plugin("Config 'config' expects a boolean".to_owned()))
            },
        }
    }

    fn execute_action(&mut self, key: &str, value: &Value) -> (r: Result<(), PluginError>) {
        if crate::value::str_eq(key, "toggle") {
            let r = self.toggle(true);
            proof {
                assert(self.notifications() =~= old(self).notifications() + Seq::<(
                    Seq<char>,
                    ValueV,
                )>::empty());
            }
            r
        } else {
            match value {
                Value::Bool(b) => {
                    if crate::value::str_eq(key, "on") {
                        self.on(*b)
                    } else {
                        proof {
                            let keys = Self::action_keys();
                            assert(keys[0] == "on"@);
                            assert(keys[1] == "off"@);
                            assert(keys[2] == "toggle"@);
                        }
                        self.off(*b)
                    }
                },
                _ => {
                    proof {
                        assert(self.notifications() =~= old(self).notifications() + Seq::<(
                            Seq<char>,
                            ValueV,
                        )>::empty());
                    }
                    Err(PluginError::Plugin("Action expects a boolean".to_owned()))
                },
            }
        }
    }

    fn get_state(&self, key: &str) -> (r: Value) {
        Value::Bool(*self.state.get())
    }

    fn drain_notifications(&mut self) -> (r: Vec<(String, Value)>) {
        let mut notes = self.state.take_notifications();
        let ghost all = notes@;
        let mut out: Vec<(String, Value)> = Vec::new();
        while notes.len() > 0
            invariant
                out@.len() + notes@.len() == all.len(),
                notes@ == all.skip(out@.len() as int),
                forall|j: int|
                    0 <= j < out@.len() ==> #[trigger] out@[j].0@ == "state"@ && out@[j].1
                        == all[j],
            decreases notes@.len(),
        {
            let ghost done = out@.len() as int;
            let v = notes.remove(0);
            proof {
                assert(v == all[done]);
                assert(notes@ =~= all.skip(done + 1));
            }
            out.push(("state".to_owned(), v));
        }
        proof {
            assert(out@.map_values(|e: (String, Value)| (e.0@, e.1@)) =~= old(
                self,
            ).notifications());
        }
        out
    }
}

/// Round trip of the bound boolean state: whatever the model, driving the
/// state to `true` through the `on` action reads back as the
/// boolean-encoded `true`, succeeds, and emits exactly one change
/// notification carrying that same value.
pub proof fn lemma_bool_state_round_trip(m: ValueBinaryModel)
    ensures
        ({
            let (m2, notes, e) = ValueBinary::action_step(m, "on"@, ValueV::Bool(true));
            &&& ValueBinary::state_value(m2, "state"@) == ValueV::Bool(true)
            &&& notes == seq![("state"@, ValueV::Bool(true))]
            &&& e is None
        }),
{
    reveal_strlit("on");
    reveal_strlit("toggle");
    assert("on"@.len() == 2 && "toggle"@.len() == 6);
}

} // verus!
