//! What a plugin type provides to the runtime: the construction and
//! initialization hooks, the name-keyed dispatch interface driven by the
//! component runtime, and the `State` container plugin fields use for
//! observable values.

use crate::errors::{PluginError, PluginErrorV};
use crate::metadata::Type;
use crate::runtime::PluginRuntimeImpl;
use crate::value::{config_lookup, ConfigValue, ConfigValueV, TypedInto, Value, ValueV};
use vstd::prelude::*;

verus! {

/// Data attached to a `State` once it is bound to the runtime: the declared
/// type tag of the member, and the change notifications produced by `set`
/// and not yet collected by the component runtime.
struct StateRuntimeData {
    value_type: Type,
    pending: Vec<Value>,
}

/// A named, typed, observable value owned by one component instance.
///
/// A state starts unbound; the runtime binds it once, during component
/// construction, before first use. After binding, every `set` stores the
/// new value, converts it to a `Value` using the bound type tag, and
/// records that value as a change notification for the runtime to deliver.
pub struct State<T: TypedInto> {
    value: T,
    runtime: Option<StateRuntimeData>,
}

impl<T: TypedInto> State<T> {
    /// The current value.
    pub closed spec fn value_spec(self) -> T {
        self.value
    }

    /// Whether the state has been bound to the runtime. The type tag bound
    /// alongside a state always matches the declared type of the native
    /// field: binding establishes that, and nothing disturbs it.
    pub closed spec fn is_bound(self) -> bool {
        self.runtime matches Some(d) && d.value_type == T::value_type()
    }

    /// The change notifications not yet collected, in the order the `set`
    /// calls produced them.
    pub closed spec fn pending_view(self) -> Seq<ValueV> {
        match self.runtime {
            Some(d) => d.pending@.map_values(|v: Value| v@),
            None => Seq::empty(),
        }
    }

    /// Store `value`, convert it with the bound type tag and record the
    /// converted value as one change notification. Calling `set` on an
    /// unbound state is a programming error.
    pub fn set(&mut self, value: T)
        requires
            old(self).is_bound(),
        ensures
            final(self).is_bound(),
            final(self).value_spec() == value,
            final(self).pending_view() == old(self).pending_view().push(value.to_value()),
    {
        self.value = value;
        match &mut self.runtime {
            Some(d) => {
                let converted = self.value.typed_into(d.value_type);
                d.pending.push(converted);
            },
            None => {},
        }
        proof {
            assert(self.pending_view() =~= old(self).pending_view().push(value.to_value()));
        }
    }

    /// Read the current value.
    pub fn get(&self) -> (r: &T)
        ensures
            *r == self.value_spec(),
    {
        &self.value
    }

    /// Bind the state to the runtime under the declared type tag of its
    /// member, clearing any notifications.
    pub fn runtime_register(&mut self, value_type: Type)
        requires
            value_type == T::value_type(),
        ensures
            final(self).is_bound(),
            final(self).value_spec() == old(self).value_spec(),
            final(self).pending_view() == Seq::<ValueV>::empty(),
    {
        self.runtime = Some(StateRuntimeData { value_type, pending: Vec::new() });
        proof {
            assert(self.pending_view() =~= Seq::<ValueV>::empty());
        }
    }

    /// Hand the recorded change notifications to the runtime and clear
    /// them.
    pub fn take_notifications(&mut self) -> (r: Vec<Value>)
        ensures
            r@.map_values(|v: Value| v@) == old(self).pending_view(),
            final(self).is_bound() == old(self).is_bound(),
            final(self).value_spec() == old(self).value_spec(),
            final(self).pending_view() == Seq::<ValueV>::empty(),
    {
        let mut out: Vec<Value> = Vec::new();
        match &mut self.runtime {
            Some(d) => {
                core::mem::swap(&mut out, &mut d.pending);
            },
            None => {},
        }
        proof {
            assert(self.pending_view() =~= Seq::<ValueV>::empty());
            assert(out@.map_values(|v: Value| v@) =~= old(self).pending_view());
        }
        out
    }
}

impl<T: TypedInto + Default> Default for State<T> {
    /// A fresh, unbound state holding `T`'s default value.
    fn default() -> (r: Self)
        ensures
            !r.is_bound(),
            r.pending_view() == Seq::<ValueV>::empty(),
            T::default.ensures((), r.value_spec()),
    {
        State { value: T::default(), runtime: None }
    }
}

/// Hooks every plugin type implements for the runtime: construction with
/// the component id, and user-defined initialization after configuration.
pub trait MylifePluginHooks: Sized {
    /// The mathematical model of a plugin value: its config and state
    /// member values, with the runtime bookkeeping abstracted away.
    type Model;

    /// The model of this plugin value.
    spec fn model(self) -> Self::Model;

    /// The model of the value `new` constructs for a component id.
    spec fn fresh_model(id: Seq<char>) -> Self::Model;

    /// Whether every state member has been bound to the runtime.
    spec fn states_bound(self) -> bool;

    /// The change notifications recorded by the state members and not yet
    /// collected: pairs of member name and converted value, in the order
    /// the `set` calls produced them.
    spec fn notifications(self) -> Seq<(Seq<char>, ValueV)>;

    /// The effect of `init` on a model: the successor model, the change
    /// notifications it emits, and the error it reports, if any.
    spec fn init_step(m: Self::Model) -> (Self::Model, Seq<(Seq<char>, ValueV)>, Option<
        PluginErrorV,
    >);

    /// Construct a fresh plugin instance for the component named `id`.
    fn new(id: &str) -> (r: Self)
        ensures
            r.model() == Self::fresh_model(id@),
            r.notifications() == Seq::<(Seq<char>, ValueV)>::empty(),
    ;

    /// Initialization hook, called once, after configuration.
    fn init(&mut self) -> (r: Result<(), PluginError>)
        requires
            old(self).states_bound(),
        ensures
            final(self).states_bound(),
            ({
                let (m, notes, e) = Self::init_step(old(self).model());
                &&& final(self).model() == m
                &&& final(self).notifications() == old(self).notifications() + notes
                &&& match r {
                    Ok(u) => e is None,
                    Err(err) => e == Some(err@),
                }
            }),
    ;
}

/// The dispatch interface of a plugin type: name-keyed access to its
/// config, state and action members. The runtime drives every concrete
/// plugin type only through these operations.
pub trait MylifePlugin: MylifePluginHooks {
    /// Declared config member names, in declaration order.
    spec fn config_keys() -> Seq<Seq<char>>;

    /// Declared state member names, in declaration order.
    spec fn state_keys() -> Seq<Seq<char>>;

    /// Declared action member names, in declaration order.
    spec fn action_keys() -> Seq<Seq<char>>;

    /// Whether the state member `key` has been bound to the runtime.
    spec fn state_bound(self, key: Seq<char>) -> bool;

    /// The effect of setting the config member `key` to `value`: the
    /// successor model, the change notifications the setter emits, and
    /// the error it reports, if any.
    spec fn config_step(m: Self::Model, key: Seq<char>, value: ConfigValueV) -> (
        Self::Model,
        Seq<(Seq<char>, ValueV)>,
        Option<PluginErrorV>,
    );

    /// The effect of the action member `key` on argument `value`.
    spec fn action_step(m: Self::Model, key: Seq<char>, value: ValueV) -> (
        Self::Model,
        Seq<(Seq<char>, ValueV)>,
        Option<PluginErrorV>,
    );

    /// The current value of the state member `key`.
    spec fn state_value(m: Self::Model, key: Seq<char>) -> ValueV;

    /// Once every declared state member is bound, the plugin's states are
    /// bound.
    proof fn lemma_all_bound(p: Self)
        requires
            forall|i: int|
                0 <= i < Self::state_keys().len() ==> p.state_bound(
                    #[trigger] Self::state_keys()[i],
                ),
        ensures
            p.states_bound(),
    ;

    /// The typed runtime of this plugin type: its metadata and the access
    /// table the component runtime dispatches through. Both name exactly
    /// the declared members, in declaration order.
    fn runtime() -> (r: PluginRuntimeImpl<Self>)
        ensures
            r.access.config_names() == Self::config_keys(),
            r.access.state_names() == Self::state_keys(),
            r.access.action_names() == Self::action_keys(),
            r.metadata.config_names() == Self::config_keys(),
            r.metadata.state_names() == Self::state_keys(),
            r.metadata.action_names() == Self::action_keys(),
            r.metadata.wf(),
    ;

    /// Bind the state member `key` to the runtime.
    fn register_state(&mut self, key: &str)
        requires
            Self::state_keys().contains(key@),
        ensures
            final(self).model() == old(self).model(),
            final(self).state_bound(key@),
            forall|k: Seq<char>| #[trigger]
                old(self).state_bound(k) ==> final(self).state_bound(k),
            old(self).notifications() == Seq::<(Seq<char>, ValueV)>::empty()
                ==> final(self).notifications() == Seq::<(Seq<char>, ValueV)>::empty(),
    ;

    /// Apply the typed setter of the config member `key` to `value`.
    fn set_config(&mut self, key: &str, value: &ConfigValue) -> (r: Result<(), PluginError>)
        requires
            Self::config_keys().contains(key@),
            old(self).states_bound(),
        ensures
            final(self).states_bound(),
            ({
                let (m, notes, e) = Self::config_step(old(self).model(), key@, value@);
                &&& final(self).model() == m
                &&& final(self).notifications() == old(self).notifications() + notes
                &&& match r {
                    Ok(u) => e is None,
                    Err(err) => e == Some(err@),
                }
            }),
    ;

    /// Invoke the typed executor of the action member `key` with `value`.
    fn execute_action(&mut self, key: &str, value: &Value) -> (r: Result<(), PluginError>)
        requires
            Self::action_keys().contains(key@),
            old(self).states_bound(),
        ensures
            final(self).states_bound(),
            ({
                let (m, notes, e) = Self::action_step(old(self).model(), key@, value@);
                &&& final(self).model() == m
                &&& final(self).notifications() == old(self).notifications() + notes
                &&& match r {
                    Ok(u) => e is None,
                    Err(err) => e == Some(err@),
                }
            }),
    ;

    /// Read the current value of the state member `key` through its
    /// registered getter.
    fn get_state(&self, key: &str) -> (r: Value)
        requires
            Self::state_keys().contains(key@),
            self.states_bound(),
        ensures
            r@ == Self::state_value(self.model(), key@),
    ;

    /// Collect and clear the change notifications of every state member,
    /// in the order they were produced.
    fn drain_notifications(&mut self) -> (r: Vec<(String, Value)>)
        ensures
            r@.map_values(|e: (String, Value)| (e.0@, e.1@)) == old(self).notifications(),
            final(self).model() == old(self).model(),
            final(self).states_bound() == old(self).states_bound(),
            final(self).notifications() == Seq::<(Seq<char>, ValueV)>::empty(),
    ;
}

/// The effect of configuring the members `keys[i..]`, in order, from the
/// config entries `cfg`: the model after the applied setters, the change
/// notifications they emitted, and the error that stopped the iteration,
/// if any. The first member with no config entry stops the iteration with
/// a "config key not set" error, and the first setter error stops it with
/// that error; later setters are not applied.
pub open spec fn apply_configs_from<P: MylifePlugin>(
    m: P::Model,
    keys: Seq<Seq<char>>,
    i: int,
    cfg: Seq<(Seq<char>, ConfigValueV)>,
) -> (P::Model, Seq<(Seq<char>, ValueV)>, Option<PluginErrorV>)
    decreases keys.len() - i,
{
    if i < 0 || i >= keys.len() {
        (m, Seq::empty(), None)
    } else {
        match config_lookup(cfg, keys[i]) {
            None => (m, Seq::empty(), Some(PluginErrorV::ConfigNotSet { key: keys[i] })),
            Some(v) => {
                let (m2, notes, e) = P::config_step(m, keys[i], v);
                if e is Some {
                    (m2, notes, e)
                } else {
                    let (m3, notes3, e3) = apply_configs_from::<P>(m2, keys, i + 1, cfg);
                    (m3, notes + notes3, e3)
                }
            },
        }
    }
}

} // verus!
