//! The typed runtime value model: tagged values exchanged with a component,
//! the type-driven conversion from a plugin's native field types, and the
//! config mapping consumed during configuration.

use crate::metadata::Type;
use vstd::prelude::*;

verus! {

/// A tagged runtime value: what a component exposes through states and
/// receives through actions.
#[derive(Debug, PartialEq)]
pub enum Value {
    Bool(bool),
    UInt(u64),
    Int(i64),
    Text(String),
}

/// The mathematical model of a `Value`: text is a sequence of characters.
pub enum ValueV {
    Bool(bool),
    UInt(u64),
    Int(i64),
    Text(Seq<char>),
}

impl View for Value {
    type V = ValueV;

    open spec fn view(&self) -> ValueV {
        match self {
            Value::Bool(b) => ValueV::Bool(*b),
            Value::UInt(n) => ValueV::UInt(*n),
            Value::Int(n) => ValueV::Int(*n),
            Value::Text(s) => ValueV::Text(s@),
        }
    }
}

/// The type tag a value carries.
pub open spec fn type_of(v: ValueV) -> Type {
    match v {
        ValueV::Bool(_) => Type::Bool,
        ValueV::UInt(_) => Type::UInt,
        ValueV::Int(_) => Type::Int,
        ValueV::Text(_) => Type::Text,
    }
}

/// Conversion from a plugin's native field type to a tagged `Value`, keyed
/// by the declared `Type` tag. The tag carried alongside a value always
/// matches the declared type of the originating member: a mismatched
/// conversion is a programming error, ruled out by the precondition.
pub trait TypedInto: Sized {
    /// The declared type tag of this native type.
    spec fn value_type() -> Type;

    /// The model of the converted value.
    spec fn to_value(self) -> ValueV;

    /// The conversion produces a value of the declared type.
    proof fn to_value_well_typed(x: Self)
        ensures
            type_of(x.to_value()) == Self::value_type(),
    ;

    fn typed_into(&self, value_type: Type) -> (v: Value)
        requires
            value_type == Self::value_type(),
        ensures
            v@ == self.to_value(),
    ;
}

impl TypedInto for bool {
    open spec fn value_type() -> Type {
        Type::Bool
    }

    open spec fn to_value(self) -> ValueV {
        ValueV::Bool(self)
    }

    proof fn to_value_well_typed(x: bool) {
    }

    fn typed_into(&self, value_type: Type) -> (v: Value) {
        Value::Bool(*self)
    }
}

impl TypedInto for u64 {
    open spec fn value_type() -> Type {
        Type::UInt
    }

    open spec fn to_value(self) -> ValueV {
        ValueV::UInt(self)
    }

    proof fn to_value_well_typed(x: u64) {
    }

    fn typed_into(&self, value_type: Type) -> (v: Value) {
        Value::UInt(*self)
    }
}

impl TypedInto for i64 {
    open spec fn value_type() -> Type {
        Type::Int
    }

    open spec fn to_value(self) -> ValueV {
        ValueV::Int(self)
    }

    proof fn to_value_well_typed(x: i64) {
    }

    fn typed_into(&self, value_type: Type) -> (v: Value) {
        Value::Int(*self)
    }
}

/// String equality at the character level.
pub fn str_eq(a: &str, b: &str) -> (r: bool)
    ensures
        r == (a@ == b@),
{
    let sa: String = a.to_owned();
    let sb: String = b.to_owned();
    sa == sb
}

/// A value supplied by the host for one config member.
#[derive(Debug, PartialEq)]
pub enum ConfigValue {
    Bool(bool),
    UInt(u64),
    Int(i64),
    Text(String),
}

/// The mathematical model of a `ConfigValue`.
pub enum ConfigValueV {
    Bool(bool),
    UInt(u64),
    Int(i64),
    Text(Seq<char>),
}

impl View for ConfigValue {
    type V = ConfigValueV;

    open spec fn view(&self) -> ConfigValueV {
        match self {
            ConfigValue::Bool(b) => ConfigValueV::Bool(*b),
            ConfigValue::UInt(n) => ConfigValueV::UInt(*n),
            ConfigValue::Int(n) => ConfigValueV::Int(*n),
            ConfigValue::Text(s) => ConfigValueV::Text(s@),
        }
    }
}

/// An externally supplied mapping from config member name to value,
/// consumed once during component configuration. Lookup finds the first
/// entry carrying the requested name.
pub struct Config {
    entries: Vec<(String, ConfigValue)>,
}

impl View for Config {
    type V = Seq<(Seq<char>, ConfigValueV)>;

    closed spec fn view(&self) -> Seq<(Seq<char>, ConfigValueV)> {
        self.entries@.map_values(|e: (String, ConfigValue)| (e.0@, e.1@))
    }
}

/// The first entry at index `i` or later whose name is `name`, if any.
pub open spec fn config_lookup_from(
    entries: Seq<(Seq<char>, ConfigValueV)>,
    i: int,
    name: Seq<char>,
) -> Option<ConfigValueV>
    decreases entries.len() - i,
{
    if i < 0 || i >= entries.len() {
        None
    } else if entries[i].0 == name {
        Some(entries[i].1)
    } else {
        config_lookup_from(entries, i + 1, name)
    }
}

/// The value bound to `name`, if any.
pub open spec fn config_lookup(
    entries: Seq<(Seq<char>, ConfigValueV)>,
    name: Seq<char>,
) -> Option<ConfigValueV> {
    config_lookup_from(entries, 0, name)
}

impl Config {
    /// An empty config.
    pub fn new() -> (r: Config)
        ensures
            r@ == Seq::<(Seq<char>, ConfigValueV)>::empty(),
    {
        let r = Config { entries: Vec::new() };
        proof {
            assert(r@ =~= Seq::<(Seq<char>, ConfigValueV)>::empty());
        }
        r
    }

    /// Append an entry for the member `name`.
    pub fn insert(&mut self, name: &str, value: ConfigValue)
        ensures
            final(self)@ == old(self)@.push((name@, value@)),
    {
        let ghost v: ConfigValueV = value@;
        self.entries.push((name.to_owned(), value));
        proof {
            assert(self@ =~= old(self)@.push((name@, v)));
        }
    }

    /// The value supplied for the member `name`, if any.
    pub fn get(&self, name: &str) -> (r: Option<&ConfigValue>)
        ensures
            match r {
                Some(v) => config_lookup(self@, name@) == Some(v@),
                None => config_lookup(self@, name@) is None,
            },
    {
        let mut i: usize = 0;
        while i < self.entries.len()
            invariant
                i <= self.entries@.len(),
                self@.len() == self.entries@.len(),
                config_lookup_from(self@, 0, name@) == config_lookup_from(self@, i as int, name@),
            decreases self.entries@.len() - i,
        {
            if str_eq(self.entries[i].0.as_str(), name) {
                return Some(&self.entries[i].1);
            }
            i = i + 1;
        }
        None
    }
}

} // verus!
