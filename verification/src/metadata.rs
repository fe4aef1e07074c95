//! Metadata descriptors of a plugin type: its name, version, and the named
//! members (configs, states, actions) a component of that type exposes.

use vstd::prelude::*;

verus! {

/// The declared type tag of a member value.
#[derive(Clone, Copy, Debug, PartialEq, Eq, Structural)]
pub enum Type {
    Bool,
    UInt,
    Int,
    Text,
}

/// Descriptor of one declared member of a plugin: its name, its declared
/// type and a human-readable description.
#[derive(Debug)]
pub struct Member {
    pub name: String,
    pub member_type: Type,
    pub description: String,
}

/// The names of a member list, in declaration order.
pub open spec fn member_names(members: Seq<Member>) -> Seq<Seq<char>> {
    members.map_values(|m: Member| m.name@)
}

/// No two names of the list are equal.
pub open spec fn names_unique(names: Seq<Seq<char>>) -> bool {
    forall|i: int, j: int| 0 <= i < j < names.len() ==> names[i] != names[j]
}

/// Immutable descriptor of a plugin type. Created once at registration,
/// never mutated, shared read-only by every component of that type.
#[derive(Debug)]
pub struct PluginMetadata {
    pub name: String,
    pub version: String,
    pub configs: Vec<Member>,
    pub states: Vec<Member>,
    pub actions: Vec<Member>,
}

impl PluginMetadata {
    pub open spec fn config_names(self) -> Seq<Seq<char>> {
        member_names(self.configs@)
    }

    pub open spec fn state_names(self) -> Seq<Seq<char>> {
        member_names(self.states@)
    }

    pub open spec fn action_names(self) -> Seq<Seq<char>> {
        member_names(self.actions@)
    }

    /// Member names are unique within each category.
    pub open spec fn wf(self) -> bool {
        names_unique(self.config_names()) && names_unique(self.state_names())
            && names_unique(self.action_names())
    }
}

} // verus!
