//! The error kinds the runtime itself defines, and the uniform error type
//! routed through a component's failure channel.

use vstd::prelude::*;
use vstd::string::StringExecFns;

verus! {

/// Error: `configure` found no entry for a declared config member.
#[derive(Debug, PartialEq)]
pub struct ConfigNotSetError {
    pub name: String,
}

impl ConfigNotSetError {
    /// The display message of this error.
    pub fn message(&self) -> (r: String)
        ensures
            r@ == "Config key not set: '"@ + self.name@ + "'"@,
    {
        let mut s: String = "Config key not set: '".to_owned();
        s.append(self.name.as_str());
        s.append("'");
        s
    }
}

/// Error: `execute_action` was given a name no action member carries.
#[derive(Debug, PartialEq)]
pub struct NoSuchActionError {
    pub name: String,
}

impl NoSuchActionError {
    /// The display message of this error.
    pub fn message(&self) -> (r: String)
        ensures
            r@ == "No such action: '"@ + self.name@ + "'"@,
    {
        let mut s: String = "No such action: '".to_owned();
        s.append(self.name.as_str());
        s.append("'");
        s
    }
}

/// Error: `get_state` was given a name no state member carries.
#[derive(Debug, PartialEq)]
pub struct NoSuchStateError {
    pub name: String,
}

impl NoSuchStateError {
    /// The display message of this error.
    pub fn message(&self) -> (r: String)
        ensures
            r@ == "No such state: '"@ + self.name@ + "'"@,
    {
        let mut s: String = "No such state: '".to_owned();
        s.append(self.name.as_str());
        s.append("'");
        s
    }
}

/// Any error surfaced by a component: the kinds the runtime defines, or a
/// plugin-defined error carrying its message.
#[derive(Debug, PartialEq)]
pub enum PluginError {
    ConfigNotSet(ConfigNotSetError),
    NoSuchAction(NoSuchActionError),
    NoSuchState(NoSuchStateError),
    Plugin(String),
}

/// The mathematical model of a `PluginError`.
pub enum PluginErrorV {
    ConfigNotSet { key: Seq<char> },
    NoSuchAction { name: Seq<char> },
    NoSuchState { name: Seq<char> },
    Plugin { message: Seq<char> },
}

impl View for PluginError {
    type V = PluginErrorV;

    open spec fn view(&self) -> PluginErrorV {
        match self {
            PluginError::ConfigNotSet(e) => PluginErrorV::ConfigNotSet { key: e.name@ },
            PluginError::NoSuchAction(e) => PluginErrorV::NoSuchAction { name: e.name@ },
            PluginError::NoSuchState(e) => PluginErrorV::NoSuchState { name: e.name@ },
            PluginError::Plugin(m) => PluginErrorV::Plugin { message: m@ },
        }
    }
}

/// The display message of an error model.
pub open spec fn error_message(e: PluginErrorV) -> Seq<char> {
    match e {
        PluginErrorV::ConfigNotSet { key } => "Config key not set: '"@ + key + "'"@,
        PluginErrorV::NoSuchAction { name } => "No such action: '"@ + name + "'"@,
        PluginErrorV::NoSuchState { name } => "No such state: '"@ + name + "'"@,
        PluginErrorV::Plugin { message } => message,
    }
}

impl PluginError {
    /// The display message of this error.
    pub fn message(&self) -> (r: String)
        ensures
            r@ == error_message(self@),
    {
        match self {
            PluginError::ConfigNotSet(e) => e.message(),
            PluginError::NoSuchAction(e) => e.message(),
            PluginError::NoSuchState(e) => e.message(),
            PluginError::Plugin(m) => m.clone(),
        }
    }
}

} // verus!
