//! How a module names the shared modules and external libraries that it
//! depends on: where each comes from, which parameters it is built with, and
//! under which condition it is included.

use std::collections::HashMap;
use vstd::prelude::*;

verus! {

/// Where a dependent shared module comes from.
#[derive(Debug, PartialEq, Eq, Structural, Clone, Copy)]
pub enum ModuleDependencyType {
    /// A folder on the local file system. For development only.
    Local,
    /// A directory of a remote Git repository at a given revision.
    Remote,
    /// A version of a module of the central registry.
    Share,
    /// A module bundled with the runtime.
    Runtime,
    /// The module itself. Written by the assembler into object files, and
    /// gone from them once they are linked.
    Current,
}

/// Where a dependent external library comes from.
#[derive(Debug, PartialEq, Eq, Structural, Clone, Copy)]
pub enum ExternalLibraryDependencyType {
    Local,
    Remote,
    Share,
    Runtime,
}

impl ModuleDependencyType {
    /// The number that stands for the kind of dependency in a module image.
    pub open spec fn spec_to_u8(self) -> u8 {
        match self {
            ModuleDependencyType::Local => 0,
            ModuleDependencyType::Remote => 1,
            ModuleDependencyType::Share => 2,
            ModuleDependencyType::Runtime => 3,
            ModuleDependencyType::Current => 4,
        }
    }

    pub fn to_u8(self) -> (number: u8)
        ensures
            number == self.spec_to_u8(),
    {
        match self {
            ModuleDependencyType::Local => 0,
            ModuleDependencyType::Remote => 1,
            ModuleDependencyType::Share => 2,
            ModuleDependencyType::Runtime => 3,
            ModuleDependencyType::Current => 4,
        }
    }

    /// The kind of dependency that `number` stands for, if it stands for one.
    pub fn from_u8(number: u8) -> (found: Option<Self>)
        ensures
            found is Some <==> number < 5,
            found matches Some(dependency_type) ==> dependency_type.spec_to_u8() == number,
    {
        match number {
            0 => Some(ModuleDependencyType::Local),
            1 => Some(ModuleDependencyType::Remote),
            2 => Some(ModuleDependencyType::Share),
            3 => Some(ModuleDependencyType::Runtime),
            4 => Some(ModuleDependencyType::Current),
            _ => None,
        }
    }
}

impl ExternalLibraryDependencyType {
    /// The number that stands for the kind of dependency in a module image.
    pub open spec fn spec_to_u8(self) -> u8 {
        match self {
            ExternalLibraryDependencyType::Local => 0,
            ExternalLibraryDependencyType::Remote => 1,
            ExternalLibraryDependencyType::Share => 2,
            ExternalLibraryDependencyType::Runtime => 3,
        }
    }

    /// The name of the kind of dependency in a module's configuration.
    pub open spec fn name(self) -> Seq<char> {
        match self {
            ExternalLibraryDependencyType::Local => "local"@,
            ExternalLibraryDependencyType::Remote => "remote"@,
            ExternalLibraryDependencyType::Share => "share"@,
            ExternalLibraryDependencyType::Runtime => "runtime"@,
        }
    }

    pub fn to_u8(self) -> (number: u8)
        ensures
            number == self.spec_to_u8(),
    {
        match self {
            ExternalLibraryDependencyType::Local => 0,
            ExternalLibraryDependencyType::Remote => 1,
            ExternalLibraryDependencyType::Share => 2,
            ExternalLibraryDependencyType::Runtime => 3,
        }
    }

    /// The kind of dependency that `number` stands for, if it stands for one.
    pub fn from_u8(number: u8) -> (found: Option<Self>)
        ensures
            found is Some <==> number < 4,
            found matches Some(dependency_type) ==> dependency_type.spec_to_u8() == number,
    {
        match number {
            0 => Some(ExternalLibraryDependencyType::Local),
            1 => Some(ExternalLibraryDependencyType::Remote),
            2 => Some(ExternalLibraryDependencyType::Share),
            3 => Some(ExternalLibraryDependencyType::Runtime),
            _ => None,
        }
    }

    pub fn to_string(&self) -> (text: String)
        ensures
            text@ == self.name(),
    {
        match self {
            ExternalLibraryDependencyType::Local => "local".to_owned(),
            ExternalLibraryDependencyType::Remote => "remote".to_owned(),
            ExternalLibraryDependencyType::Share => "share".to_owned(),
            ExternalLibraryDependencyType::Runtime => "runtime".to_owned(),
        }
    }
}

/// A dependency on a shared module.
#[derive(Debug, PartialEq, Clone)]
pub enum ModuleDependency {
    Local(Box<DependencyLocal>),
    Remote(Box<DependencyRemote>),
    Share(Box<DependencyShare>),
    Runtime,
    Current,
}

/// The name under which a module refers to itself.
pub const SELF_REFERENCE_MODULE_NAME: &'static str = "module";

/// A dependency on an external library.
#[derive(Debug, PartialEq, Clone)]
pub enum ExternalLibraryDependency {
    Local(Box<DependencyLocal>),
    Remote(Box<DependencyRemote>),
    Share(Box<DependencyShare>),
    Runtime,
}

/// A dependency found on the local file system.
#[derive(Debug, PartialEq, Clone)]
pub struct DependencyLocal {
    /// The path of the module's folder, or of the library's file, relative to
    /// the folder of the depending module.
    pub path: String,
    /// The values handed to the dependency, by parameter name.
    pub parameters: HashMap<String, DependencyParameterValue>,
    /// When the dependency is included.
    pub condition: DependencyCondition,
}

/// A dependency fetched from a Git repository.
#[derive(Debug, PartialEq, Clone)]
pub struct DependencyRemote {
    /// The URL of the repository.
    pub url: String,
    /// The commit or tag to check out.
    pub reversion: String,
    /// The directory of the repository that holds the dependency; its root
    /// if `None`.
    pub dir: Option<String>,
    /// The values handed to the dependency, by parameter name.
    pub parameters: HashMap<String, DependencyParameterValue>,
    /// When the dependency is included.
    pub condition: DependencyCondition,
}

/// A dependency taken from the central registry.
#[derive(Debug, PartialEq, Clone)]
pub struct DependencyShare {
    /// The version asked for, such as `1.0.1`.
    pub version: String,
    /// The values handed to the dependency, by parameter name.
    pub parameters: HashMap<String, DependencyParameterValue>,
    /// When the dependency is included.
    pub condition: DependencyCondition,
}

/// The value of a property that a module declares.
#[derive(Debug, PartialEq, Clone)]
pub enum PropertyValue {
    String(String),
    Number(i32),
    Flag(bool),
    /// A flag that belongs to a named group of mutually exclusive flags.
    Group(String, bool),
}

/// A value handed to a dependency.
#[derive(Debug, PartialEq, Clone)]
pub enum DependencyParameterValue {
    String(String),
    Number(i32),
    Bool(bool),
    /// The value of the named property of the depending module.
    From(String),
}

/// When a dependency is included.
#[derive(Debug, PartialEq, Clone)]
pub enum DependencyCondition {
    /// Always.
    True,
    /// Never.
    False,
    /// When at least one of the checks holds.
    Any(Vec<DependencyConditionCheck>),
    /// When every check holds.
    All(Vec<DependencyConditionCheck>),
}

impl Default for DependencyCondition {
    /// A dependency without a condition is always included.
    fn default() -> (condition: Self)
        ensures
            condition == DependencyCondition::True,
    {
        Self::True
    }
}

/// One test of a property of the depending module.
#[derive(Debug, PartialEq, Clone)]
pub enum DependencyConditionCheck {
    /// The named string property has the given value.
    String(String, String),
    /// The named number property has the given value.
    Number(String, i32),
    /// The named flag is set.
    True(String),
    /// The named flag is not set.
    False(String),
}

} // verus!
