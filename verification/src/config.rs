//! The project descriptor: what the configuration file declares about a
//! project, and the validation rules that materialization relies on.

use vstd::prelude::*;
use crate::text::{blank, is_blank};

verus! {

/// The subcommands the command-line front end dispatches on.
#[derive(Clone, Copy, Debug, PartialEq, Eq)]
pub enum Commands {
    /// Build the Java project
    Build,
    /// Run the Java project
    Run,
    /// Clean the build output
    Clean,
    /// Initialize a RSJ project
    Init,
}

/// One declared dependency: a logical name mapped to a backend coordinate
/// string, expected to be of the form `group:artifact:version`.
pub struct Dependency {
    pub name: String,
    pub coordinate: String,
}

/// The `[project]` table of the descriptor.
pub struct Project {
    pub name: String,
    pub version: String,
    pub main_class: String,
    /// Base namespace for the project; source directories extend it.
    pub base_namespace: String,
    /// Path to the project root.
    pub root_path: Option<String>,
    /// Optional Gradle distribution version.
    pub gradle_version: Option<String>,
    /// Optional Shadow plugin version.
    pub shadow_plugin_version: Option<String>,
    /// Whether to apply the ShadowJar plugin.
    pub use_shadow: Option<bool>,
    /// Whether to provision the pinned-version Gradle wrapper.
    pub use_wrapper: Option<bool>,
}

/// The whole project descriptor. Dependency names are logically a map's
/// keys: order carries no meaning, and duplicates are not expected.
pub struct Config {
    pub project: Project,
    pub dependencies: Option<Vec<Dependency>>,
}

/// A descriptor failing these rules is rejected before materialization.
#[derive(Clone, Copy, Debug, PartialEq, Eq)]
pub enum ConfigError {
    EmptyName,
    EmptyMainClass,
}

impl ConfigError {
    /// The message the front end reports for this error.
    pub open spec fn message_spec(self) -> Seq<char> {
        match self {
            ConfigError::EmptyName => "Project name cannot be empty in rsj.toml"@,
            ConfigError::EmptyMainClass => "Main class name cannot be empty in rsj.toml"@,
        }
    }

    pub fn message(&self) -> (r: String)
        ensures
            r@ == self.message_spec(),
    {
        match self {
            ConfigError::EmptyName => String::from_str("Project name cannot be empty in rsj.toml"),
            ConfigError::EmptyMainClass => String::from_str(
                "Main class name cannot be empty in rsj.toml",
            ),
        }
    }
}

/// A descriptor is valid when neither its project name nor its entry-point
/// class name is empty or all whitespace.
pub open spec fn valid_config(c: Config) -> bool {
    !blank(c.project.name@) && !blank(c.project.main_class@)
}

/// Validates a descriptor: a blank project name is reported first, then a
/// blank entry-point class name; any other descriptor is accepted.
pub fn validate_config(c: &Config) -> (r: Result<(), ConfigError>)
    ensures
        r is Ok <==> valid_config(*c),
        blank(c.project.name@) ==> r == Result::<(), ConfigError>::Err(ConfigError::EmptyName),
        !blank(c.project.name@) && blank(c.project.main_class@) ==> r == Result::<
            (),
            ConfigError,
        >::Err(ConfigError::EmptyMainClass),
{
    if is_blank(c.project.name.as_str()) {
        Err(ConfigError::EmptyName)
    } else if is_blank(c.project.main_class.as_str()) {
        Err(ConfigError::EmptyMainClass)
    } else {
        Ok(())
    }
}

} // verus!
