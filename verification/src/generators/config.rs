//! The generator of configuration files, which is not there yet.

use crate::error::{ErrorView, NothungError};
use crate::language::Language;
use crate::plan::{Plan, PlanView};
use crate::project::ProjectType;
use vstd::prelude::*;
use vstd::string::*;

verus! {

/// How the message about configuration files starts.
pub const CONFIG_PREFIX: &'static str = "Config generation for '";

/// How the message about configuration files ends.
pub const CONFIG_SUFFIX: &'static str =
    "' is not yet implemented! This will be used to quickly scaffold config files like slither.json, foundry.toml, etc.";

/// Stands for the generator of configuration files. Every request ends in
/// the error that says so.
pub struct ConfigGenerator {
    pub project: ProjectType,
    pub language: Language,
    pub name: String,
}

/// The message about the configuration file `name`.
pub open spec fn config_message(name: Seq<char>) -> Seq<char> {
    CONFIG_PREFIX@ + name + CONFIG_SUFFIX@
}

impl ConfigGenerator {
    /// A generator for the configuration file `name`.
    pub fn new(project: ProjectType, language: Language, name: String) -> (r: Self)
        ensures
            r.project == project,
            r.language == language,
            r.name == name,
    {
        Self { project, language, name }
    }

    /// Refuses the request: configuration files are not implemented.
    pub fn generate(&self) -> (r: Plan)
        ensures
            r@ == PlanView::refused(ErrorView::Other(config_message(self.name@))),
    {
        let mut message = String::from_str(CONFIG_PREFIX);
        message.append(self.name.as_str());
        message.append(CONFIG_SUFFIX);
        Plan::refused(NothungError::Other(message))
    }
}

} // verus!
