//! Scaffolding for smart contracts: from the name of a resource, a token
//! standard and a list of extensions to the text of the files that make up
//! the resource, and to a plan for writing them into a project.
//!
//! The library decides and composes; it reads and writes nothing. Every
//! function is verified against a contract that states its result.

pub mod commands;
pub mod compose;
pub mod error;
pub mod extensions;
pub mod foundry;
pub mod generators;
pub mod language;
pub mod plan;
pub mod project;
pub mod templates;
pub mod text;
pub mod wizard;

pub use commands::{determine_contract_type, execute_new, validate_extensions_compatibility};
pub use compose::{compose, compose_abstract, compose_interface, compose_library, Composition};
pub use error::{GramrError, NothungError};
pub use extensions::{parse_extension, parse_extensions};
pub use foundry::FoundryProject;
pub use generators::{
    AbstractContractGenerator, ConfigGenerator, ContractGenerator, GenericContractGenerator,
    InterfaceGenerator, LibraryGenerator, ScriptGenerator, TestGenerator,
};
pub use language::Language;
pub use plan::{Plan, Snapshot, Step, Tool};
pub use project::{CargoProject, Project, ProjectType};
pub use templates::{
    ContractType, SolidityTemplate, Standard, StylusTemplate, Template, TokenExtension,
};

use crate::compose::{DEFAULT_LICENSE, DEFAULT_PRAGMA};
use crate::generators::contract_plan;
use crate::templates::solidity::contract_source;
use vstd::prelude::*;
use vstd::string::*;

verus! {

/// The version of the library.
pub const VERSION: &'static str = "0.1.0";

/// A text handed over as a borrowed or as an owned string.
pub trait IntoText {
    /// The characters handed over.
    spec fn text(&self) -> Seq<char>;

    /// The text as an owned string.
    fn into_text(self) -> (r: String)
        ensures
            r@ == self.text(),
    ;
}

impl IntoText for &str {
    open spec fn text(&self) -> Seq<char> {
        self@
    }

    fn into_text(self) -> (r: String) {
        String::from_str(self)
    }
}

impl IntoText for String {
    open spec fn text(&self) -> Seq<char> {
        self@
    }

    fn into_text(self) -> (r: String) {
        self
    }
}

/// Builds a Solidity contract step by step: a name, then optionally a type,
/// a compiler version and a license.
pub struct ContractBuilder {
    pub name: String,
    pub contract_type: ContractType,
    pub pragma: String,
    pub license: String,
}

impl ContractBuilder {
    /// A builder for the basic contract `name`, with the default compiler
    /// version and license.
    pub fn new<T: IntoText>(name: T) -> (r: Self)
        ensures
            r.name@ == name.text(),
            r.contract_type@ == crate::templates::ContractView::Basic,
            r.pragma@ == DEFAULT_PRAGMA@,
            r.license@ == DEFAULT_LICENSE@,
    {
        Self {
            name: name.into_text(),
            contract_type: ContractType::Basic,
            pragma: String::from_str(DEFAULT_PRAGMA),
            license: String::from_str(DEFAULT_LICENSE),
        }
    }

    /// The same builder with the contract type replaced.
    pub fn contract_type(self, contract_type: ContractType) -> (r: Self)
        ensures
            r.contract_type == contract_type,
            r.name == self.name,
            r.pragma == self.pragma,
            r.license == self.license,
    {
        Self {
            name: self.name,
            contract_type,
            pragma: self.pragma,
            license: self.license,
        }
    }

    /// The same builder with the compiler version replaced.
    pub fn pragma<T: IntoText>(self, pragma: T) -> (r: Self)
        ensures
            r.pragma@ == pragma.text(),
            r.name == self.name,
            r.contract_type == self.contract_type,
            r.license == self.license,
    {
        Self {
            name: self.name,
            contract_type: self.contract_type,
            pragma: pragma.into_text(),
            license: self.license,
        }
    }

    /// The same builder with the license replaced.
    pub fn license<T: IntoText>(self, license: T) -> (r: Self)
        ensures
            r.license@ == license.text(),
            r.name == self.name,
            r.contract_type == self.contract_type,
            r.pragma == self.pragma,
    {
        Self {
            name: self.name,
            contract_type: self.contract_type,
            pragma: self.pragma,
            license: license.into_text(),
        }
    }

    /// The text of the contract.
    pub fn build(self) -> (r: String)
        ensures
            r@ == contract_source(self.name@, self.pragma@, self.license@, self.contract_type@),
    {
        let template = SolidityTemplate::new(
            self.name,
            self.contract_type,
            self.pragma,
            self.license,
        );
        template.generate_contract()
    }

    /// Plans the writing of the contract into a Foundry project, without a
    /// test and without a script.
    pub fn generate(self, project: FoundryProject, seen: &Snapshot) -> (r: Plan)
        ensures
            r@ == contract_plan(
                project,
                Language::Solidity,
                self.name@,
                self.contract_type@,
                false,
                false,
                Some(self.pragma@),
                Some(self.license@),
                seen@,
            ),
    {
        let generator = ContractGenerator::new(
            project,
            self.name,
            self.contract_type,
            false,
            false,
            self.pragma,
            self.license,
        );
        generator.generate(seen)
    }
}

} // verus!
