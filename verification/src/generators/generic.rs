//! The generator of contracts in either language.

use crate::error::{ErrorView, NothungError};
use crate::generators::{
    as_text, check_and_install_dependencies, contract_plan, dependency_steps,
    language_objection, name_problem, optional_view, plan_contract, required_dependency,
    validate_language_compatibility, validate_name,
};
use crate::language::Language;
use crate::plan::{step_views, Plan, Snapshot, Step, StepView};
use crate::project::ProjectType;
use crate::templates::ContractType;
use vstd::prelude::*;
use vstd::string::*;

verus! {

/// Generates a contract in either language, with its test and its script
/// where they are asked for. `pragma` and `license` count for Solidity
/// only; where they are missing the defaults are used.
pub struct GenericContractGenerator {
    pub project: ProjectType,
    pub language: Language,
    pub contract_name: String,
    pub contract_type: ContractType,
    pub with_test: bool,
    pub with_script: bool,
    pub pragma: Option<String>,
    pub license: Option<String>,
}

impl GenericContractGenerator {
    /// A generator for the contract `contract_name` of type `contract_type`
    /// in `language`.
    pub fn new(
        project: ProjectType,
        language: Language,
        contract_name: String,
        contract_type: ContractType,
        with_test: bool,
        with_script: bool,
        pragma: Option<String>,
        license: Option<String>,
    ) -> (r: Self)
        ensures
            r.project == project,
            r.language == language,
            r.contract_name == contract_name,
            r.contract_type == contract_type,
            r.with_test == with_test,
            r.with_script == with_script,
            r.pragma == pragma,
            r.license == license,
    {
        Self {
            project,
            language,
            contract_name,
            contract_type,
            with_test,
            with_script,
            pragma,
            license,
        }
    }

    /// Checks that the contract's name is a valid name.
    pub fn validate_name(&self) -> (r: Result<(), NothungError>)
        ensures
            match r {
                Ok(()) => name_problem("Contract name"@, self.contract_name@) is None,
                Err(error) => name_problem("Contract name"@, self.contract_name@) == Some(
                    error@->InvalidContractName_0,
                ) && error@ is InvalidContractName,
            },
    {
        validate_name("Contract name", self.contract_name.as_str())
    }

    /// Checks that the language has the test and the script that were asked
    /// for.
    pub fn validate_language_compatibility(&self) -> (r: Result<(), NothungError>)
        ensures
            match r {
                Ok(()) => language_objection(self.language, self.with_test, self.with_script)
                    is None,
                Err(error) => language_objection(self.language, self.with_test, self.with_script)
                    == Some(error@),
            },
    {
        validate_language_compatibility(&self.language, self.with_test, self.with_script)
    }

    /// Decides whether the package the contract needs has to be installed,
    /// and plans the installation where it is missing.
    pub fn check_and_install_dependencies(&self, seen: &Snapshot) -> (r: Result<
        Vec<Step>,
        NothungError,
    >)
        ensures
            match r {
                Ok(steps) => dependency_steps(
                    self.project,
                    required_dependency(self.contract_type@),
                    seen@,
                ) == Ok::<Seq<StepView>, ErrorView>(step_views(steps@)),
                Err(error) => dependency_steps(
                    self.project,
                    required_dependency(self.contract_type@),
                    seen@,
                ) == Err::<Seq<StepView>, ErrorView>(error@),
            },
    {
        check_and_install_dependencies(&self.project, &self.contract_type, seen)
    }

    /// Plans the generation over what was seen of the project.
    pub fn generate(&self, seen: &Snapshot) -> (r: Plan)
        ensures
            r@ == contract_plan(
                self.project,
                self.language,
                self.contract_name@,
                self.contract_type@,
                self.with_test,
                self.with_script,
                optional_view(self.pragma),
                optional_view(self.license),
                seen@,
            ),
    {
        plan_contract(
            &self.project,
            &self.language,
            self.contract_name.as_str(),
            &self.contract_type,
            self.with_test,
            self.with_script,
            as_text(&self.pragma),
            as_text(&self.license),
            seen,
        )
    }
}

} // verus!
