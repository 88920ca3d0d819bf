//! The generator of Solidity contracts in a Foundry project.

use crate::foundry::FoundryProject;
use crate::error::{ErrorView, NothungError};
use crate::generators::{
    check_and_install_dependencies, contract_plan, dependency_steps, name_problem, plan_contract,
    required_dependency, validate_name,
};
use crate::language::Language;
use crate::plan::{step_views, Plan, Snapshot, Step, StepView};
use crate::templates::ContractType;
use vstd::prelude::*;
use vstd::string::*;

verus! {

/// Generates a Solidity contract, with its test and its script where they
/// are asked for, into a Foundry project.
pub struct ContractGenerator {
    pub project: FoundryProject,
    pub contract_name: String,
    pub contract_type: ContractType,
    pub with_test: bool,
    pub with_script: bool,
    pub pragma: String,
    pub license: String,
}

impl ContractGenerator {
    /// A generator for the contract `contract_name` of type `contract_type`.
    pub fn new(
        project: FoundryProject,
        contract_name: String,
        contract_type: ContractType,
        with_test: bool,
        with_script: bool,
        pragma: String,
        license: String,
    ) -> (r: Self)
        ensures
            r.project == project,
            r.contract_name == contract_name,
            r.contract_type == contract_type,
            r.with_test == with_test,
            r.with_script == with_script,
            r.pragma == pragma,
            r.license == license,
    {
        Self { project, contract_name, contract_type, with_test, with_script, pragma, license }
    }

    /// Checks that the contract's name is a valid name.
    pub fn validate_name(&self) -> (r: Result<(), NothungError>)
        ensures
            match r {
                Ok(()) => name_problem("Contract name"@, self.contract_name@) is None,
                Err(error) => name_problem("Contract name"@, self.contract_name@) == Some(
                    error@->InvalidContractName_0,
                ) && error@ is InvalidContractName,
            },
    {
        validate_name("Contract name", self.contract_name.as_str())
    }

    /// Decides whether the package the contract needs has to be installed,
    /// and plans the installation where it is missing.
    pub fn check_and_install_dependencies(&self, seen: &Snapshot) -> (r: Result<
        Vec<Step>,
        NothungError,
    >)
        ensures
            match r {
                Ok(steps) => dependency_steps(
                    self.project,
                    required_dependency(self.contract_type@),
                    seen@,
                ) == Ok::<Seq<StepView>, ErrorView>(step_views(steps@)),
                Err(error) => dependency_steps(
                    self.project,
                    required_dependency(self.contract_type@),
                    seen@,
                ) == Err::<Seq<StepView>, ErrorView>(error@),
            },
    {
        check_and_install_dependencies(&self.project, &self.contract_type, seen)
    }

    /// Plans the generation over what was seen of the project.
    pub fn generate(&self, seen: &Snapshot) -> (r: Plan)
        ensures
            r@ == contract_plan(
                self.project,
                Language::Solidity,
                self.contract_name@,
                self.contract_type@,
                self.with_test,
                self.with_script,
                Some(self.pragma@),
                Some(self.license@),
                seen@,
            ),
    {
        plan_contract(
            &self.project,
            &Language::Solidity,
            self.contract_name.as_str(),
            &self.contract_type,
            self.with_test,
            self.with_script,
            Some(self.pragma.as_str()),
            Some(self.license.as_str()),
            seen,
        )
    }
}

} // verus!
