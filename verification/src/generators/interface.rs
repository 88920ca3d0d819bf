//! The generator of standalone interfaces.

use crate::compose::{compose_interface, composed_interface, STYLUS_INTERFACE};
use crate::error::{ErrorView, NothungError};
use crate::generators::{
    as_text, name_problem, optional_view, plan_single_file, single_file_plan, validate_name,
    NewFile, NewFileView,
};
use crate::language::Language;
use crate::plan::{Plan, PlanView, Snapshot, SnapshotView};
use crate::project::{Project, ProjectType};
use crate::text::{join_path, path_join};
use vstd::prelude::*;
use vstd::string::*;

verus! {

/// The directory of interfaces, below the sources.
pub const INTERFACES_DIR: &'static str = "interfaces";

/// What is reported for a Solidity interface in a project that is no Foundry
/// project.
pub const NOT_IN_FOUNDRY: &'static str = "Interface generation for Rust/Stylus projects is not yet supported";

/// Generates a standalone interface. Only Solidity has them, and only a
/// Foundry project takes them.
pub struct InterfaceGenerator {
    pub project: ProjectType,
    pub language: Language,
    pub name: String,
    pub pragma: Option<String>,
    pub license: Option<String>,
}

/// What generating an interface comes to: after the checks of language,
/// project and name, one file in the directory of interfaces.
pub open spec fn interface_plan(
    project: ProjectType,
    language: Language,
    name: Seq<char>,
    pragma: Option<Seq<char>>,
    license: Option<Seq<char>>,
    seen: SnapshotView,
) -> PlanView {
    match composed_interface(name, language, pragma, license) {
        Err(error) => PlanView::refused(error),
        Ok(contents) => if project is Cargo {
            PlanView::refused(ErrorView::Other(NOT_IN_FOUNDRY@))
        } else {
            match name_problem("Interface name"@, name) {
                Some(complaint) => PlanView::refused(ErrorView::InvalidContractName(complaint)),
                None => {
                    let folder = path_join(project.src_dir_text(), INTERFACES_DIR@);
                    single_file_plan(
                        project.directories(),
                        Some(folder),
                        NewFileView { path: path_join(folder, "I"@ + name + ".sol"@), contents },
                        seen,
                    )
                },
            }
        },
    }
}

impl InterfaceGenerator {
    /// A generator for the interface `name` in `language`.
    pub fn new(
        project: ProjectType,
        language: Language,
        name: String,
        pragma: Option<String>,
        license: Option<String>,
    ) -> (r: Self)
        ensures
            r.project == project,
            r.language == language,
            r.name == name,
            r.pragma == pragma,
            r.license == license,
    {
        Self { project, language, name, pragma, license }
    }

    /// Plans the generation over what was seen of the project.
    pub fn generate(&self, seen: &Snapshot) -> (r: Plan)
        ensures
            r@ == interface_plan(
                self.project,
                self.language,
                self.name@,
                optional_view(self.pragma),
                optional_view(self.license),
                seen@,
            ),
    {
        match self.language {
            Language::Solidity => self.generate_solidity_interface(seen),
            Language::RustStylus => self.generate_rust_interface(),
        }
    }

    /// Plans the generation of the Solidity interface.
    pub fn generate_solidity_interface(&self, seen: &Snapshot) -> (r: Plan)
        ensures
            r@ == interface_plan(
                self.project,
                Language::Solidity,
                self.name@,
                optional_view(self.pragma),
                optional_view(self.license),
                seen@,
            ),
    {
        let contents = match compose_interface(
            self.name.as_str(),
            &Language::Solidity,
            as_text(&self.pragma),
            as_text(&self.license),
        ) {
            Ok(contents) => contents,
            Err(error) => {
                return Plan::refused(error);
            },
        };
        match &self.project {
            ProjectType::Cargo(_) => {
                return Plan::refused(NothungError::other(NOT_IN_FOUNDRY));
            },
            ProjectType::Foundry(_) => {},
        }
        match validate_name("Interface name", self.name.as_str()) {
            Ok(()) => {},
            Err(error) => {
                return Plan::refused(error);
            },
        }
        let src_dir = self.project.src_dir();
        let folder = join_path(src_dir.as_str(), INTERFACES_DIR);
        let mut file_name = String::from_str("I");
        file_name.append(self.name.as_str());
        file_name.append(".sol");
        let file = NewFile { path: join_path(folder.as_str(), file_name.as_str()), contents };
        plan_single_file(&self.project, Some(folder), file, seen)
    }

    /// Refuses the generation in Rust/Stylus, where traits take the place
    /// of interfaces.
    pub fn generate_rust_interface(&self) -> (r: Plan)
        ensures
            r@ == PlanView::refused(ErrorView::Other(STYLUS_INTERFACE@)),
    {
        Plan::refused(NothungError::other(STYLUS_INTERFACE))
    }
}

} // verus!
