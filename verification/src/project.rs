//! The two kinds of project a resource can be generated into, and what
//! both offer: the directories for sources, tests and scripts, a probe for
//! the token-standard package, and the step that installs it.

use crate::error::{ErrorView, NothungError};
use crate::foundry::{
    find_root, forge_install, nearest_marked, none_marked, FoundryProject, FOUNDRY_MARKER,
    OPENZEPPELIN_PACKAGE, OPENZEPPELIN_UPGRADEABLE_PACKAGE,
};
use crate::language::Language;
use crate::plan::{step_views, Snapshot, SnapshotView, Step, StepView, Tool};
use crate::text::{contains_text, join_path, occurs_in, path_join, texts};
use vstd::prelude::*;
use vstd::string::*;

verus! {

/// The manifest of a Cargo project.
pub const CARGO_MANIFEST: &'static str = "Cargo.toml";

/// The name of the token-standard package for Rust/Stylus. A manifest that
/// mentions it anywhere counts as depending on it.
pub const STYLUS_PACKAGE: &'static str = "openzeppelin-stylus";

/// What `cargo add` is given to install the token-standard package.
pub const STYLUS_REQUIREMENT: &'static str = "openzeppelin-stylus@=0.3.0";

/// What is reported where no manifest is found.
pub const NO_MANIFEST: &'static str =
    "No Cargo.toml found. Please run from a Rust project directory.";

/// What is reported for the upgradeable package in a Cargo project.
pub const NO_UPGRADEABLE_STYLUS: &'static str =
    "Upgradeable contracts are not yet supported for Rust/Stylus projects";

/// What a project of either kind offers to the generators.
pub trait Project {
    /// The directory of sources.
    spec fn src_dir_text(&self) -> Seq<char>;

    /// The directory of tests.
    spec fn test_dir_text(&self) -> Seq<char>;

    /// The directory of scripts.
    spec fn script_dir_text(&self) -> Seq<char>;

    /// The steps that create the project's directories.
    spec fn directories(&self) -> Seq<StepView>;

    /// Whether the snapshot shows the token-standard package.
    spec fn openzeppelin_seen(&self, seen: SnapshotView) -> bool;

    /// Whether the snapshot shows the upgradeable token-standard package.
    spec fn openzeppelin_upgradeable_seen(&self, seen: SnapshotView) -> bool;

    /// The step that installs the token-standard package.
    spec fn installation(&self) -> StepView;

    /// The step that installs the upgradeable token-standard package, or why
    /// there is none.
    spec fn upgradeable_installation(&self) -> Result<StepView, ErrorView>;

    fn ensure_directories(&self) -> (r: Vec<Step>)
        ensures
            step_views(r@) == self.directories(),
    ;

    fn src_dir(&self) -> (r: String)
        ensures
            r@ == self.src_dir_text(),
    ;

    fn test_dir(&self) -> (r: String)
        ensures
            r@ == self.test_dir_text(),
    ;

    fn script_dir(&self) -> (r: String)
        ensures
            r@ == self.script_dir_text(),
    ;

    fn has_openzeppelin(&self, seen: &Snapshot) -> (r: bool)
        ensures
            r == self.openzeppelin_seen(seen@),
    ;

    fn install_openzeppelin(&self) -> (r: Result<Step, NothungError>)
        ensures
            r matches Ok(step) && step@ == self.installation(),
    ;

    fn has_openzeppelin_upgradeable(&self, seen: &Snapshot) -> (r: bool)
        ensures
            r == self.openzeppelin_upgradeable_seen(seen@),
    ;

    fn install_openzeppelin_upgradeable(&self) -> (r: Result<Step, NothungError>)
        ensures
            match r {
                Ok(step) => self.upgradeable_installation() == Ok::<StepView, ErrorView>(step@),
                Err(error) => self.upgradeable_installation() == Err::<StepView, ErrorView>(
                    error@,
                ),
            },
    ;
}

impl Project for FoundryProject {
    open spec fn src_dir_text(&self) -> Seq<char> {
        self.src_dir@
    }

    open spec fn test_dir_text(&self) -> Seq<char> {
        self.test_dir@
    }

    open spec fn script_dir_text(&self) -> Seq<char> {
        self.script_dir@
    }

    open spec fn directories(&self) -> Seq<StepView> {
        self.directory_steps()
    }

    open spec fn openzeppelin_seen(&self, seen: SnapshotView) -> bool {
        self.sees_openzeppelin(seen)
    }

    open spec fn openzeppelin_upgradeable_seen(&self, seen: SnapshotView) -> bool {
        self.sees_openzeppelin_upgradeable(seen)
    }

    open spec fn installation(&self) -> StepView {
        forge_install(self.root@, OPENZEPPELIN_PACKAGE@)
    }

    open spec fn upgradeable_installation(&self) -> Result<StepView, ErrorView> {
        Ok(forge_install(self.root@, OPENZEPPELIN_UPGRADEABLE_PACKAGE@))
    }

    fn ensure_directories(&self) -> (r: Vec<Step>) {
        FoundryProject::ensure_directories(self)
    }

    fn src_dir(&self) -> (r: String) {
        self.src_dir.clone()
    }

    fn test_dir(&self) -> (r: String) {
        self.test_dir.clone()
    }

    fn script_dir(&self) -> (r: String) {
        self.script_dir.clone()
    }

    fn has_openzeppelin(&self, seen: &Snapshot) -> (r: bool) {
        FoundryProject::has_openzeppelin(self, seen)
    }

    fn install_openzeppelin(&self) -> (r: Result<Step, NothungError>) {
        Ok(FoundryProject::install_openzeppelin(self))
    }

    fn has_openzeppelin_upgradeable(&self, seen: &Snapshot) -> (r: bool) {
        FoundryProject::has_openzeppelin_upgradeable(self, seen)
    }

    fn install_openzeppelin_upgradeable(&self) -> (r: Result<Step, NothungError>) {
        Ok(FoundryProject::install_openzeppelin_upgradeable(self))
    }
}

/// A Cargo project, for Rust/Stylus contracts.
#[derive(Debug, PartialEq, Eq)]
pub struct CargoProject {
    pub root: String,
}

impl CargoProject {
    /// The Cargo project that encloses a directory: the nearest of
    /// `candidates` that holds a manifest. The candidates are the directory
    /// and its ancestors, nearest first.
    pub fn detect(candidates: &[String], seen: &Snapshot) -> (r: Result<CargoProject, NothungError>)
        ensures
            match r {
                Ok(project) => nearest_marked(candidates@, CARGO_MANIFEST@, seen@, project.root@),
                Err(error) => error@ == ErrorView::ProjectNotFound(NO_MANIFEST@) && none_marked(
                    candidates@,
                    CARGO_MANIFEST@,
                    seen@,
                ),
            },
    {
        match find_root(candidates, CARGO_MANIFEST, seen) {
            Some(root) => Ok(CargoProject { root }),
            None => Err(NothungError::ProjectNotFound(String::from_str(NO_MANIFEST))),
        }
    }

    /// The path of the project's manifest.
    pub fn cargo_toml_path(&self) -> (r: String)
        ensures
            r@ == path_join(self.root@, CARGO_MANIFEST@),
    {
        join_path(self.root.as_str(), CARGO_MANIFEST)
    }
}

impl Project for CargoProject {
    open spec fn src_dir_text(&self) -> Seq<char> {
        path_join(self.root@, "src"@)
    }

    open spec fn test_dir_text(&self) -> Seq<char> {
        path_join(self.root@, "tests"@)
    }

    open spec fn script_dir_text(&self) -> Seq<char> {
        path_join(self.root@, "scripts"@)
    }

    open spec fn directories(&self) -> Seq<StepView> {
        seq![
            StepView::CreateDirectory { path: self.src_dir_text() },
            StepView::CreateDirectory { path: self.test_dir_text() },
            StepView::CreateDirectory { path: self.script_dir_text() },
        ]
    }

    open spec fn openzeppelin_seen(&self, seen: SnapshotView) -> bool {
        match seen.manifest {
            Some(contents) => occurs_in(contents, STYLUS_PACKAGE@),
            None => false,
        }
    }

    open spec fn openzeppelin_upgradeable_seen(&self, seen: SnapshotView) -> bool {
        self.openzeppelin_seen(seen)
    }

    open spec fn installation(&self) -> StepView {
        StepView::Run {
            tool: Tool::Cargo,
            arguments: seq!["add"@, STYLUS_REQUIREMENT@],
            directory: self.root@,
        }
    }

    open spec fn upgradeable_installation(&self) -> Result<StepView, ErrorView> {
        Err(ErrorView::Other(NO_UPGRADEABLE_STYLUS@))
    }

    /// The steps that create the directories for sources, tests and
    /// scripts.
    fn ensure_directories(&self) -> (r: Vec<Step>) {
        let mut steps: Vec<Step> = Vec::new();
        steps.push(Step::CreateDirectory { path: self.src_dir() });
        steps.push(Step::CreateDirectory { path: self.test_dir() });
        steps.push(Step::CreateDirectory { path: self.script_dir() });
        assert(step_views(steps@) == self.directories());
        steps
    }

    fn src_dir(&self) -> (r: String) {
        join_path(self.root.as_str(), "src")
    }

    fn test_dir(&self) -> (r: String) {
        join_path(self.root.as_str(), "tests")
    }

    fn script_dir(&self) -> (r: String) {
        join_path(self.root.as_str(), "scripts")
    }

    /// Whether the manifest mentions the token-standard package. A manifest
    /// that could not be read mentions nothing.
    fn has_openzeppelin(&self, seen: &Snapshot) -> (r: bool) {
        match &seen.manifest {
            Some(contents) => contains_text(contents.as_str(), STYLUS_PACKAGE),
            None => false,
        }
    }

    fn install_openzeppelin(&self) -> (r: Result<Step, NothungError>) {
        let mut arguments: Vec<String> = Vec::new();
        arguments.push(String::from_str("add"));
        arguments.push(String::from_str(STYLUS_REQUIREMENT));
        assert(texts(arguments@) == seq!["add"@, STYLUS_REQUIREMENT@]);
        Ok(Step::Run { tool: Tool::Cargo, arguments, directory: self.root.clone() })
    }

    /// The upgradeable contracts come with the same package as the plain
    /// ones.
    fn has_openzeppelin_upgradeable(&self, seen: &Snapshot) -> (r: bool) {
        self.has_openzeppelin(seen)
    }

    fn install_openzeppelin_upgradeable(&self) -> (r: Result<Step, NothungError>) {
        Err(NothungError::other(NO_UPGRADEABLE_STYLUS))
    }
}

/// A project of either kind.
#[derive(Debug, PartialEq, Eq)]
pub enum ProjectType {
    Foundry(FoundryProject),
    Cargo(CargoProject),
}

impl ProjectType {
    /// The project for `language` that encloses a directory: a Foundry
    /// project for Solidity, a Cargo project for Rust/Stylus. Either is the
    /// nearest of `candidates` that holds the marker of its kind; the
    /// candidates are the directory and its ancestors, nearest first. A
    /// Foundry project is looked for only where `forge` is installed.
    pub fn detect(
        language: &Language,
        forge_installed: bool,
        candidates: &[String],
        seen: &Snapshot,
    ) -> (r: Result<ProjectType, NothungError>)
        ensures
            match (*language, r) {
                (Language::Solidity, Ok(ProjectType::Foundry(project))) => forge_installed
                    && project.laid_out_at(project.root@) && nearest_marked(
                    candidates@,
                    FOUNDRY_MARKER@,
                    seen@,
                    project.root@,
                ),
                (Language::Solidity, Err(error)) => if forge_installed {
                    error@ == ErrorView::NotFoundryProject && none_marked(
                        candidates@,
                        FOUNDRY_MARKER@,
                        seen@,
                    )
                } else {
                    error@ == ErrorView::FoundryNotInstalled
                },
                (Language::RustStylus, Ok(ProjectType::Cargo(project))) => nearest_marked(
                    candidates@,
                    CARGO_MANIFEST@,
                    seen@,
                    project.root@,
                ),
                (Language::RustStylus, Err(error)) => error@ == ErrorView::ProjectNotFound(
                    NO_MANIFEST@,
                ) && none_marked(candidates@, CARGO_MANIFEST@, seen@),
                _ => false,
            },
    {
        match language {
            Language::Solidity => {
                match FoundryProject::detect(forge_installed, candidates, seen) {
                    Ok(project) => Ok(ProjectType::Foundry(project)),
                    Err(error) => Err(error),
                }
            },
            Language::RustStylus => {
                match CargoProject::detect(candidates, seen) {
                    Ok(project) => Ok(ProjectType::Cargo(project)),
                    Err(error) => Err(error),
                }
            },
        }
    }
}

impl Project for ProjectType {
    open spec fn src_dir_text(&self) -> Seq<char> {
        match self {
            ProjectType::Foundry(project) => project.src_dir_text(),
            ProjectType::Cargo(project) => project.src_dir_text(),
        }
    }

    open spec fn test_dir_text(&self) -> Seq<char> {
        match self {
            ProjectType::Foundry(project) => project.test_dir_text(),
            ProjectType::Cargo(project) => project.test_dir_text(),
        }
    }

    open spec fn script_dir_text(&self) -> Seq<char> {
        match self {
            ProjectType::Foundry(project) => project.script_dir_text(),
            ProjectType::Cargo(project) => project.script_dir_text(),
        }
    }

    open spec fn directories(&self) -> Seq<StepView> {
        match self {
            ProjectType::Foundry(project) => project.directories(),
            ProjectType::Cargo(project) => project.directories(),
        }
    }

    open spec fn openzeppelin_seen(&self, seen: SnapshotView) -> bool {
        match self {
            ProjectType::Foundry(project) => project.openzeppelin_seen(seen),
            ProjectType::Cargo(project) => project.openzeppelin_seen(seen),
        }
    }

    open spec fn openzeppelin_upgradeable_seen(&self, seen: SnapshotView) -> bool {
        match self {
            ProjectType::Foundry(project) => project.openzeppelin_upgradeable_seen(seen),
            ProjectType::Cargo(project) => project.openzeppelin_upgradeable_seen(seen),
        }
    }

    open spec fn installation(&self) -> StepView {
        match self {
            ProjectType::Foundry(project) => project.installation(),
            ProjectType::Cargo(project) => project.installation(),
        }
    }

    open spec fn upgradeable_installation(&self) -> Result<StepView, ErrorView> {
        match self {
            ProjectType::Foundry(project) => project.upgradeable_installation(),
            ProjectType::Cargo(project) => project.upgradeable_installation(),
        }
    }

    fn ensure_directories(&self) -> (r: Vec<Step>) {
        match self {
            ProjectType::Foundry(project) => Project::ensure_directories(project),
            ProjectType::Cargo(project) => Project::ensure_directories(project),
        }
    }

    fn src_dir(&self) -> (r: String) {
        match self {
            ProjectType::Foundry(project) => Project::src_dir(project),
            ProjectType::Cargo(project) => Project::src_dir(project),
        }
    }

    fn test_dir(&self) -> (r: String) {
        match self {
            ProjectType::Foundry(project) => Project::test_dir(project),
            ProjectType::Cargo(project) => Project::test_dir(project),
        }
    }

    fn script_dir(&self) -> (r: String) {
        match self {
            ProjectType::Foundry(project) => Project::script_dir(project),
            ProjectType::Cargo(project) => Project::script_dir(project),
        }
    }

    fn has_openzeppelin(&self, seen: &Snapshot) -> (r: bool) {
        match self {
            ProjectType::Foundry(project) => Project::has_openzeppelin(project, seen),
            ProjectType::Cargo(project) => Project::has_openzeppelin(project, seen),
        }
    }

    fn install_openzeppelin(&self) -> (r: Result<Step, NothungError>) {
        match self {
            ProjectType::Foundry(project) => Project::install_openzeppelin(project),
            ProjectType::Cargo(project) => Project::install_openzeppelin(project),
        }
    }

    fn has_openzeppelin_upgradeable(&self, seen: &Snapshot) -> (r: bool) {
        match self {
            ProjectType::Foundry(project) => Project::has_openzeppelin_upgradeable(project, seen),
            ProjectType::Cargo(project) => Project::has_openzeppelin_upgradeable(project, seen),
        }
    }

    fn install_openzeppelin_upgradeable(&self) -> (r: Result<Step, NothungError>) {
        match self {
            ProjectType::Foundry(project) => Project::install_openzeppelin_upgradeable(project),
            ProjectType::Cargo(project) => Project::install_openzeppelin_upgradeable(project),
        }
    }
}

} // verus!
