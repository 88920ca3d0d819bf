//! The generator of standalone libraries.

use crate::compose::{compose_library, composed_library};
use crate::error::ErrorView;
use crate::generators::{
    as_text, name_problem, optional_view, plan_single_file, single_file_plan, validate_name,
    NewFile, NewFileView,
};
use crate::language::Language;
use crate::plan::{Plan, PlanView, Snapshot, SnapshotView};
use crate::project::{Project, ProjectType};
use crate::text::{join_path, path_join};
use vstd::prelude::*;
use vstd::string::*;

verus! {

/// The directory of libraries, below the sources.
pub const LIBRARIES_DIR: &'static str = "libraries";

/// Generates a standalone library into the directory of libraries.
pub struct LibraryGenerator {
    pub project: ProjectType,
    pub language: Language,
    pub library_name: String,
    pub pragma: Option<String>,
    pub license: Option<String>,
}

/// What generating a library comes to: after the check of the name, one
/// file named after the library in the directory of libraries.
pub open spec fn library_plan(
    project: ProjectType,
    language: Language,
    name: Seq<char>,
    pragma: Option<Seq<char>>,
    license: Option<Seq<char>>,
    seen: SnapshotView,
) -> PlanView {
    match name_problem("Library name"@, name) {
        Some(complaint) => PlanView::refused(ErrorView::InvalidContractName(complaint)),
        None => {
            let folder = path_join(project.src_dir_text(), LIBRARIES_DIR@);
            single_file_plan(
                project.directories(),
                Some(folder),
                NewFileView {
                    path: path_join(folder, name + "."@ + language.extension_text()),
                    contents: composed_library(name, language, pragma, license),
                },
                seen,
            )
        },
    }
}

impl LibraryGenerator {
    /// A generator for the library `library_name` in `language`.
    pub fn new(
        project: ProjectType,
        language: Language,
        library_name: String,
        pragma: Option<String>,
        license: Option<String>,
    ) -> (r: Self)
        ensures
            r.project == project,
            r.language == language,
            r.library_name == library_name,
            r.pragma == pragma,
            r.license == license,
    {
        Self { project, language, library_name, pragma, license }
    }

    /// Plans the generation over what was seen of the project.
    pub fn generate(&self, seen: &Snapshot) -> (r: Plan)
        ensures
            r@ == library_plan(
                self.project,
                self.language,
                self.library_name@,
                optional_view(self.pragma),
                optional_view(self.license),
                seen@,
            ),
    {
        match validate_name("Library name", self.library_name.as_str()) {
            Ok(()) => {},
            Err(error) => {
                return Plan::refused(error);
            },
        }
        let src_dir = self.project.src_dir();
        let folder = join_path(src_dir.as_str(), LIBRARIES_DIR);
        let mut file_name = self.library_name.clone();
        file_name.append(".");
        file_name.append(self.language.file_extension());
        let file = NewFile {
            path: join_path(folder.as_str(), file_name.as_str()),
            contents: compose_library(
                self.library_name.as_str(),
                &self.language,
                as_text(&self.pragma),
                as_text(&self.license),
            ),
        };
        plan_single_file(&self.project, Some(folder), file, seen)
    }
}

} // verus!
