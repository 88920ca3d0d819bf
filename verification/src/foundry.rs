//! Foundry projects: where they are found, where their files go, and how
//! the token-standard packages get into them.

use crate::error::{ErrorView, NothungError};
use crate::plan::{step_views, Snapshot, SnapshotView, Step, StepView, Tool};
use crate::text::{join_path, path_join, texts};
use vstd::prelude::*;
use vstd::string::*;

verus! {

/// The file that marks the root of a Foundry project.
pub const FOUNDRY_MARKER: &'static str = "foundry.toml";

/// Where the token-standard package is vendored, below the root.
pub const OPENZEPPELIN_DIR: &'static str = "lib/openzeppelin-contracts";

/// Where the upgradeable token-standard package is vendored, below the
/// root.
pub const OPENZEPPELIN_UPGRADEABLE_DIR: &'static str = "lib/openzeppelin-contracts-upgradeable";

/// The package that `forge install` fetches for the token standards.
pub const OPENZEPPELIN_PACKAGE: &'static str = "OpenZeppelin/openzeppelin-contracts";

/// The package that `forge install` fetches for the upgradeable token
/// standards.
pub const OPENZEPPELIN_UPGRADEABLE_PACKAGE: &'static str =
    "OpenZeppelin/openzeppelin-contracts-upgradeable";

/// A Foundry project: its root and the three directories below it.
#[derive(Debug, PartialEq, Eq)]
pub struct FoundryProject {
    pub root: String,
    pub src_dir: String,
    pub test_dir: String,
    pub script_dir: String,
}

/// Whether the file `marker` was seen in `directory`.
pub open spec fn marked_by(marker: Seq<char>, directory: Seq<char>, seen: SnapshotView) -> bool {
    seen.paths.contains(path_join(directory, marker))
}

/// Whether the marker of a Foundry project was seen in `directory`.
pub open spec fn marked(directory: Seq<char>, seen: SnapshotView) -> bool {
    marked_by(FOUNDRY_MARKER@, directory, seen)
}

/// Whether `root` is the nearest of `candidates` in which `marker` was
/// seen.
pub open spec fn nearest_marked(
    candidates: Seq<String>,
    marker: Seq<char>,
    seen: SnapshotView,
    root: Seq<char>,
) -> bool {
    exists|i: int|
        0 <= i < candidates.len() && (#[trigger] candidates[i])@ == root && marked_by(
            marker,
            root,
            seen,
        ) && forall|j: int| 0 <= j < i ==> !marked_by(marker, (#[trigger] candidates[j])@, seen)
}

/// Whether `marker` was seen in none of `candidates`.
pub open spec fn none_marked(
    candidates: Seq<String>,
    marker: Seq<char>,
    seen: SnapshotView,
) -> bool {
    forall|i: int| 0 <= i < candidates.len() ==> !marked_by(marker, (#[trigger] candidates[i])@, seen)
}

/// Walks upward: the nearest of `candidates` that holds the file `marker`,
/// if any does. The candidates are a directory and its ancestors, nearest
/// first.
pub fn find_root(candidates: &[String], marker: &str, seen: &Snapshot) -> (r: Option<String>)
    ensures
        match r {
            Some(root) => nearest_marked(candidates@, marker@, seen@, root@),
            None => none_marked(candidates@, marker@, seen@),
        },
{
    let mut i: usize = 0;
    while i < candidates.len()
        invariant
            i <= candidates.len(),
            forall|j: int| 0 <= j < i ==> !marked_by(marker@, (#[trigger] candidates@[j])@, seen@),
        decreases candidates.len() - i,
    {
        let path = join_path(candidates[i].as_str(), marker);
        if seen.has_path(path.as_str()) {
            return Some(candidates[i].clone());
        }
        i = i + 1;
    }
    None
}

/// The step that runs `forge install` for `package` in `root`.
pub open spec fn forge_install(root: Seq<char>, package: Seq<char>) -> StepView {
    StepView::Run { tool: Tool::Forge, arguments: seq!["install"@, package], directory: root }
}

fn forge_install_step(root: &str, package: &str) -> (r: Step)
    ensures
        r@ == forge_install(root@, package@),
{
    let mut arguments: Vec<String> = Vec::new();
    arguments.push(String::from_str("install"));
    arguments.push(String::from_str(package));
    assert(texts(arguments@) == seq!["install"@, package@]);
    Step::Run { tool: Tool::Forge, arguments, directory: String::from_str(root) }
}

impl FoundryProject {
    /// Whether the project has the layout of a Foundry project at `root`.
    pub open spec fn laid_out_at(&self, root: Seq<char>) -> bool {
        &&& self.root@ == root
        &&& self.src_dir@ == path_join(root, "src"@)
        &&& self.test_dir@ == path_join(root, "test"@)
        &&& self.script_dir@ == path_join(root, "script"@)
    }

    /// The project at `root`, with the directories `src`, `test` and
    /// `script` below it.
    pub fn at(root: String) -> (r: FoundryProject)
        ensures
            r.laid_out_at(root@),
    {
        let src_dir = join_path(root.as_str(), "src");
        let test_dir = join_path(root.as_str(), "test");
        let script_dir = join_path(root.as_str(), "script");
        FoundryProject { root, src_dir, test_dir, script_dir }
    }

    /// The nearest of `candidates` that holds the project marker. The
    /// candidates are a directory and its ancestors, nearest first.
    pub fn find_foundry_root(candidates: &[String], seen: &Snapshot) -> (r: Result<
        String,
        NothungError,
    >)
        ensures
            match r {
                Ok(root) => nearest_marked(candidates@, FOUNDRY_MARKER@, seen@, root@),
                Err(error) => error@ == ErrorView::NotFoundryProject && none_marked(
                    candidates@,
                    FOUNDRY_MARKER@,
                    seen@,
                ),
            },
    {
        match find_root(candidates, FOUNDRY_MARKER, seen) {
            Some(root) => Ok(root),
            None => Err(NothungError::NotFoundryProject),
        }
    }

    /// The Foundry project that encloses a directory. `candidates` are the
    /// directory and its ancestors, nearest first. Without `forge` no project
    /// is looked for.
    pub fn detect(forge_installed: bool, candidates: &[String], seen: &Snapshot) -> (r: Result<
        FoundryProject,
        NothungError,
    >)
        ensures
            match r {
                Ok(project) => forge_installed && project.laid_out_at(project.root@)
                    && nearest_marked(candidates@, FOUNDRY_MARKER@, seen@, project.root@),
                Err(error) => if forge_installed {
                    error@ == ErrorView::NotFoundryProject && none_marked(
                        candidates@,
                        FOUNDRY_MARKER@,
                        seen@,
                    )
                } else {
                    error@ == ErrorView::FoundryNotInstalled
                },
            },
    {
        if !forge_installed {
            return Err(NothungError::FoundryNotInstalled);
        }
        match FoundryProject::find_foundry_root(candidates, seen) {
            Ok(root) => Ok(FoundryProject::at(root)),
            Err(error) => Err(error),
        }
    }

    /// The steps that create the three directories of the project.
    pub open spec fn directory_steps(&self) -> Seq<StepView> {
        seq![
            StepView::CreateDirectory { path: self.src_dir@ },
            StepView::CreateDirectory { path: self.test_dir@ },
            StepView::CreateDirectory { path: self.script_dir@ },
        ]
    }

    /// The steps that make sure the three directories of the project are
    /// there.
    pub fn ensure_directories(&self) -> (r: Vec<Step>)
        ensures
            step_views(r@) == self.directory_steps(),
    {
        let mut steps: Vec<Step> = Vec::new();
        steps.push(Step::CreateDirectory { path: self.src_dir.clone() });
        steps.push(Step::CreateDirectory { path: self.test_dir.clone() });
        steps.push(Step::CreateDirectory { path: self.script_dir.clone() });
        assert(step_views(steps@) == self.directory_steps());
        steps
    }

    /// Whether the token-standard package was seen in the project.
    pub open spec fn sees_openzeppelin(&self, seen: SnapshotView) -> bool {
        seen.paths.contains(path_join(self.root@, OPENZEPPELIN_DIR@))
    }

    /// Whether the upgradeable token-standard package was seen in the
    /// project.
    pub open spec fn sees_openzeppelin_upgradeable(&self, seen: SnapshotView) -> bool {
        seen.paths.contains(path_join(self.root@, OPENZEPPELIN_UPGRADEABLE_DIR@))
    }

    /// Whether the token-standard package is installed: its directory was
    /// seen.
    pub fn has_openzeppelin(&self, seen: &Snapshot) -> (r: bool)
        ensures
            r == self.sees_openzeppelin(seen@),
    {
        let path = join_path(self.root.as_str(), OPENZEPPELIN_DIR);
        seen.has_path(path.as_str())
    }

    /// Whether the upgradeable token-standard package is installed: its
    /// directory was seen.
    pub fn has_openzeppelin_upgradeable(&self, seen: &Snapshot) -> (r: bool)
        ensures
            r == self.sees_openzeppelin_upgradeable(seen@),
    {
        let path = join_path(self.root.as_str(), OPENZEPPELIN_UPGRADEABLE_DIR);
        seen.has_path(path.as_str())
    }

    /// The step that installs the token-standard package.
    pub fn install_openzeppelin(&self) -> (r: Step)
        ensures
            r@ == forge_install(self.root@, OPENZEPPELIN_PACKAGE@),
    {
        forge_install_step(self.root.as_str(), OPENZEPPELIN_PACKAGE)
    }

    /// The step that installs the upgradeable token-standard package.
    pub fn install_openzeppelin_upgradeable(&self) -> (r: Step)
        ensures
            r@ == forge_install(self.root@, OPENZEPPELIN_UPGRADEABLE_PACKAGE@),
    {
        forge_install_step(self.root.as_str(), OPENZEPPELIN_UPGRADEABLE_PACKAGE)
    }
}

impl Clone for FoundryProject {
    fn clone(&self) -> (r: FoundryProject)
        ensures
            r == *self,
    {
        FoundryProject {
            root: self.root.clone(),
            src_dir: self.src_dir.clone(),
            test_dir: self.test_dir.clone(),
            script_dir: self.script_dir.clone(),
        }
    }
}

} // verus!
