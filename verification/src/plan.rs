//! What a generator decides, as data: the steps to carry out on a project,
//! in order, and how the request ends. The library decides; whoever holds
//! the file system carries the steps out.

use crate::error::{ErrorView, NothungError};
use crate::text::{same_text, texts};
use vstd::prelude::*;
use vstd::string::*;

verus! {

/// A package manager that can install the token-standard dependency.
#[derive(Clone, Copy, Debug, PartialEq, Eq, Structural)]
pub enum Tool {
    Forge,
    Cargo,
}

impl Tool {
    /// The name of the program.
    pub open spec fn program_text(self) -> Seq<char> {
        match self {
            Tool::Forge => "forge"@,
            Tool::Cargo => "cargo"@,
        }
    }

    /// The name of the program.
    pub fn program(&self) -> (r: &'static str)
        ensures
            r@ == self.program_text(),
    {
        match self {
            Tool::Forge => "forge",
            Tool::Cargo => "cargo",
        }
    }
}

/// One thing to do on the project.
#[derive(Debug, PartialEq, Eq)]
pub enum Step {
    /// Create the directory and its parents. Doing so again is harmless.
    CreateDirectory { path: String },
    /// Run the tool with the arguments in the directory, to its end.
    Run { tool: Tool, arguments: Vec<String>, directory: String },
    /// Write a new file with the contents.
    WriteFile { path: String, contents: String },
}

/// The mathematical value of a [`Step`].
pub enum StepView {
    CreateDirectory { path: Seq<char> },
    Run { tool: Tool, arguments: Seq<Seq<char>>, directory: Seq<char> },
    WriteFile { path: Seq<char>, contents: Seq<char> },
}

impl View for Step {
    type V = StepView;

    open spec fn view(&self) -> StepView {
        match self {
            Step::CreateDirectory { path } => StepView::CreateDirectory { path: path@ },
            Step::Run { tool, arguments, directory } => StepView::Run {
                tool: *tool,
                arguments: texts(arguments@),
                directory: directory@,
            },
            Step::WriteFile { path, contents } => StepView::WriteFile {
                path: path@,
                contents: contents@,
            },
        }
    }
}

/// How the message about a failed `cargo add` starts.
pub const CARGO_ADD_FAILED: &'static str = "Failed to add openzeppelin-stylus: ";

impl StepView {
    /// Whether carrying out the step brings `path` into being: a directory
    /// that is created, or a file that is written. What a tool brings about
    /// when it is run is not known here.
    pub open spec fn produces(self, path: Seq<char>) -> bool {
        match self {
            StepView::CreateDirectory { path: created } => created == path,
            StepView::WriteFile { path: written, .. } => written == path,
            StepView::Run { .. } => false,
        }
    }

    /// The error to report where the step fails with `detail`: what a tool
    /// wrote to standard error, or what the file system said.
    pub open spec fn failure(self, detail: Seq<char>) -> ErrorView {
        match self {
            StepView::Run { tool: Tool::Forge, .. } => ErrorView::ForgeCommandError(detail),
            StepView::Run { tool: Tool::Cargo, .. } => ErrorView::Other(
                CARGO_ADD_FAILED@ + detail,
            ),
            _ => ErrorView::IoError(detail),
        }
    }
}

impl Step {
    /// The error to report where the step fails with `detail`.
    pub fn failure(&self, detail: &str) -> (r: NothungError)
        ensures
            r@ == self@.failure(detail@),
    {
        match self {
            Step::Run { tool: Tool::Forge, .. } => NothungError::ForgeCommandError(
                String::from_str(detail),
            ),
            Step::Run { tool: Tool::Cargo, .. } => {
                let mut message = String::from_str(CARGO_ADD_FAILED);
                message.append(detail);
                NothungError::Other(message)
            },
            _ => NothungError::IoError(String::from_str(detail)),
        }
    }
}

/// The views of a list of steps, in order.
pub open spec fn step_views(steps: Seq<Step>) -> Seq<StepView> {
    Seq::new(steps.len(), |i: int| steps[i]@)
}

/// What a generator decided: the steps to carry out, in order, and how the
/// request ends once they are done. A request that ends in an error may
/// still have steps: those that come before the point of failure.
#[derive(Debug, PartialEq, Eq)]
pub struct Plan {
    pub steps: Vec<Step>,
    pub outcome: Result<(), NothungError>,
}

/// The mathematical value of a [`Plan`].
pub struct PlanView {
    pub steps: Seq<StepView>,
    pub outcome: Result<(), ErrorView>,
}

impl View for Plan {
    type V = PlanView;

    open spec fn view(&self) -> PlanView {
        PlanView {
            steps: step_views(self.steps@),
            outcome: match self.outcome {
                Ok(()) => Ok(()),
                Err(error) => Err(error@),
            },
        }
    }
}

impl PlanView {
    /// The plan that does nothing and ends in `error`.
    pub open spec fn refused(error: ErrorView) -> PlanView {
        PlanView { steps: Seq::empty(), outcome: Err(error) }
    }

    /// What is seen of the project once the steps of the plan have been
    /// carried out on what was seen before: whatever was there, and whatever
    /// a step created or wrote.
    pub open spec fn leaves(self, seen: SnapshotView) -> SnapshotView {
        SnapshotView {
            paths: Set::new(
                |path: Seq<char>|
                    seen.paths.contains(path) || exists|i: int|
                        0 <= i < self.steps.len() && (#[trigger] self.steps[i]).produces(path),
            ),
            manifest: seen.manifest,
        }
    }
}

impl Plan {
    /// The plan that does nothing and ends in `error`.
    pub fn refused(error: NothungError) -> (r: Plan)
        ensures
            r@ == PlanView::refused(error@),
    {
        let plan = Plan { steps: Vec::new(), outcome: Err(error) };
        assert(plan@.steps == Seq::<StepView>::empty());
        plan
    }
}

/// What was seen of a project on disk before a request is planned.
#[derive(Debug, PartialEq, Eq)]
pub struct Snapshot {
    /// The paths that exist, files and directories alike.
    pub paths: Vec<String>,
    /// The contents of the project's `Cargo.toml`, where it could be read.
    pub manifest: Option<String>,
}

/// The mathematical value of a [`Snapshot`].
pub struct SnapshotView {
    pub paths: Set<Seq<char>>,
    pub manifest: Option<Seq<char>>,
}

impl View for Snapshot {
    type V = SnapshotView;

    open spec fn view(&self) -> SnapshotView {
        SnapshotView {
            paths: Set::new(
                |path: Seq<char>|
                    exists|i: int| 0 <= i < self.paths@.len() && (#[trigger] self.paths@[i])@ == path,
            ),
            manifest: match self.manifest {
                Some(text) => Some(text@),
                None => None,
            },
        }
    }
}

impl Snapshot {
    /// A snapshot of the given paths and manifest.
    pub fn new(paths: Vec<String>, manifest: Option<String>) -> (r: Snapshot)
        ensures
            r.paths == paths,
            r.manifest == manifest,
    {
        Snapshot { paths, manifest }
    }

    /// Whether `path` was seen.
    pub fn has_path(&self, path: &str) -> (r: bool)
        ensures
            r == self@.paths.contains(path@),
    {
        let mut i: usize = 0;
        while i < self.paths.len()
            invariant
                i <= self.paths.len(),
                forall|k: int| 0 <= k < i ==> (#[trigger] self.paths@[k])@ != path@,
            decreases self.paths.len() - i,
        {
            if same_text(self.paths[i].as_str(), path) {
                return true;
            }
            i = i + 1;
        }
        false
    }
}

} // verus!
