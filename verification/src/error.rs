//! The errors of the library. Each is final for the request that met it.

use vstd::prelude::*;
use vstd::string::*;

verus! {

/// Why a request could not be carried out.
#[derive(Debug, PartialEq, Eq)]
pub enum NothungError {
    /// No Foundry project encloses the working directory.
    NotFoundryProject,
    /// The `forge` tool is not installed.
    FoundryNotInstalled,
    /// No project of the expected kind was found.
    ProjectNotFound(String),
    /// A file that would be written is already there.
    FileExists(String),
    /// A file could not be created.
    FileCreationError(String),
    /// A `forge` command failed; the payload is what it wrote to standard
    /// error.
    ForgeCommandError(String),
    /// The name of a resource is not a valid identifier.
    InvalidContractName(String),
    /// The file system refused an operation.
    IoError(String),
    /// Any other failure, such as a combination of flags that is not
    /// supported.
    Other(String),
}

/// The name most of the library uses for its error type.
pub type GramrError = NothungError;

/// The mathematical value of a [`NothungError`]: the same variants, with
/// texts as sequences of characters.
pub enum ErrorView {
    NotFoundryProject,
    FoundryNotInstalled,
    ProjectNotFound(Seq<char>),
    FileExists(Seq<char>),
    FileCreationError(Seq<char>),
    ForgeCommandError(Seq<char>),
    InvalidContractName(Seq<char>),
    IoError(Seq<char>),
    Other(Seq<char>),
}

impl View for NothungError {
    type V = ErrorView;

    open spec fn view(&self) -> ErrorView {
        match self {
            NothungError::NotFoundryProject => ErrorView::NotFoundryProject,
            NothungError::FoundryNotInstalled => ErrorView::FoundryNotInstalled,
            NothungError::ProjectNotFound(text) => ErrorView::ProjectNotFound(text@),
            NothungError::FileExists(text) => ErrorView::FileExists(text@),
            NothungError::FileCreationError(text) => ErrorView::FileCreationError(text@),
            NothungError::ForgeCommandError(text) => ErrorView::ForgeCommandError(text@),
            NothungError::InvalidContractName(text) => ErrorView::InvalidContractName(text@),
            NothungError::IoError(text) => ErrorView::IoError(text@),
            NothungError::Other(text) => ErrorView::Other(text@),
        }
    }
}

impl ErrorView {
    /// The single line that reports the error to a user.
    pub open spec fn message(self) -> Seq<char> {
        match self {
            ErrorView::NotFoundryProject => NOT_FOUNDRY_PROJECT@,
            ErrorView::FoundryNotInstalled => FOUNDRY_NOT_INSTALLED@,
            ErrorView::ProjectNotFound(text) => "Project not found: "@ + text,
            ErrorView::FileExists(text) => "File already exists: "@ + text,
            ErrorView::FileCreationError(text) => "Failed to create file: "@ + text,
            ErrorView::ForgeCommandError(text) => "Failed to run forge command: "@ + text,
            ErrorView::InvalidContractName(text) => "Invalid contract name: "@ + text,
            ErrorView::IoError(text) => "IO error: "@ + text,
            ErrorView::Other(text) => "Other error: "@ + text,
        }
    }
}

/// What is reported outside a Foundry project.
pub const NOT_FOUNDRY_PROJECT: &'static str =
    "Not in a Foundry project. Please run this command from a Foundry project directory.";

/// What is reported where `forge` is missing.
pub const FOUNDRY_NOT_INSTALLED: &'static str =
    "Foundry is not installed. Please install Foundry first: https://getfoundry.sh";

/// `label` followed by `detail`.
fn labelled(label: &str, detail: &str) -> (r: String)
    ensures
        r@ == label@ + detail@,
{
    let mut out = String::from_str(label);
    out.append(detail);
    out
}

impl NothungError {
    /// The single line that reports the error to a user.
    pub fn message(&self) -> (r: String)
        ensures
            r@ == self@.message(),
    {
        match self {
            NothungError::NotFoundryProject => String::from_str(NOT_FOUNDRY_PROJECT),
            NothungError::FoundryNotInstalled => String::from_str(FOUNDRY_NOT_INSTALLED),
            NothungError::ProjectNotFound(text) => labelled("Project not found: ", text.as_str()),
            NothungError::FileExists(text) => labelled("File already exists: ", text.as_str()),
            NothungError::FileCreationError(text) => labelled(
                "Failed to create file: ",
                text.as_str(),
            ),
            NothungError::ForgeCommandError(text) => labelled(
                "Failed to run forge command: ",
                text.as_str(),
            ),
            NothungError::InvalidContractName(text) => labelled(
                "Invalid contract name: ",
                text.as_str(),
            ),
            NothungError::IoError(text) => labelled("IO error: ", text.as_str()),
            NothungError::Other(text) => labelled("Other error: ", text.as_str()),
        }
    }

    /// An error of the catch-all kind with the given text.
    pub fn other(text: &str) -> (r: NothungError)
        ensures
            r@ == ErrorView::Other(text@),
    {
        NothungError::Other(String::from_str(text))
    }
}

} // verus!
