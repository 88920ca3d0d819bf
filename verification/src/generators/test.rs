//! The generator of standalone tests.

use crate::error::ErrorView;
use crate::foundry::FoundryProject;
use crate::generators::{
    name_problem, plan_single_file, single_file_plan, validate_name, NewFile, NewFileView,
};
use crate::plan::{Plan, PlanView, Snapshot, SnapshotView};
use crate::project::Project;
use crate::templates::solidity::header;
use crate::text::{join_path, path_join};
use vstd::prelude::*;
use vstd::string::*;

verus! {

/// What a standalone test imports, up to the name of its contract.
pub const TEST_IMPORT: &'static str = r#"import "forge-std/Test.sol";

contract "#;

/// The body of a standalone test.
pub const TEST_BODY: &'static str = r#" is Test {
    function setUp() public {
        // Setup test environment
    }

    function test_Example() public {
        // Write your test here
        assertTrue(true);
    }

    function testFuzz_Example(uint256 value) public {
        // Write your fuzz test here
        assertGe(value, 0);
    }
}"#;

/// The text of a standalone test.
pub open spec fn test_content(name: Seq<char>, pragma: Seq<char>, license: Seq<char>) -> Seq<
    char,
> {
    header(license, pragma) + TEST_IMPORT@ + name + TEST_BODY@
}

/// What generating a test comes to: after the check of the name, one
/// file named after the test in the directory of tests.
pub open spec fn test_plan(
    project: FoundryProject,
    name: Seq<char>,
    pragma: Seq<char>,
    license: Seq<char>,
    seen: SnapshotView,
) -> PlanView {
    match name_problem("Test name"@, name) {
        Some(complaint) => PlanView::refused(ErrorView::InvalidContractName(complaint)),
        None => single_file_plan(
            project.directories(),
            None,
            NewFileView {
                path: path_join(project.test_dir@, name + ".t.sol"@),
                contents: test_content(name, pragma, license),
            },
            seen,
        ),
    }
}

/// Generates a standalone test into a Foundry project.
pub struct TestGenerator {
    pub project: FoundryProject,
    pub test_name: String,
    pub pragma: String,
    pub license: String,
}

impl TestGenerator {
    /// A generator for the test `test_name`.
    pub fn new(project: FoundryProject, test_name: String, pragma: String, license: String) -> (r:
        Self)
        ensures
            r.project == project,
            r.test_name == test_name,
            r.pragma == pragma,
            r.license == license,
    {
        Self { project, test_name, pragma, license }
    }

    /// The text of the test.
    pub fn generate_test_content(&self) -> (r: String)
        ensures
            r@ == test_content(self.test_name@, self.pragma@, self.license@),
    {
        let mut out = String::from_str("// SPDX-License-Identifier: ");
        out.append(self.license.as_str());
        out.append("\npragma solidity ^");
        out.append(self.pragma.as_str());
        out.append(";\n\n");
        out.append(TEST_IMPORT);
        out.append(self.test_name.as_str());
        out.append(TEST_BODY);
        out
    }

    /// Plans the generation over what was seen of the project.
    pub fn generate(&self, seen: &Snapshot) -> (r: Plan)
        ensures
            r@ == test_plan(self.project, self.test_name@, self.pragma@, self.license@, seen@),
    {
        match validate_name("Test name", self.test_name.as_str()) {
            Ok(()) => {},
            Err(error) => {
                return Plan::refused(error);
            },
        }
        let mut file_name = self.test_name.clone();
        file_name.append(".t.sol");
        let file = NewFile {
            path: join_path(self.project.test_dir.as_str(), file_name.as_str()),
            contents: self.generate_test_content(),
        };
        plan_single_file(&self.project, None, file, seen)
    }
}

} // verus!
