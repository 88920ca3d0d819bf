//! The generator of standalone scripts.

use crate::error::ErrorView;
use crate::foundry::FoundryProject;
use crate::generators::{
    name_problem, plan_single_file, single_file_plan, validate_name, NewFile, NewFileView,
};
use crate::plan::{Plan, PlanView, Snapshot, SnapshotView};
use crate::project::Project;
use crate::templates::solidity::header;
use crate::text::{join_path, path_join};
use vstd::prelude::*;
use vstd::string::*;

verus! {

/// What a standalone script imports, up to the name of its contract.
pub const SCRIPT_IMPORT: &'static str = r#"import "forge-std/Script.sol";

contract "#;

/// The body of a standalone script.
pub const SCRIPT_BODY: &'static str = r#" is Script {
    function setUp() public {}

    function run() public {
        uint256 deployerPrivateKey = vm.envUint("PRIVATE_KEY");
        vm.startBroadcast(deployerPrivateKey);

        // Deploy contracts here

        vm.stopBroadcast();
    }
}"#;

/// The text of a standalone script.
pub open spec fn script_content(name: Seq<char>, pragma: Seq<char>, license: Seq<char>) -> Seq<
    char,
> {
    header(license, pragma) + SCRIPT_IMPORT@ + name + SCRIPT_BODY@
}

/// What generating a script comes to: after the check of the name, one
/// file named after the script in the directory of scripts.
pub open spec fn script_plan(
    project: FoundryProject,
    name: Seq<char>,
    pragma: Seq<char>,
    license: Seq<char>,
    seen: SnapshotView,
) -> PlanView {
    match name_problem("Script name"@, name) {
        Some(complaint) => PlanView::refused(ErrorView::InvalidContractName(complaint)),
        None => single_file_plan(
            project.directories(),
            None,
            NewFileView {
                path: path_join(project.script_dir@, name + ".s.sol"@),
                contents: script_content(name, pragma, license),
            },
            seen,
        ),
    }
}

/// Generates a standalone deployment script into a Foundry project.
pub struct ScriptGenerator {
    pub project: FoundryProject,
    pub script_name: String,
    pub pragma: String,
    pub license: String,
}

impl ScriptGenerator {
    /// A generator for the script `script_name`.
    pub fn new(project: FoundryProject, script_name: String, pragma: String, license: String) -> (r:
        Self)
        ensures
            r.project == project,
            r.script_name == script_name,
            r.pragma == pragma,
            r.license == license,
    {
        Self { project, script_name, pragma, license }
    }

    /// The text of the script.
    pub fn generate_script_content(&self) -> (r: String)
        ensures
            r@ == script_content(self.script_name@, self.pragma@, self.license@),
    {
        let mut out = String::from_str("// SPDX-License-Identifier: ");
        out.append(self.license.as_str());
        out.append("\npragma solidity ^");
        out.append(self.pragma.as_str());
        out.append(";\n\n");
        out.append(SCRIPT_IMPORT);
        out.append(self.script_name.as_str());
        out.append(SCRIPT_BODY);
        out
    }

    /// Plans the generation over what was seen of the project.
    pub fn generate(&self, seen: &Snapshot) -> (r: Plan)
        ensures
            r@ == script_plan(self.project, self.script_name@, self.pragma@, self.license@, seen@),
    {
        match validate_name("Script name", self.script_name.as_str()) {
            Ok(()) => {},
            Err(error) => {
                return Plan::refused(error);
            },
        }
        let mut file_name = self.script_name.clone();
        file_name.append(".s.sol");
        let file = NewFile {
            path: join_path(self.project.script_dir.as_str(), file_name.as_str()),
            contents: self.generate_script_content(),
        };
        plan_single_file(&self.project, None, file, seen)
    }
}

} // verus!
